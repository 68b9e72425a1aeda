use vstd::prelude::*;

verus! {

/// Why an operation on a [`SetLock`] was refused.
#[derive(Debug, Clone, Copy, PartialEq, Eq, Structural)]
pub enum SetLockError {
    /// A value is already stored; the cell keeps it.
    AlreadySet,
    /// No value has been stored yet.
    NotSet,
}

impl SetLockError {
    pub open spec fn text(self) -> Seq<char> {
        match self {
            SetLockError::AlreadySet => "value already set"@,
            SetLockError::NotSet => "value not set"@,
        }
    }

    /// Human-readable description of the error.
    pub fn describe(&self) -> (r: String)
        ensures
            r@ == self.text(),
    {
        match self {
            SetLockError::AlreadySet => {
                proof { reveal_strlit("value already set"); }
                "value already set".to_string()
            },
            SetLockError::NotSet => {
                proof { reveal_strlit("value not set"); }
                "value not set".to_string()
            },
        }
    }
}

/// Contents of a cell after `set(v)` on a cell holding `cell`.
pub open spec fn after_set<T>(cell: Option<T>, v: T) -> Option<T> {
    match cell {
        Some(_) => cell,
        None => Some(v),
    }
}

/// What `set` returns on a cell holding `cell`.
pub open spec fn set_outcome<T>(cell: Option<T>) -> Result<(), SetLockError> {
    match cell {
        Some(_) => Err(SetLockError::AlreadySet),
        None => Ok(()),
    }
}

/// What `get` returns on a cell holding `cell`.
pub open spec fn get_outcome<T>(cell: Option<T>) -> Result<T, SetLockError> {
    match cell {
        Some(v) => Ok(v),
        None => Err(SetLockError::NotSet),
    }
}

/// A fresh cell accepts exactly one write: a second one is refused with
/// `AlreadySet` and reading still gives the first value.
pub proof fn lemma_write_once<T>(v: T, w: T)
    ensures
        set_outcome(None::<T>) is Ok,
        set_outcome(after_set(None::<T>, v)) == Err::<(), SetLockError>(SetLockError::AlreadySet),
        after_set(after_set(None::<T>, v), w) == Some(v),
        get_outcome(after_set(after_set(None::<T>, v), w)) == Ok::<T, SetLockError>(v),
{
}

/// A cell that is written at most once and read any number of times.
pub struct SetLock<T> {
    value: Option<T>,
}

impl<T> View for SetLock<T> {
    type V = Option<T>;

    open spec fn view(&self) -> Option<T> {
        self.spec_value()
    }
}

impl<T> SetLock<T> {
    pub closed spec fn spec_value(&self) -> Option<T> {
        self.value
    }

    /// An empty cell.
    pub fn new() -> (r: Self)
        ensures
            r@ is None,
    {
        SetLock { value: None }
    }

    /// Whether a value has been stored.
    pub fn is_set(&self) -> (r: bool)
        ensures
            r == self@ is Some,
    {
        self.value.is_some()
    }

    /// Stores `value` if the cell is empty; otherwise refuses with
    /// `AlreadySet` and keeps the value already there.
    pub fn set(&mut self, value: T) -> (r: Result<(), SetLockError>)
        ensures
            final(self)@ == after_set(old(self)@, value),
            r == set_outcome(old(self)@),
    {
        if self.value.is_some() {
            Err(SetLockError::AlreadySet)
        } else {
            self.value = Some(value);
            Ok(())
        }
    }

    /// The stored value, or `NotSet` while the cell is empty.
    pub fn get(&self) -> (r: Result<&T, SetLockError>)
        ensures
            r is Err ==> get_outcome(self@) == Err::<T, SetLockError>(r->Err_0),
            r is Ok ==> get_outcome(self@) == Ok::<T, SetLockError>(*r->Ok_0),
    {
        match &self.value {
            Some(v) => Ok(v),
            None => Err(SetLockError::NotSet),
        }
    }

    /// The stored value; the cell must hold one.
    pub fn unwrap(&self) -> (r: &T)
        requires
            self@ is Some,
        ensures
            *r == self@->0,
    {
        match &self.value {
            Some(v) => v,
            None => vstd::pervasive::unreached(),
        }
    }
}

} // verus!
