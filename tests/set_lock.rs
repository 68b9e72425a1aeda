use lum::set_lock::{SetLock, SetLockError};

#[test]
fn second_set_is_refused_and_first_value_kept() {
    let mut cell: SetLock<u32> = SetLock::new();
    assert_eq!(cell.set(7), Ok(()));
    assert_eq!(cell.set(9), Err(SetLockError::AlreadySet));
    assert_eq!(cell.get(), Ok(&7));
    assert_eq!(*cell.unwrap(), 7);
}

#[test]
fn get_on_unset_cell_is_not_set() {
    let cell: SetLock<String> = SetLock::new();
    assert_eq!(cell.get(), Err(SetLockError::NotSet));
    assert!(!cell.is_set());
}

#[test]
fn set_lock_error_texts() {
    assert_eq!(SetLockError::AlreadySet.describe(), "value already set");
    assert_eq!(SetLockError::NotSet.describe(), "value not set");
}
