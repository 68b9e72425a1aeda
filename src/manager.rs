use vstd::prelude::*;
use vstd::string::*;
use crate::status::{Priority, ServiceInfo, Status};

verus! {

/// What every service exposes to the manager: its identity and health, and a
/// way to record a new status.
pub trait Service {
    spec fn spec_info(&self) -> ServiceInfo;

    /// The service's identity and current status.
    fn info(&self) -> (r: &ServiceInfo)
        ensures
            *r == self.spec_info(),
    ;

    /// Replaces the status and keeps the rest of the identity.
    fn set_status(&mut self, status: Status)
        ensures
            final(self).spec_info().status == status,
            final(self).spec_info().id == old(self).spec_info().id,
            final(self).spec_info().name == old(self).spec_info().name,
            final(self).spec_info().priority == old(self).spec_info().priority,
    ;
}

impl Service for ServiceInfo {
    open spec fn spec_info(&self) -> ServiceInfo {
        *self
    }

    fn info(&self) -> (r: &ServiceInfo) {
        self
    }

    fn set_status(&mut self, status: Status) {
        self.status = status;
    }
}

/// A handle to a registered service: stable for the manager's lifetime.
pub type ServiceHandle = usize;

/// Why a registration was refused.
#[derive(Debug, Clone, Copy, PartialEq, Eq, Structural)]
pub enum RegisterError {
    /// A service with the same id is already registered.
    DuplicateId,
}

/// What orchestration does after one service's start has been recorded.
#[derive(Debug, Clone, PartialEq, Eq)]
pub enum StartStep {
    /// Go on with the next service.
    Continue,
    /// A critical service failed: stop starting services and report it.
    Abort { id: String, reason: String },
}

/// Rank of a priority in startup order: lower starts first.
pub open spec fn rank(p: Priority) -> int {
    match p {
        Priority::Critical => 0,
        Priority::Optional => 1,
    }
}

/// The handle under which `id` is registered in `services`, if any.
pub open spec fn handle_in<S: Service>(services: Seq<S>, id: Seq<char>) -> Option<int> {
    if exists|h: int| 0 <= h < services.len() && services[h].spec_info().id@ == id {
        Some(choose|h: int| 0 <= h < services.len() && services[h].spec_info().id@ == id)
    } else {
        None
    }
}

/// Registering a service whose id is new makes lookups of that id give the
/// new handle, and leaves the handle of every other id as it was.
pub proof fn lemma_registration_keeps_handles<S: Service>(m: ServiceManager<S>, s: S)
    requires
        m.wf(),
        m.handle_of(s.spec_info().id@) is None,
    ensures
        handle_in(m.spec_services().push(s), s.spec_info().id@) == Some(m.len() as int),
        forall|id: Seq<char>|
            id != s.spec_info().id@ ==> #[trigger] handle_in(m.spec_services().push(s), id)
                == m.handle_of(id),
{
    let old_s = m.spec_services();
    let new_s = old_s.push(s);
    let new_id = s.spec_info().id@;
    assert(new_s[old_s.len() as int] == s);
    assert forall|h: int| 0 <= h < new_s.len() && new_s[h].spec_info().id@ == new_id implies h
        == old_s.len() by {
        if h < old_s.len() {
            assert(new_s[h] == old_s[h]);
            assert(m.id_at(h) == new_id);
        }
    }
    assert forall|id: Seq<char>| id != new_id implies #[trigger] handle_in(new_s, id)
        == m.handle_of(id) by {
        assert forall|h: int| 0 <= h < new_s.len() implies (new_s[h].spec_info().id@ == id) == (
        h < old_s.len() && m.id_at(h) == id) by {
            if h < old_s.len() {
                assert(new_s[h] == old_s[h]);
            }
        }
        if exists|h: int| 0 <= h < old_s.len() && old_s[h].spec_info().id@ == id {
            let h = choose|h: int| 0 <= h < old_s.len() && old_s[h].spec_info().id@ == id;
            assert(new_s[h] == old_s[h]);
            assert(0 <= h < new_s.len() && new_s[h].spec_info().id@ == id);
            let a = choose|h: int| 0 <= h < old_s.len() && old_s[h].spec_info().id@ == id;
            let b = choose|h: int| 0 <= h < new_s.len() && new_s[h].spec_info().id@ == id;
            assert(new_s[b] == old_s[b]);
            assert(m.id_at(a) == id && m.id_at(b) == id);
            assert(a == b);
        } else {
            assert forall|h: int| 0 <= h < new_s.len() implies #[trigger] new_s[h].spec_info().id@ != id by {
                if h < old_s.len() {
                    assert(new_s[h] == old_s[h]);
                }
            }
        }
    }
}

/// Registry of services keyed by their stable id.
pub struct ServiceManager<S> {
    services: Vec<S>,
}

impl<S: Service> ServiceManager<S> {
    pub closed spec fn spec_services(&self) -> Seq<S> {
        self.services@
    }

    /// Id of the service under handle `h`.
    pub open spec fn id_at(&self, h: int) -> Seq<char> {
        self.spec_services()[h].spec_info().id@
    }

    /// Priority of the service under handle `h`.
    pub open spec fn priority_at(&self, h: int) -> Priority {
        self.spec_services()[h].spec_info().priority
    }

    /// Status of the service under handle `h`.
    pub open spec fn status_at(&self, h: int) -> Status {
        self.spec_services()[h].spec_info().status
    }

    pub open spec fn len(&self) -> nat {
        self.spec_services().len()
    }

    /// No two registered services share an id.
    pub open spec fn wf(&self) -> bool {
        forall|a: int, b: int|
            0 <= a < self.len() && 0 <= b < self.len() && a != b ==> self.id_at(a) != self.id_at(b)
    }

    /// The handle registered under `id`, if any.
    pub open spec fn handle_of(&self, id: Seq<char>) -> Option<int> {
        handle_in(self.spec_services(), id)
    }

    /// An empty registry.
    pub fn new() -> (r: Self)
        ensures
            r.wf(),
            r.len() == 0,
    {
        ServiceManager { services: Vec::new() }
    }

    /// Number of registered services.
    pub fn count(&self) -> (r: usize)
        ensures
            r == self.len(),
    {
        self.services.len()
    }

    /// Registers `service` under its id and returns its handle; refuses an id
    /// that is already taken.
    pub fn register(&mut self, service: S) -> (r: Result<ServiceHandle, RegisterError>)
        requires
            old(self).wf(),
        ensures
            final(self).wf(),
            old(self).handle_of(service.spec_info().id@) is Some ==> r == Err::<
                ServiceHandle,
                RegisterError,
            >(RegisterError::DuplicateId) && final(self).spec_services() == old(
                self,
            ).spec_services(),
            old(self).handle_of(service.spec_info().id@) is None ==> r == Ok::<
                ServiceHandle,
                RegisterError,
            >(old(self).len() as usize) && final(self).spec_services() == old(
                self,
            ).spec_services().push(service),
    {
        let found = self.get_service(service.info().id.as_str());
        if found.is_some() {
            return Err(RegisterError::DuplicateId);
        }
        let h = self.services.len();
        let ghost before = self.services@;
        let ghost new_id = service.spec_info().id@;
        assert(self.handle_of(new_id) is None);
        assert forall|j: int| 0 <= j < before.len() implies #[trigger] before[j].spec_info().id@
            != new_id by {
            assert(self.id_at(j) == before[j].spec_info().id@);
        }
        assert forall|a: int, b: int|
            0 <= a < before.len() && 0 <= b < before.len() && a != b implies #[trigger] before[a].spec_info().id@
            != #[trigger] before[b].spec_info().id@ by {
            assert(self.id_at(a) == before[a].spec_info().id@);
            assert(self.id_at(b) == before[b].spec_info().id@);
        }
        self.services.push(service);
        assert forall|a: int, b: int|
            0 <= a < self.len() && 0 <= b < self.len() && a != b implies self.id_at(a)
            != self.id_at(b) by {
            assert(self.services@[a] == before.push(service)[a]);
            assert(self.services@[b] == before.push(service)[b]);
            assert(self.services@[before.len() as int] == service);
        }
        Ok(h)
    }

    /// The handle of the service registered under `id`, or `None`; the same
    /// handle on every call.
    pub fn get_service(&self, id: &str) -> (r: Option<ServiceHandle>)
        requires
            self.wf(),
        ensures
            r is None <==> self.handle_of(id@) is None,
            r is Some ==> self.handle_of(id@) == Some(r->0 as int),
    {
        let key = String::from_str(id);
        let mut i: usize = 0;
        while i < self.services.len()
            invariant
                0 <= i <= self.services@.len(),
                key@ == id@,
                self.wf(),
                forall|j: int| 0 <= j < i ==> self.id_at(j) != id@,
            decreases self.services@.len() - i,
        {
            if self.services[i].info().id == key {
                assert(self.id_at(i as int) == id@);
                proof {
                    let ss = self.spec_services();
                    assert(ss[i as int].spec_info().id@ == id@);
                    let h = choose|h: int| 0 <= h < ss.len() && ss[h].spec_info().id@ == id@;
                    assert(self.id_at(h) == id@);
                    assert(h == i);
                }
                return Some(i);
            }
            i = i + 1;
        }
        assert forall|h: int| 0 <= h < self.len() implies #[trigger] self.spec_services()[h].spec_info().id@ != id@ by {
            assert(self.id_at(h) != id@);
        }
        None
    }

    /// The service under handle `h`.
    pub fn service(&self, h: ServiceHandle) -> (r: &S)
        requires
            h < self.len(),
        ensures
            *r == self.spec_services()[h as int],
    {
        &self.services[h]
    }

    /// Handles in startup order: every registered service once, critical ones
    /// before optional ones, each group in registration order.
    pub fn start_order(&self) -> (r: Vec<ServiceHandle>)
        ensures
            forall|k: int| 0 <= k < r@.len() ==> r@[k] < self.len(),
            forall|h: int| 0 <= h < self.len() ==> #[trigger] r@.contains(h as usize),
            forall|a: int, b: int|
                0 <= a < b < r@.len() ==> rank(self.priority_at(r@[a] as int)) < rank(
                    self.priority_at(r@[b] as int),
                ) || (self.priority_at(r@[a] as int) == self.priority_at(r@[b] as int) && r@[a]
                    < r@[b]),
    {
        let n = self.services.len();
        let mut r: Vec<ServiceHandle> = Vec::new();
        let mut i: usize = 0;
        while i < n
            invariant
                n == self.len(),
                0 <= i <= n,
                forall|k: int|
                    0 <= k < r@.len() ==> r@[k] < i && self.priority_at(r@[k] as int)
                        == Priority::Critical,
                forall|a: int, b: int| 0 <= a < b < r@.len() ==> r@[a] < r@[b],
                forall|h: int|
                    0 <= h < i && self.priority_at(h) == Priority::Critical ==> r@.contains(h as usize),
            decreases n - i,
        {
            if self.services[i].info().priority == Priority::Critical {
                let ghost prev = r@;
                r.push(i);
                assert forall|h: int|
                    0 <= h < i + 1 && self.priority_at(h) == Priority::Critical implies r@.contains(h as usize) by {
                    if h < i {
                        assert(prev.contains(h as usize));
                        let k = choose|k: int| 0 <= k < prev.len() && prev[k] == h;
                        assert(r@[k] == h);
                    } else {
                        assert(r@[prev.len() as int] == h);
                    }
                }
            }
            i = i + 1;
        }
        let ghost c = r@.len();
        let mut i: usize = 0;
        while i < n
            invariant
                n == self.len(),
                0 <= i <= n,
                c <= r@.len(),
                forall|k: int|
                    0 <= k < c ==> r@[k] < n && self.priority_at(r@[k] as int) == Priority::Critical,
                forall|k: int|
                    c <= k < r@.len() ==> r@[k] < i && self.priority_at(r@[k] as int)
                        == Priority::Optional,
                forall|a: int, b: int| 0 <= a < b < c ==> r@[a] < r@[b],
                forall|a: int, b: int| c <= a < b < r@.len() ==> r@[a] < r@[b],
                forall|h: int|
                    0 <= h < n && self.priority_at(h) == Priority::Critical ==> r@.contains(h as usize),
                forall|h: int|
                    0 <= h < i && self.priority_at(h) == Priority::Optional ==> r@.contains(h as usize),
            decreases n - i,
        {
            if self.services[i].info().priority == Priority::Optional {
                let ghost prev = r@;
                r.push(i);
                assert forall|h: int|
                    0 <= h < n && self.priority_at(h) == Priority::Critical implies r@.contains(h as usize) by {
                    assert(prev.contains(h as usize));
                        let k = choose|k: int| 0 <= k < prev.len() && prev[k] == h;
                    assert(r@[k] == h);
                }
                assert forall|h: int|
                    0 <= h < i + 1 && self.priority_at(h) == Priority::Optional implies r@.contains(h as usize) by {
                    if h < i {
                        assert(prev.contains(h as usize));
                        let k = choose|k: int| 0 <= k < prev.len() && prev[k] == h;
                        assert(r@[k] == h);
                    } else {
                        assert(r@[prev.len() as int] == h);
                    }
                }
            }
            i = i + 1;
        }
        assert forall|h: int| 0 <= h < self.len() implies #[trigger] r@.contains(h as usize) by {
            if self.priority_at(h) == Priority::Critical {
            } else {
                assert(self.priority_at(h) == Priority::Optional);
            }
        }
        r
    }

    /// Records the outcome of starting the service under `h`: `Started` on
    /// success, otherwise a runtime error with the reason. A failed critical
    /// service aborts startup; a failed optional one does not.
    pub fn record_start(&mut self, h: ServiceHandle, result: Result<(), String>) -> (r: StartStep)
        requires
            old(self).wf(),
            h < old(self).len(),
        ensures
            final(self).wf(),
            final(self).len() == old(self).len(),
            forall|j: int|
                0 <= j < old(self).len() && j != h ==> final(self).spec_services()[j] == old(
                    self,
                ).spec_services()[j],
            final(self).id_at(h as int) == old(self).id_at(h as int),
            final(self).priority_at(h as int) == old(self).priority_at(h as int),
            result is Ok ==> final(self).status_at(h as int) == Status::Started && r
                == StartStep::Continue,
            result is Err ==> final(self).status_at(h as int) == Status::RuntimeError(
                result->Err_0,
            ),
            result is Err && old(self).priority_at(h as int) == Priority::Critical ==> r
                == (StartStep::Abort { id: old(self).spec_services()[h as int].spec_info().id, reason: result->Err_0 }),
            result is Err && old(self).priority_at(h as int) == Priority::Optional ==> r
                == StartStep::Continue,
    {
        match result {
            Ok(()) => {
                self.update_status(h, Status::Started);
                StartStep::Continue
            },
            Err(reason) => {
                let id = self.services[h].info().id.clone();
                let critical = self.services[h].info().priority == Priority::Critical;
                self.update_status(h, Status::RuntimeError(reason.clone()));
                if critical {
                    StartStep::Abort { id, reason }
                } else {
                    StartStep::Continue
                }
            },
        }
    }

    /// Records the outcome of stopping the service under `h`: `Stopped` on
    /// success, otherwise a runtime error with the reason. Shutdown goes on
    /// either way.
    pub fn record_stop(&mut self, h: ServiceHandle, result: Result<(), String>)
        requires
            old(self).wf(),
            h < old(self).len(),
        ensures
            final(self).wf(),
            final(self).len() == old(self).len(),
            forall|j: int|
                0 <= j < old(self).len() && j != h ==> final(self).spec_services()[j] == old(
                    self,
                ).spec_services()[j],
            final(self).id_at(h as int) == old(self).id_at(h as int),
            final(self).priority_at(h as int) == old(self).priority_at(h as int),
            result is Ok ==> final(self).status_at(h as int) == Status::Stopped,
            result is Err ==> final(self).status_at(h as int) == Status::RuntimeError(
                result->Err_0,
            ),
    {
        match result {
            Ok(()) => self.update_status(h, Status::Stopped),
            Err(reason) => self.update_status(h, Status::RuntimeError(reason)),
        }
    }

    /// Handles of the services whose status is `Started`, in ascending order:
    /// the ones that shutdown stops.
    pub fn started_handles(&self) -> (r: Vec<ServiceHandle>)
        ensures
            forall|k: int| 0 <= k < r@.len() ==> r@[k] < self.len() && self.status_at(r@[k] as int) is Started,
            forall|a: int, b: int| 0 <= a < b < r@.len() ==> r@[a] < r@[b],
            forall|h: int|
                0 <= h < self.len() && self.status_at(h) is Started ==> #[trigger] r@.contains(h as usize),
    {
        let n = self.services.len();
        let mut r: Vec<ServiceHandle> = Vec::new();
        let mut i: usize = 0;
        while i < n
            invariant
                n == self.len(),
                0 <= i <= n,
                forall|k: int| 0 <= k < r@.len() ==> r@[k] < i && self.status_at(r@[k] as int) is Started,
                forall|a: int, b: int| 0 <= a < b < r@.len() ==> r@[a] < r@[b],
                forall|h: int|
                    0 <= h < i && self.status_at(h) is Started ==> #[trigger] r@.contains(h as usize),
            decreases n - i,
        {
            if self.services[i].info().status.is_started() {
                let ghost prev = r@;
                r.push(i);
                assert forall|h: int|
                    0 <= h < i + 1 && self.status_at(h) is Started implies #[trigger] r@.contains(h as usize) by {
                    if h < i {
                        assert(prev.contains(h as usize));
                        let k = choose|k: int| 0 <= k < prev.len() && prev[k] == h;
                        assert(r@[k] == h);
                    } else {
                        assert(r@[prev.len() as int] == h);
                    }
                }
            } else {
                assert forall|h: int|
                    0 <= h < i + 1 && self.status_at(h) is Started implies #[trigger] r@.contains(h as usize) by {
                    if h == i {
                        assert(!(self.status_at(h) is Started));
                    }
                }
            }
            i = i + 1;
        }
        r
    }

    /// Replaces the status of the service under `h`, as the watchdog does when
    /// a background task ends.
    pub fn update_status(&mut self, h: ServiceHandle, status: Status)
        requires
            old(self).wf(),
            h < old(self).len(),
        ensures
            final(self).wf(),
            final(self).len() == old(self).len(),
            forall|j: int|
                0 <= j < old(self).len() && j != h ==> final(self).spec_services()[j] == old(
                    self,
                ).spec_services()[j],
            final(self).id_at(h as int) == old(self).id_at(h as int),
            final(self).priority_at(h as int) == old(self).priority_at(h as int),
            final(self).status_at(h as int) == status,
    {
        let mut s = self.services.remove(h);
        s.set_status(status);
        self.services.insert(h, s);
        assert forall|a: int, b: int|
            0 <= a < self.len() && 0 <= b < self.len() && a != b implies self.id_at(a)
            != self.id_at(b) by {
            assert(self.id_at(a) == old(self).id_at(a));
            assert(self.id_at(b) == old(self).id_at(b));
        }
    }
}

} // verus!
