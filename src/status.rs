use vstd::prelude::*;
use vstd::string::*;

verus! {

/// Health state of a service.
#[derive(Debug, Clone, PartialEq, Eq)]
pub enum Status {
    NotStarted,
    Starting,
    Started,
    Stopping,
    Stopped,
    /// The service failed; the text says why. Stays until an outside restart.
    RuntimeError(String),
}

/// Ordering and failure severity of a service at startup.
#[derive(Debug, Clone, Copy, PartialEq, Eq, Structural)]
pub enum Priority {
    /// Its failure to start aborts the whole startup.
    Critical,
    /// Its failure to start is recorded and startup goes on.
    Optional,
}

/// The text that describes a status.
pub open spec fn status_text(s: Status) -> Seq<char> {
    match s {
        Status::NotStarted => "Not started"@,
        Status::Starting => "Starting"@,
        Status::Started => "Started"@,
        Status::Stopping => "Stopping"@,
        Status::Stopped => "Stopped"@,
        Status::RuntimeError(reason) => "Runtime error: "@ + reason@,
    }
}

/// The transitions of the lifecycle: forward along
/// `NotStarted → Starting → Started → Stopping → Stopped`, or from an active
/// state into a runtime error.
pub open spec fn can_transition(from: Status, to: Status) -> bool {
    match (from, to) {
        (Status::NotStarted, Status::Starting) => true,
        (Status::Starting, Status::Started) => true,
        (Status::Started, Status::Stopping) => true,
        (Status::Stopping, Status::Stopped) => true,
        (Status::Starting, Status::RuntimeError(_)) => true,
        (Status::Started, Status::RuntimeError(_)) => true,
        (Status::Stopping, Status::RuntimeError(_)) => true,
        _ => false,
    }
}

impl Status {
    /// Whether this is a runtime error.
    pub fn is_runtime_error(&self) -> (r: bool)
        ensures
            r == self is RuntimeError,
    {
        match self {
            Status::RuntimeError(_) => true,
            _ => false,
        }
    }

    /// Whether the service is running.
    pub fn is_started(&self) -> (r: bool)
        ensures
            r == self is Started,
    {
        match self {
            Status::Started => true,
            _ => false,
        }
    }

    /// The text that describes this status.
    pub fn describe(&self) -> (r: String)
        ensures
            r@ == status_text(*self),
    {
        match self {
            Status::NotStarted => {
                proof { reveal_strlit("Not started"); }
                String::from_str("Not started")
            },
            Status::Starting => {
                proof { reveal_strlit("Starting"); }
                String::from_str("Starting")
            },
            Status::Started => {
                proof { reveal_strlit("Started"); }
                String::from_str("Started")
            },
            Status::Stopping => {
                proof { reveal_strlit("Stopping"); }
                String::from_str("Stopping")
            },
            Status::Stopped => {
                proof { reveal_strlit("Stopped"); }
                String::from_str("Stopped")
            },
            Status::RuntimeError(reason) => {
                proof { reveal_strlit("Runtime error: "); }
                let mut r = String::from_str("Runtime error: ");
                r.append(reason.as_str());
                r
            },
        }
    }
}

/// Identity, priority and health of a service. Only the status changes after
/// construction.
pub struct ServiceInfo {
    pub id: String,
    pub name: String,
    pub priority: Priority,
    pub status: Status,
}

impl ServiceInfo {
    /// A service that has not been started.
    pub fn new(id: &str, name: &str, priority: Priority) -> (r: ServiceInfo)
        ensures
            r.id@ == id@,
            r.name@ == name@,
            r.priority == priority,
            r.status == Status::NotStarted,
    {
        ServiceInfo {
            id: String::from_str(id),
            name: String::from_str(name),
            priority,
            status: Status::NotStarted,
        }
    }

    /// Moves the status to `to` if the lifecycle allows it; reports whether
    /// it did.
    pub fn transition(&mut self, to: Status) -> (r: bool)
        ensures
            r == can_transition(old(self).status, to),
            final(self).status == (if r { to } else { old(self).status }),
            final(self).id == old(self).id,
            final(self).name == old(self).name,
            final(self).priority == old(self).priority,
    {
        let ok = match (&self.status, &to) {
            (Status::NotStarted, Status::Starting) => true,
            (Status::Starting, Status::Started) => true,
            (Status::Started, Status::Stopping) => true,
            (Status::Stopping, Status::Stopped) => true,
            (Status::Starting, Status::RuntimeError(_)) => true,
            (Status::Started, Status::RuntimeError(_)) => true,
            (Status::Stopping, Status::RuntimeError(_)) => true,
            _ => false,
        };
        if ok {
            self.status = to;
        }
        ok
    }
}

} // verus!
