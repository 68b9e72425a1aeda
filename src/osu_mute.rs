use std::collections::HashMap;
use std::sync::Arc;
use tokio::sync::Notify;
use tokio::task::JoinHandle;
use vstd::prelude::*;
use vstd::string::*;
use crate::manager::{Service, ServiceHandle};
use crate::set_lock::{SetLock, SetLockError};
use crate::status::{status_text, Priority, ServiceInfo, Status};

verus! {

broadcast use vstd::std_specs::hash::group_hash_axioms;

/// tokio's handle to a spawned task, carried opaquely in the task cell.
#[verifier::external_type_specification]
#[verifier::external_body]
#[verifier::reject_recursive_types(T)]
pub struct ExJoinHandle<T>(JoinHandle<T>);

/// Declared because the awaited result of a `JoinHandle` names it.
#[verifier::external_type_specification]
#[verifier::external_body]
pub struct ExJoinError(tokio::task::JoinError);

/// tokio's wake signal, carried opaquely in the signal cell.
#[verifier::external_type_specification]
#[verifier::external_body]
pub struct ExNotify(Notify);

/// Relies on tokio's `Notify::new`: a fresh wake signal, shared so that the
/// loop can wait on it without holding the service.
#[verifier::external_body]
fn new_notify() -> Arc<Notify> {
    Arc::new(Notify::new())
}

/// The loop's wake signal, with the number of wakes delivered to it.
pub struct WakeSignal {
    notify: Arc<Notify>,
    sent: Ghost<nat>,
}

impl WakeSignal {
    /// Number of wakes delivered so far.
    pub closed spec fn wakes_sent(&self) -> nat {
        self.sent@
    }

    fn new() -> (r: WakeSignal)
        ensures
            r.wakes_sent() == 0,
    {
        WakeSignal { notify: new_notify(), sent: Ghost(0) }
    }
}

/// Relies on tokio's `Notify::notify_one`: wakes the waiting loop, or stores
/// a permit so that its next wait returns at once; either way one wake is
/// delivered.
#[verifier::external_body]
fn wake(signal: &mut WakeSignal)
    ensures
        final(signal).wakes_sent() == old(signal).wakes_sent() + 1,
{
    signal.notify.notify_one()
}

/// The handle of the spawned background task, and whether it has been asked
/// to abort.
pub struct TaskHandle {
    handle: JoinHandle<()>,
    aborted: Ghost<bool>,
}

impl TaskHandle {
    pub closed spec fn spec_handle(&self) -> JoinHandle<()> {
        self.handle
    }

    /// Whether the task has been asked to abort.
    pub closed spec fn is_aborted(&self) -> bool {
        self.aborted@
    }

    fn new(handle: JoinHandle<()>) -> (r: TaskHandle)
        ensures
            r.spec_handle() == handle,
            !r.is_aborted(),
    {
        TaskHandle { handle, aborted: Ghost(false) }
    }
}

/// Relies on tokio's `JoinHandle::abort`: asks the runtime to cancel the task.
#[verifier::external_body]
fn abort_task(task: &mut TaskHandle)
    ensures
        final(task).is_aborted(),
        final(task).spec_handle() == old(task).spec_handle(),
{
    task.handle.abort()
}

fn concat(a: &str, b: &str) -> (r: String)
    ensures
        r@ == a@ + b@,
{
    let mut r = String::from_str(a);
    r.append(b);
    r
}

/// Error texts of `start` and `attach_task`.
pub open spec fn not_found_text() -> Seq<char> {
    "DiscordService not found!"@
}

pub open spec fn not_available_text() -> Seq<char> {
    "DiscordService is not available!"@
}

pub open spec fn discord_cell_text() -> Seq<char> {
    "Error setting DiscordService SetLock: "@
}

pub open spec fn notify_cell_text() -> Seq<char> {
    "Error setting Notify SetLock: "@
}

pub open spec fn task_cell_text() -> Seq<char> {
    "Error setting Watchdog JoinHandle SetLock: "@
}

/// Why the background task ended with an error.
#[derive(Debug, Clone, PartialEq, Eq)]
pub enum TaskError {
    /// The service that owns the task could not be found.
    DiscordServiceNotFound,
    /// The chat client was not running; holds the text of its status.
    DiscordServiceNotAvailable(String),
}

pub open spec fn task_error_text(e: TaskError) -> Seq<char> {
    match e {
        TaskError::DiscordServiceNotFound => "Discord service not found!"@,
        TaskError::DiscordServiceNotAvailable(status) =>
            "Discord service expected to be available, but it was "@ + status@,
    }
}

impl TaskError {
    /// Human-readable description of the error.
    pub fn describe(&self) -> (r: String)
        ensures
            r@ == task_error_text(*self),
    {
        match self {
            TaskError::DiscordServiceNotFound => {
                proof { reveal_strlit("Discord service not found!"); }
                String::from_str("Discord service not found!")
            },
            TaskError::DiscordServiceNotAvailable(status) => concat(
                "Discord service expected to be available, but it was ",
                status.as_str(),
            ),
        }
    }
}

/// How the background task ended, as its supervisor saw it.
#[derive(Debug, Clone, PartialEq, Eq)]
pub enum TaskOutcome {
    /// It returned without an error; it was meant to run for ever.
    Finished,
    /// It returned an error.
    Failed(TaskError),
    /// It panicked or was cancelled.
    Terminated,
}

/// The reason the watchdog records for an outcome.
pub open spec fn watchdog_reason(outcome: TaskOutcome) -> Seq<char> {
    match outcome {
        TaskOutcome::Finished => "The background task has stopped unexpectedly."@,
        TaskOutcome::Failed(e) => "The background task has encountered an error: "@
            + task_error_text(e),
        TaskOutcome::Terminated => "The background task has terminated abnormally."@,
    }
}

/// The status the watchdog records for an outcome: always a runtime error,
/// since any end of the background task is a fault.
pub fn watchdog_status(outcome: &TaskOutcome) -> (r: Status)
    ensures
        r is RuntimeError,
        r->RuntimeError_0@ == watchdog_reason(*outcome),
{
    let reason = match outcome {
        TaskOutcome::Finished => {
            proof { reveal_strlit("The background task has stopped unexpectedly."); }
            String::from_str("The background task has stopped unexpectedly.")
        },
        TaskOutcome::Failed(e) => {
            let text = e.describe();
            concat("The background task has encountered an error: ", text.as_str())
        },
        TaskOutcome::Terminated => {
            proof { reveal_strlit("The background task has terminated abnormally."); }
            String::from_str("The background task has terminated abnormally.")
        },
    };
    Status::RuntimeError(reason)
}

/// What the background loop does next.
#[derive(Debug, Clone, PartialEq, Eq)]
pub enum TaskStep {
    /// No work is pending: sleep until woken, then decide again.
    Wait,
    /// Do one round of work, then decide again.
    Tick,
    /// End the task with this error.
    Fail(TaskError),
}

/// One decision of the background loop, from the number of pending work items and
/// the chat client's current status.
pub fn task_step(pending: usize, discord_status: &Status) -> (r: TaskStep)
    ensures
        pending == 0 ==> r == TaskStep::Wait,
        pending > 0 && discord_status is Started ==> r == TaskStep::Tick,
        pending > 0 && !(discord_status is Started) ==> (r matches TaskStep::Fail(
            TaskError::DiscordServiceNotAvailable(s),
        ) && s@ == status_text(*discord_status)),
{
    if pending == 0 {
        TaskStep::Wait
    } else if discord_status.is_started() {
        TaskStep::Tick
    } else {
        TaskStep::Fail(TaskError::DiscordServiceNotAvailable(discord_status.describe()))
    }
}

/// A dependency found through the manager, with its availability at the time
/// of the lookup.
#[derive(Debug, Clone, Copy, PartialEq, Eq, Structural)]
pub struct Dependency {
    pub handle: ServiceHandle,
    pub available: bool,
}

/// The service that keeps users muted per channel, driven by a supervised
/// background loop that depends on the chat client service.
pub struct OsuMuteService {
    info: ServiceInfo,
    discord_service: SetLock<ServiceHandle>,
    task_notify: Option<WakeSignal>,
    task: Option<TaskHandle>,
    muted_users: HashMap<u64, u64>,
}

impl OsuMuteService {
    /// Handle of the chat client, once `start` has stored it.
    pub closed spec fn discord_handle(&self) -> Option<ServiceHandle> {
        self.discord_service@
    }

    /// Whether the wake signal has been created.
    pub closed spec fn has_notify(&self) -> bool {
        self.task_notify is Some
    }

    /// Wakes delivered to the background loop so far.
    pub closed spec fn wakes(&self) -> nat {
        match self.task_notify {
            Some(w) => w.wakes_sent(),
            None => 0,
        }
    }

    /// The stored background task handle, if any.
    pub closed spec fn stored_task(&self) -> Option<JoinHandle<()>> {
        match self.task {
            Some(t) => Some(t.spec_handle()),
            None => None,
        }
    }

    /// Whether the stored background task has been asked to abort.
    pub closed spec fn task_aborted(&self) -> bool {
        match self.task {
            Some(t) => t.is_aborted(),
            None => false,
        }
    }

    /// Whether a background task handle has been stored.
    pub closed spec fn has_task(&self) -> bool {
        self.task is Some
    }

    /// Muted users by channel id.
    pub closed spec fn muted(&self) -> Map<u64, u64> {
        self.muted_users@
    }

    /// A service that has not been started, with nothing muted.
    pub fn new() -> (r: Self)
        ensures
            r.spec_info().id@ == "lum_builtin_osu_mute"@,
            r.spec_info().name@ == "osu! Mute"@,
            r.spec_info().priority == Priority::Optional,
            r.spec_info().status == Status::NotStarted,
            r.discord_handle() is None,
            !r.has_notify(),
            !r.has_task(),
            r.wakes() == 0,
            r.muted().is_empty(),
    {
        OsuMuteService {
            info: ServiceInfo::new("lum_builtin_osu_mute", "osu! Mute", Priority::Optional),
            discord_service: SetLock::new(),
            task_notify: None,
            task: None,
            muted_users: HashMap::new(),
        }
    }

    /// Resolves the chat client dependency and prepares the wake signal.
    /// Fails, spawning nothing, when the dependency is missing or unavailable
    /// or a cell was already written. On success the caller spawns the
    /// background task and hands its handle to `attach_task`.
    pub fn start(&mut self, discord: Option<Dependency>) -> (r: Result<(), String>)
        ensures
            final(self).spec_info() == old(self).spec_info(),
            final(self).muted() == old(self).muted(),
            final(self).stored_task() == old(self).stored_task(),
            final(self).task_aborted() == old(self).task_aborted(),
            final(self).has_task() == old(self).has_task(),
            final(self).wakes() == old(self).wakes(),
            discord is None ==> r is Err && r->Err_0@ == not_found_text(),
            discord is Some && !discord->0.available ==> r is Err && r->Err_0@
                == not_available_text(),
            discord is Some && discord->0.available && old(self).discord_handle() is Some ==> r is Err
                && r->Err_0@ == discord_cell_text() + SetLockError::AlreadySet.text(),
            discord is Some && discord->0.available && old(self).discord_handle() is None
                && old(self).has_notify() ==> r is Err && r->Err_0@ == notify_cell_text()
                + SetLockError::AlreadySet.text(),
            discord is Some && discord->0.available && old(self).discord_handle() is None
                && !old(self).has_notify() ==> r is Ok,
            r is Err ==> final(self).has_notify() == old(self).has_notify(),
            r is Err && !(discord is Some && discord->0.available && old(self).discord_handle() is None)
                ==> final(self).discord_handle() == old(self).discord_handle(),
            discord is Some && discord->0.available && old(self).discord_handle() is None
                ==> final(self).discord_handle() == Some(discord->0.handle),
            r is Ok ==> final(self).has_notify(),
    {
        let dependency = match discord {
            Some(d) => d,
            None => {
                proof { reveal_strlit("DiscordService not found!"); }
                return Err(String::from_str("DiscordService not found!"));
            },
        };
        if !dependency.available {
            proof { reveal_strlit("DiscordService is not available!"); }
            return Err(String::from_str("DiscordService is not available!"));
        }
        if let Err(e) = self.discord_service.set(dependency.handle) {
            let text = e.describe();
            return Err(concat("Error setting DiscordService SetLock: ", text.as_str()));
        }
        if self.task_notify.is_some() {
            let text = SetLockError::AlreadySet.describe();
            return Err(concat("Error setting Notify SetLock: ", text.as_str()));
        }
        self.task_notify = Some(WakeSignal::new());
        Ok(())
    }

    /// Stores the handle of the spawned, supervised background task.
    pub fn attach_task(&mut self, handle: JoinHandle<()>) -> (r: Result<(), String>)
        ensures
            final(self).spec_info() == old(self).spec_info(),
            final(self).muted() == old(self).muted(),
            final(self).discord_handle() == old(self).discord_handle(),
            final(self).has_notify() == old(self).has_notify(),
            final(self).wakes() == old(self).wakes(),
            final(self).has_task(),
            !old(self).has_task() ==> r is Ok && final(self).stored_task() == Some(handle)
                && !final(self).task_aborted(),
            old(self).has_task() ==> r is Err && r->Err_0@ == task_cell_text()
                + SetLockError::AlreadySet.text() && final(self).stored_task() == old(
                self,
            ).stored_task() && final(self).task_aborted() == old(self).task_aborted(),
    {
        if self.task.is_some() {
            let text = SetLockError::AlreadySet.describe();
            return Err(concat("Error setting Watchdog JoinHandle SetLock: ", text.as_str()));
        }
        self.task = Some(TaskHandle::new(handle));
        Ok(())
    }

    /// Cancels the background task. Only meaningful after a successful start.
    pub fn stop(&mut self) -> (r: Result<(), String>)
        requires
            old(self).has_task(),
        ensures
            r is Ok,
            final(self).spec_info() == old(self).spec_info(),
            final(self).muted() == old(self).muted(),
            final(self).discord_handle() == old(self).discord_handle(),
            final(self).has_notify() == old(self).has_notify(),
            final(self).wakes() == old(self).wakes(),
            final(self).stored_task() == old(self).stored_task(),
            final(self).task_aborted(),
    {
        match &mut self.task {
            Some(t) => abort_task(t),
            None => {},
        }
        Ok(())
    }

    /// Whether a background task handle has been stored.
    pub fn task_attached(&self) -> (r: bool)
        ensures
            r == self.has_task(),
    {
        self.task.is_some()
    }

    /// The stored background task handle, if any.
    pub fn task_handle(&self) -> (r: Option<&JoinHandle<()>>)
        ensures
            r is Some == self.has_task(),
            r is Some ==> self.stored_task() == Some(*r->0),
    {
        match &self.task {
            Some(t) => Some(&t.handle),
            None => None,
        }
    }

    /// Handle of the chat client service, once started.
    pub fn discord_service(&self) -> (r: Option<ServiceHandle>)
        ensures
            r == self.discord_handle(),
    {
        match self.discord_service.get() {
            Ok(h) => Some(*h),
            Err(_) => None,
        }
    }

    /// The wake signal the background loop waits on, once started.
    pub fn task_notify(&self) -> (r: Option<&Arc<Notify>>)
        ensures
            r is Some == self.has_notify(),
    {
        match &self.task_notify {
            Some(w) => Some(&w.notify),
            None => None,
        }
    }

    /// Mutes `user` in `channel` and wakes the background loop; returns the
    /// user muted there before, if any.
    pub fn mute(&mut self, channel: u64, user: u64) -> (r: Option<u64>)
        ensures
            final(self).muted() == old(self).muted().insert(channel, user),
            r == (if old(self).muted().contains_key(channel) {
                Some(old(self).muted()[channel])
            } else {
                None::<u64>
            }),
            final(self).spec_info() == old(self).spec_info(),
            final(self).discord_handle() == old(self).discord_handle(),
            final(self).has_notify() == old(self).has_notify(),
            final(self).has_task() == old(self).has_task(),
            final(self).stored_task() == old(self).stored_task(),
            final(self).task_aborted() == old(self).task_aborted(),
            old(self).has_notify() ==> final(self).wakes() == old(self).wakes() + 1,
            !old(self).has_notify() ==> final(self).wakes() == old(self).wakes(),
    {
        let previous = self.muted_users.insert(channel, user);
        match &mut self.task_notify {
            Some(w) => wake(w),
            None => {},
        }
        previous
    }

    /// Unmutes whoever is muted in `channel`; returns that user, if any.
    pub fn unmute(&mut self, channel: u64) -> (r: Option<u64>)
        ensures
            final(self).muted() == old(self).muted().remove(channel),
            r == (if old(self).muted().contains_key(channel) {
                Some(old(self).muted()[channel])
            } else {
                None::<u64>
            }),
            final(self).spec_info() == old(self).spec_info(),
            final(self).discord_handle() == old(self).discord_handle(),
            final(self).has_notify() == old(self).has_notify(),
            final(self).has_task() == old(self).has_task(),
            final(self).stored_task() == old(self).stored_task(),
            final(self).task_aborted() == old(self).task_aborted(),
            final(self).wakes() == old(self).wakes(),
    {
        self.muted_users.remove(&channel)
    }

    /// The user muted in `channel`, if any.
    pub fn muted_user(&self, channel: u64) -> (r: Option<u64>)
        ensures
            r == (if self.muted().contains_key(channel) {
                Some(self.muted()[channel])
            } else {
                None::<u64>
            }),
    {
        match self.muted_users.get(&channel) {
            Some(u) => Some(*u),
            None => None,
        }
    }

    /// Number of channels with a muted user: the loop's pending work.
    pub fn pending(&self) -> (r: usize)
        ensures
            r == self.muted().len(),
    {
        self.muted_users.len()
    }

    /// One decision of the background loop for this service.
    pub fn step(&self, discord_status: &Status) -> (r: TaskStep)
        ensures
            self.muted().is_empty() ==> r == TaskStep::Wait,
            !self.muted().is_empty() && discord_status is Started ==> r == TaskStep::Tick,
            !self.muted().is_empty() && !(discord_status is Started) ==> (r matches TaskStep::Fail(
                TaskError::DiscordServiceNotAvailable(s),
            ) && s@ == status_text(*discord_status)),
    {
        let n = self.pending();
        proof {
            if n == 0 {
                assert(self.muted() =~= Map::empty());
            } else {
                assert(self.muted().dom().len() > 0);
            }
        }
        task_step(n, discord_status)
    }

    /// Records how the background task ended as a runtime error and returns
    /// the log record that describes it.
    pub fn watchdog(&mut self, outcome: &TaskOutcome) -> (r: String)
        ensures
            final(self).spec_info().status is RuntimeError,
            final(self).spec_info().status->RuntimeError_0@ == watchdog_reason(*outcome),
            final(self).spec_info().id == old(self).spec_info().id,
            final(self).spec_info().name == old(self).spec_info().name,
            final(self).spec_info().priority == old(self).spec_info().priority,
            final(self).muted() == old(self).muted(),
            final(self).discord_handle() == old(self).discord_handle(),
            final(self).has_notify() == old(self).has_notify(),
            final(self).has_task() == old(self).has_task(),
            final(self).stored_task() == old(self).stored_task(),
            final(self).task_aborted() == old(self).task_aborted(),
            final(self).wakes() == old(self).wakes(),
            r@ == watchdog_record(old(self).spec_info().id@, final(self).spec_info().status),
    {
        let status = watchdog_status(outcome);
        let text = status.describe();
        self.info.status = status;
        let head = concat("Watchdog triggered for service ", self.info.id.as_str());
        let head = concat(head.as_str(), ". ");
        concat(head.as_str(), text.as_str())
    }
}

/// Muting a user on an idle service leaves exactly one item of pending work,
/// so the loop's next decision is no longer to wait.
pub proof fn lemma_first_mute_ends_idle(muted: Map<u64, u64>, channel: u64, user: u64)
    requires
        muted.is_empty(),
    ensures
        !muted.insert(channel, user).is_empty(),
        muted.insert(channel, user).len() == 1,
{
    assert(muted.dom() =~= Set::empty());
    assert(muted.insert(channel, user).dom() =~= Set::empty().insert(channel));
    assert(muted.insert(channel, user).dom().contains(channel));
}

/// The log record written when the watchdog fires for service `id`.
pub open spec fn watchdog_record(id: Seq<char>, status: Status) -> Seq<char> {
    "Watchdog triggered for service "@ + id + ". "@ + status_text(status)
}

impl Default for OsuMuteService {
    /// Same as [`OsuMuteService::new`].
    fn default() -> (r: Self)
        ensures
            r.spec_info().id@ == "lum_builtin_osu_mute"@,
            r.spec_info().name@ == "osu! Mute"@,
            r.spec_info().priority == Priority::Optional,
            r.spec_info().status == Status::NotStarted,
            r.discord_handle() is None,
            !r.has_notify(),
            !r.has_task(),
            r.wakes() == 0,
            r.muted().is_empty(),
    {
        Self::new()
    }
}

impl Service for OsuMuteService {
    closed spec fn spec_info(&self) -> ServiceInfo {
        self.info
    }

    fn info(&self) -> (r: &ServiceInfo) {
        &self.info
    }

    fn set_status(&mut self, status: Status) {
        self.info.status = status;
    }
}

} // verus!
