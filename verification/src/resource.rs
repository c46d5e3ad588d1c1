//! The request protocol that power and security drivers speak with the
//! kernel's resource manager: acquire the resource, write a command,
//! optionally read back a one-byte status, release the resource (also when
//! the driver has no command for the request). The
//! decisions are a state machine; the platform layer performs each system
//! call it asks for and feeds back the raw return value.
use vstd::prelude::*;

verus! {

/// System call number: acquire a resource by name.
pub const SYSCALL_RESOURCE_ACQUIRE: u64 = 5;
/// System call number: read from a resource.
pub const SYSCALL_RESOURCE_READ: u64 = 6;
/// System call number: write to a resource.
pub const SYSCALL_RESOURCE_WRITE: u64 = 7;
/// System call number: release a resource.
pub const SYSCALL_RESOURCE_RELEASE: u64 = 8;

/// The kernel resources the drivers use.
#[derive(Debug, Copy, Clone, PartialEq, Eq, Structural)]
pub enum ResourceName {
    /// `karnal://power`
    Power,
    /// `karnal://security`
    Security,
}

impl ResourceName {
    /// The resource's name in the kernel namespace.
    pub fn path(&self) -> (r: &'static str)
        ensures
            *self == ResourceName::Power ==> r == "karnal://power",
            *self == ResourceName::Security ==> r == "karnal://security",
    {
        match self {
            ResourceName::Power => "karnal://power",
            ResourceName::Security => "karnal://security",
        }
    }
}

/// How a request ends.
#[derive(Debug, Copy, Clone, PartialEq, Eq, Structural)]
pub enum SessionOutcome {
    /// The command was written.
    Done,
    /// The status byte read back: non-zero means enabled.
    Status(bool),
    /// The driver has no command for the request.
    NotSupported,
    /// A system call returned an error.
    Failed,
}

/// The next thing the platform layer must do for a request.
#[derive(Debug, Copy, Clone)]
pub enum ResourceCall {
    /// Acquire `resource` with `mode`.
    Acquire { resource: ResourceName, mode: u32 },
    /// Write the bytes of `command` to `handle`.
    Write { handle: u64, command: &'static str },
    /// Read one status byte from `handle`.
    ReadStatus { handle: u64 },
    /// Release `handle`.
    Release { handle: u64 },
    /// The request is over.
    Finish(SessionOutcome),
}

/// What the platform layer reports back.
#[derive(Debug, Copy, Clone, PartialEq, Eq, Structural)]
pub enum SessionEvent {
    /// Begin the request.
    Start,
    /// The raw return value of the last acquire, write or release.
    Returned(i64),
    /// The raw return value of the status read and the byte read.
    StatusRead(i64, u8),
}

/// Where a request stands.
#[derive(Debug, Copy, Clone, PartialEq, Eq, Structural)]
pub enum SessionPhase {
    /// Not started.
    Idle,
    /// Waiting for the acquire to return.
    Acquiring,
    /// Waiting for the command write to return.
    Writing,
    /// Waiting for the status read to return.
    Reading,
    /// Waiting for the release to return.
    Releasing,
    /// Over.
    Finished,
}

/// One request to a resource.
#[derive(Debug, Copy, Clone)]
pub struct ResourceSession {
    /// The resource spoken to.
    pub resource: ResourceName,
    /// The command to write; `None` when the driver has none for the request.
    pub command: Option<&'static str>,
    /// Whether a status byte is read back after the command.
    pub query: bool,
    /// The step the request has reached.
    pub phase: SessionPhase,
    /// The handle the acquire returned.
    pub handle: u64,
    /// How the request ends once the resource is released.
    pub pending: SessionOutcome,
}

/// The session state and call after one step.
pub open spec fn step_spec(s: ResourceSession, event: SessionEvent) -> (ResourceSession, ResourceCall) {
    match (s.phase, event) {
        (SessionPhase::Idle, SessionEvent::Start) => (
            ResourceSession { phase: SessionPhase::Acquiring, ..s },
            ResourceCall::Acquire { resource: s.resource, mode: 0 },
        ),
        (SessionPhase::Acquiring, SessionEvent::Returned(ret)) => if ret < 0 {
            (ResourceSession { phase: SessionPhase::Finished, pending: SessionOutcome::Failed, ..s },
                ResourceCall::Finish(SessionOutcome::Failed))
        } else {
            match s.command {
                None => (ResourceSession { phase: SessionPhase::Releasing, handle: ret as u64,
                        pending: SessionOutcome::NotSupported, ..s },
                    ResourceCall::Release { handle: ret as u64 }),
                Some(c) => (ResourceSession { phase: SessionPhase::Writing, handle: ret as u64, ..s },
                    ResourceCall::Write { handle: ret as u64, command: c }),
            }
        },
        (SessionPhase::Writing, SessionEvent::Returned(ret)) => if s.query {
            (ResourceSession { phase: SessionPhase::Reading, ..s }, ResourceCall::ReadStatus { handle: s.handle })
        } else {
            let pending = if ret < 0 { SessionOutcome::Failed } else { SessionOutcome::Done };
            (ResourceSession { phase: SessionPhase::Releasing, pending, ..s }, ResourceCall::Release { handle: s.handle })
        },
        (SessionPhase::Reading, SessionEvent::StatusRead(ret, byte)) => {
            let pending = if ret == 1 { SessionOutcome::Status(byte != 0) } else { SessionOutcome::Failed };
            (ResourceSession { phase: SessionPhase::Releasing, pending, ..s }, ResourceCall::Release { handle: s.handle })
        },
        (SessionPhase::Releasing, SessionEvent::Returned(_)) => (
            ResourceSession { phase: SessionPhase::Finished, ..s },
            ResourceCall::Finish(s.pending),
        ),
        _ => (ResourceSession { phase: SessionPhase::Finished, pending: SessionOutcome::Failed, ..s },
            ResourceCall::Finish(SessionOutcome::Failed)),
    }
}

/// How a request ends when the acquire returns `acquire_ret`, the write
/// `write_ret` and the status read `read_ret` with byte `byte`.
pub open spec fn request_outcome(command: Option<&'static str>, query: bool, acquire_ret: i64, write_ret: i64,
    read_ret: i64, byte: u8) -> SessionOutcome {
    if acquire_ret < 0 {
        SessionOutcome::Failed
    } else if command is None {
        SessionOutcome::NotSupported
    } else if query {
        if read_ret == 1 { SessionOutcome::Status(byte != 0) } else { SessionOutcome::Failed }
    } else if write_ret < 0 {
        SessionOutcome::Failed
    } else {
        SessionOutcome::Done
    }
}

/// A request that has not started yet.
pub open spec fn fresh_session(resource: ResourceName, command: Option<&'static str>, query: bool) -> ResourceSession {
    ResourceSession {
        resource,
        command,
        query,
        phase: SessionPhase::Idle,
        handle: 0,
        pending: SessionOutcome::Failed,
    }
}

impl ResourceSession {
    /// A request that writes `command` (when there is one) to `resource`.
    pub fn command(resource: ResourceName, command: Option<&'static str>) -> (r: Self)
        ensures
            r == fresh_session(resource, command, false),
    {
        ResourceSession { resource, command, query: false, phase: SessionPhase::Idle, handle: 0, pending: SessionOutcome::Failed }
    }

    /// A request that writes `command` to `resource` and reads back a
    /// status byte.
    pub fn query(resource: ResourceName, command: &'static str) -> (r: Self)
        ensures
            r == fresh_session(resource, Some(command), true),
    {
        ResourceSession { resource, command: Some(command), query: true, phase: SessionPhase::Idle, handle: 0, pending: SessionOutcome::Failed }
    }

    /// Advances the request by one event and says what to do next. Events
    /// that do not fit the current phase end the request as `Failed`.
    pub fn step(&mut self, event: SessionEvent) -> (r: ResourceCall)
        ensures
            (*final(self), r) == step_spec(*old(self), event),
    {
        match (self.phase, event) {
            (SessionPhase::Idle, SessionEvent::Start) => {
                self.phase = SessionPhase::Acquiring;
                ResourceCall::Acquire { resource: self.resource, mode: 0 }
            },
            (SessionPhase::Acquiring, SessionEvent::Returned(ret)) => {
                if ret < 0 {
                    self.phase = SessionPhase::Finished;
                    self.pending = SessionOutcome::Failed;
                    ResourceCall::Finish(SessionOutcome::Failed)
                } else {
                    self.handle = ret as u64;
                    match self.command {
                        None => {
                            self.phase = SessionPhase::Releasing;
                            self.pending = SessionOutcome::NotSupported;
                            ResourceCall::Release { handle: ret as u64 }
                        },
                        Some(c) => {
                            self.phase = SessionPhase::Writing;
                            ResourceCall::Write { handle: ret as u64, command: c }
                        },
                    }
                }
            },
            (SessionPhase::Writing, SessionEvent::Returned(ret)) => {
                if self.query {
                    self.phase = SessionPhase::Reading;
                    ResourceCall::ReadStatus { handle: self.handle }
                } else {
                    self.pending = if ret < 0 { SessionOutcome::Failed } else { SessionOutcome::Done };
                    self.phase = SessionPhase::Releasing;
                    ResourceCall::Release { handle: self.handle }
                }
            },
            (SessionPhase::Reading, SessionEvent::StatusRead(ret, byte)) => {
                self.pending = if ret == 1 { SessionOutcome::Status(byte != 0) } else { SessionOutcome::Failed };
                self.phase = SessionPhase::Releasing;
                ResourceCall::Release { handle: self.handle }
            },
            (SessionPhase::Releasing, SessionEvent::Returned(_)) => {
                self.phase = SessionPhase::Finished;
                ResourceCall::Finish(self.pending)
            },
            _ => {
                self.phase = SessionPhase::Finished;
                self.pending = SessionOutcome::Failed;
                ResourceCall::Finish(SessionOutcome::Failed)
            },
        }
    }
}

/// Driving a fresh request with the replies of the kernel visits the calls
/// in protocol order: acquire; then, when the acquire succeeded and there is
/// a command, write, read the status for a query, and release; and the
/// request finishes with `request_outcome` of those replies. When there is
/// no command, the acquired handle is released at once; when the acquire
/// fails, nothing is released.
pub proof fn lemma_request_protocol(s0: ResourceSession, acquire_ret: i64, write_ret: i64, release_ret: i64,
    read_ret: i64, byte: u8)
    requires
        s0.phase == SessionPhase::Idle,
    ensures
        ({
            let (s1, c1) = step_spec(s0, SessionEvent::Start);
            let (s2, c2) = step_spec(s1, SessionEvent::Returned(acquire_ret));
            let out = request_outcome(s0.command, s0.query, acquire_ret, write_ret, read_ret, byte);
            &&& c1 == ResourceCall::Acquire { resource: s0.resource, mode: 0 }
            &&& acquire_ret < 0 ==> c2 == ResourceCall::Finish(out)
            &&& (acquire_ret >= 0 && s0.command is None) ==> {
                let (s3, c3) = step_spec(s2, SessionEvent::Returned(release_ret));
                &&& c2 == ResourceCall::Release { handle: acquire_ret as u64 }
                &&& c3 == ResourceCall::Finish(out)
            }
            &&& (acquire_ret >= 0 && s0.command is Some) ==> {
                let h = acquire_ret as u64;
                let (s3, c3) = step_spec(s2, SessionEvent::Returned(write_ret));
                &&& c2 == ResourceCall::Write { handle: h, command: s0.command->Some_0 }
                &&& !s0.query ==> {
                    let (s4, c4) = step_spec(s3, SessionEvent::Returned(release_ret));
                    &&& c3 == ResourceCall::Release { handle: h }
                    &&& c4 == ResourceCall::Finish(out)
                }
                &&& s0.query ==> {
                    let (s4, c4) = step_spec(s3, SessionEvent::StatusRead(read_ret, byte));
                    let (s5, c5) = step_spec(s4, SessionEvent::Returned(release_ret));
                    &&& c3 == ResourceCall::ReadStatus { handle: h }
                    &&& c4 == ResourceCall::Release { handle: h }
                    &&& c5 == ResourceCall::Finish(out)
                }
            }
        }),
{
}

} // verus!
