use vstd::prelude::*;
use vstd::string::*;

use crate::identifier::{generate, is_random_identifier};
use crate::oplog::OperationLog;
use crate::store::{ReadError, WriteError};

verus! {

/// Whether the process may mutate the protected configuration namespace,
/// sampled once when the session starts.
#[derive(Clone, Copy, Debug, PartialEq, Eq, Structural)]
pub enum Privilege {
    Denied,
    Granted,
}

/// Where the session stands.
#[derive(Clone, Copy, Debug, PartialEq, Eq, Structural)]
pub enum Phase {
    /// Privilege was granted; the current value has not been read yet.
    AwaitingRead,
    /// Privilege was denied; nothing more happens in this session.
    Denied,
    /// The initial read failed; the value is unknown but may be overwritten.
    ReadFailed,
    /// The current value is known.
    Ready,
}

/// The mathematical state of a session.
pub struct SessionView {
    pub privilege: Privilege,
    pub phase: Phase,
    pub identifier: Seq<char>,
    pub log: Seq<Seq<char>>,
    /// The identifier handed out for a write whose outcome is not yet known.
    pub pending: Option<Seq<char>>,
}

/// The identifier shown before the first read.
pub open spec fn pending_sentinel() -> Seq<char> {
    "PENDING_SCAN..."@
}

/// The identifier shown after a failed initial read.
pub open spec fn error_sentinel() -> Seq<char> {
    "ERROR"@
}

pub open spec fn granted_line() -> Seq<char> {
    "> ACCESS_LEVEL: ADMINISTRATOR [GRANTED]"@
}

pub open spec fn denied_line() -> Seq<char> {
    "> ACCESS_LEVEL: RESTRICTED [DENIED]"@
}

pub open spec fn elevation_line() -> Seq<char> {
    "> CRITICAL: ELEVATION REQUIRED"@
}

pub open spec fn read_ok_line() -> Seq<char> {
    "> TARGET_ACQUIRED: HKLM\\...\\MachineGuid"@
}

pub open spec fn read_err_line(e: ReadError) -> Seq<char> {
    "> READ_ERR: "@ + e.text()
}

pub open spec fn rotation_line() -> Seq<char> {
    "> INITIATING_RESET_SEQUENCE..."@
}

pub open spec fn write_ok_line(id: Seq<char>) -> Seq<char> {
    "> WRITE_SUCCESS: "@ + id
}

pub open spec fn refresh_line() -> Seq<char> {
    "> IDENTITY_REFRESH: COMPLETE"@
}

pub open spec fn write_err_line(e: WriteError) -> Seq<char> {
    "> WRITE_FAILURE: "@ + e.text()
}

pub open spec fn abort_line() -> Seq<char> {
    "> ABORTING OPERATION"@
}

/// The value of a read as the session sees it.
pub open spec fn read_outcome(r: Result<String, ReadError>) -> Result<Seq<char>, ReadError> {
    match r {
        Ok(v) => Ok(v@),
        Err(e) => Err(e),
    }
}

impl SessionView {
    /// The state right after the privilege probe answered `granted`.
    pub open spec fn initial(granted: bool) -> SessionView {
        if granted {
            SessionView {
                privilege: Privilege::Granted,
                phase: Phase::AwaitingRead,
                identifier: pending_sentinel(),
                log: seq![granted_line()],
                pending: None,
            }
        } else {
            SessionView {
                privilege: Privilege::Denied,
                phase: Phase::Denied,
                identifier: pending_sentinel(),
                log: seq![denied_line(), elevation_line()],
                pending: None,
            }
        }
    }

    pub open spec fn wf(self) -> bool {
        &&& (self.privilege == Privilege::Denied) == (self.phase == Phase::Denied)
        &&& self.pending is Some ==> {
            &&& self.phase == Phase::Ready || self.phase == Phase::ReadFailed
            &&& is_random_identifier(self.pending->0)
        }
    }

    /// The session wants the current value read from the store.
    pub open spec fn awaits_read(self) -> bool {
        self.phase == Phase::AwaitingRead
    }

    /// A rotation may start: privilege was granted, the initial read has
    /// answered, and no write is outstanding.
    pub open spec fn can_rotate(self) -> bool {
        &&& self.privilege == Privilege::Granted
        &&& self.phase == Phase::Ready || self.phase == Phase::ReadFailed
        &&& self.pending is None
    }

    /// The state after the initial read answered `r`.
    pub open spec fn read_applied(self, r: Result<Seq<char>, ReadError>) -> SessionView {
        if !self.awaits_read() {
            self
        } else {
            match r {
                Ok(v) => SessionView {
                    phase: Phase::Ready,
                    identifier: v,
                    log: self.log.push(read_ok_line()),
                    ..self
                },
                Err(e) => SessionView {
                    phase: Phase::ReadFailed,
                    identifier: error_sentinel(),
                    log: self.log.push(read_err_line(e)),
                    ..self
                },
            }
        }
    }

    /// The state after a rotation started with the fresh identifier `id`.
    pub open spec fn rotation_requested(self, id: Seq<char>) -> SessionView {
        if !self.can_rotate() {
            self
        } else {
            SessionView { log: self.log.push(rotation_line()), pending: Some(id), ..self }
        }
    }

    /// The state after the write of the pending identifier answered `w`.
    pub open spec fn rotation_completed(self, w: Result<(), WriteError>) -> SessionView {
        match self.pending {
            None => self,
            Some(id) => match w {
                Ok(_) => SessionView {
                    phase: Phase::Ready,
                    identifier: id,
                    log: self.log.push(write_ok_line(id)).push(refresh_line()),
                    pending: None,
                    ..self
                },
                Err(e) => SessionView {
                    log: self.log.push(write_err_line(e)).push(abort_line()),
                    pending: None,
                    ..self
                },
            },
        }
    }
}

/// The session's single state machine. The caller probes privileges, reads and
/// writes the store, and reports each outcome; the controller decides what
/// happens next and records every step in its log.
pub struct SessionController {
    privilege: Privilege,
    phase: Phase,
    identifier: String,
    log: OperationLog,
    pending: Option<String>,
}

impl View for SessionController {
    type V = SessionView;

    closed spec fn view(&self) -> SessionView {
        SessionView {
            privilege: self.privilege,
            phase: self.phase,
            identifier: self.identifier@,
            log: self.log@,
            pending: match self.pending {
                Some(p) => Some(p@),
                None => None,
            },
        }
    }
}

/// A new line that reads `prefix` followed by `detail`.
fn joined_line(prefix: &str, detail: &str) -> (r: String)
    ensures
        r@ == prefix@ + detail@,
{
    let mut line = prefix.to_owned();
    line.append(detail);
    line
}

impl SessionController {
    /// Starts a session from the answer of the privilege probe. A granted
    /// session then awaits the initial read; a denied one stays denied.
    pub fn new(granted: bool) -> (r: SessionController)
        ensures
            r@ == SessionView::initial(granted),
            r@.wf(),
    {
        let mut log = OperationLog::new();
        let privilege;
        let phase;
        if granted {
            log.append("> ACCESS_LEVEL: ADMINISTRATOR [GRANTED]".to_owned());
            privilege = Privilege::Granted;
            phase = Phase::AwaitingRead;
        } else {
            log.append("> ACCESS_LEVEL: RESTRICTED [DENIED]".to_owned());
            log.append("> CRITICAL: ELEVATION REQUIRED".to_owned());
            privilege = Privilege::Denied;
            phase = Phase::Denied;
        }
        let r = SessionController {
            privilege,
            phase,
            identifier: "PENDING_SCAN...".to_owned(),
            log,
            pending: None,
        };
        assert(r@.log =~= SessionView::initial(granted).log);
        r
    }

    pub fn privilege(&self) -> (r: Privilege)
        ensures
            r == self@.privilege,
    {
        self.privilege
    }

    pub fn phase(&self) -> (r: Phase)
        ensures
            r == self@.phase,
    {
        self.phase
    }

    /// Whether the probe granted mutation rights.
    pub fn is_admin(&self) -> (r: bool)
        ensures
            r == (self@.privilege == Privilege::Granted),
    {
        self.privilege == Privilege::Granted
    }

    /// The identifier currently shown: a value read or written, or a sentinel.
    pub fn identifier(&self) -> (r: &str)
        ensures
            r@ == self@.identifier,
    {
        self.identifier.as_str()
    }

    pub fn log(&self) -> (r: &OperationLog)
        ensures
            r@ == self@.log,
    {
        &self.log
    }

    /// Whether the caller should now read the current value from the store.
    pub fn awaits_read(&self) -> (r: bool)
        ensures
            r == self@.awaits_read(),
    {
        self.phase == Phase::AwaitingRead
    }

    /// Whether a rotation request would start a rotation.
    pub fn can_rotate(&self) -> (r: bool)
        ensures
            r == self@.can_rotate(),
    {
        self.privilege == Privilege::Granted && (self.phase == Phase::Ready || self.phase
            == Phase::ReadFailed) && self.pending.is_none()
    }

    /// Records the answer of the initial read. Outside of `AwaitingRead` the
    /// answer is ignored.
    pub fn complete_read(&mut self, outcome: Result<String, ReadError>)
        requires
            old(self)@.wf(),
        ensures
            final(self)@ == old(self)@.read_applied(read_outcome(outcome)),
            final(self)@.wf(),
    {
        if self.phase != Phase::AwaitingRead {
            return;
        }
        match outcome {
            Ok(v) => {
                self.identifier = v;
                self.phase = Phase::Ready;
                self.log.append("> TARGET_ACQUIRED: HKLM\\...\\MachineGuid".to_owned());
            },
            Err(e) => {
                self.identifier = "ERROR".to_owned();
                self.phase = Phase::ReadFailed;
                let detail = e.describe();
                self.log.append(joined_line("> READ_ERR: ", detail.as_str()));
            },
        }
    }

    /// Starts a rotation: draws a fresh identifier and returns it for the
    /// caller to write to the store. Returns `None`, and changes nothing, when
    /// no rotation may start (in particular whenever privilege was denied).
    pub fn request_rotation(&mut self) -> (r: Option<String>)
        requires
            old(self)@.wf(),
        ensures
            r is Some == old(self)@.can_rotate(),
            r is None ==> final(self)@ == old(self)@,
            r is Some ==> {
                &&& is_random_identifier(r->0@)
                &&& final(self)@ == old(self)@.rotation_requested(r->0@)
            },
            final(self)@.wf(),
    {
        if !self.can_rotate() {
            return None;
        }
        self.log.append("> INITIATING_RESET_SEQUENCE...".to_owned());
        let id = generate();
        let handed = id.clone();
        self.pending = Some(id);
        Some(handed)
    }

    /// Records the answer of the write of the pending identifier. On success
    /// the pending identifier becomes the current one; on failure the current
    /// identifier is kept. Without a pending write the answer is ignored.
    pub fn complete_rotation(&mut self, outcome: Result<(), WriteError>)
        requires
            old(self)@.wf(),
        ensures
            final(self)@ == old(self)@.rotation_completed(outcome),
            final(self)@.wf(),
    {
        let pending = self.pending.take();
        match pending {
            None => {},
            Some(id) => match outcome {
                Ok(_) => {
                    let line = joined_line("> WRITE_SUCCESS: ", id.as_str());
                    self.identifier = id;
                    self.phase = Phase::Ready;
                    self.log.append(line);
                    self.log.append("> IDENTITY_REFRESH: COMPLETE".to_owned());
                },
                Err(e) => {
                    let detail = e.describe();
                    self.log.append(joined_line("> WRITE_FAILURE: ", detail.as_str()));
                    self.log.append("> ABORTING OPERATION".to_owned());
                },
            },
        }
    }
}

} // verus!
