use vstd::prelude::*;

use crate::identifier::is_random_identifier;
use crate::session::{Privilege, SessionView};
use crate::store::{ReadError, WriteError};

verus! {

/// `longer` holds every line of `shorter`, in the same positions, and
/// possibly more after them.
pub open spec fn log_extends(longer: Seq<Seq<char>>, shorter: Seq<Seq<char>>) -> bool {
    &&& shorter.len() <= longer.len()
    &&& forall|i: int| 0 <= i < shorter.len() ==> #[trigger] longer[i] == shorter[i]
}

/// Every step of a session keeps it well formed.
pub proof fn steps_preserve_wf(
    s: SessionView,
    r: Result<Seq<char>, ReadError>,
    id: Seq<char>,
    w: Result<(), WriteError>,
)
    requires
        s.wf(),
        is_random_identifier(id),
    ensures
        s.read_applied(r).wf(),
        s.rotation_requested(id).wf(),
        s.rotation_completed(w).wf(),
{
}

/// Once privilege is denied, no step changes the session: a rotation never
/// starts, so no value is ever handed out for writing, and the identifier
/// keeps its value.
pub proof fn denied_session_never_rotates(
    s: SessionView,
    r: Result<Seq<char>, ReadError>,
    id: Seq<char>,
    w: Result<(), WriteError>,
)
    requires
        s.wf(),
        s.privilege == Privilege::Denied,
    ensures
        !s.can_rotate(),
        s.pending is None,
        s.read_applied(r) == s,
        s.rotation_requested(id) == s,
        s.rotation_completed(w) == s,
{
}

/// A rotation that the store confirms leaves the freshly generated identifier,
/// in canonical form, as the current one.
pub proof fn successful_rotation_installs_identifier(s: SessionView, id: Seq<char>)
    requires
        s.wf(),
        s.can_rotate(),
        is_random_identifier(id),
    ensures
        s.rotation_requested(id).rotation_completed(Ok(())).identifier == id,
        is_random_identifier(s.rotation_requested(id).rotation_completed(Ok(())).identifier),
{
}

/// A write that fails leaves the identifier exactly as it was before the
/// rotation started.
pub proof fn failed_write_keeps_identifier(s: SessionView, id: Seq<char>, e: WriteError)
    requires
        s.wf(),
    ensures
        s.rotation_requested(id).rotation_completed(Err(e)).identifier == s.identifier,
        s.rotation_completed(Err(e)).identifier == s.identifier,
{
}

/// No step removes or reorders a log line: the log after a step extends the
/// log before it.
pub proof fn log_only_grows(
    s: SessionView,
    r: Result<Seq<char>, ReadError>,
    id: Seq<char>,
    w: Result<(), WriteError>,
)
    ensures
        log_extends(s.read_applied(r).log, s.log),
        log_extends(s.rotation_requested(id).log, s.log),
        log_extends(s.rotation_completed(w).log, s.log),
{
}

/// With privilege granted, the value that the initial read returns becomes the
/// identifier unchanged.
pub proof fn read_round_trip(v: Seq<char>)
    ensures
        SessionView::initial(true).read_applied(Ok(v)).identifier == v,
        SessionView::initial(true).read_applied(Ok(v)).log.len() == 2,
{
}

/// One step of a session, as the caller reports it.
pub enum Step {
    /// The initial read answered.
    Read(Result<Seq<char>, ReadError>),
    /// A rotation was requested; the argument is the identifier it would draw.
    Request(Seq<char>),
    /// The write of the pending identifier answered.
    Complete(Result<(), WriteError>),
}

/// The state after one step.
pub open spec fn apply_step(s: SessionView, st: Step) -> SessionView {
    match st {
        Step::Read(r) => s.read_applied(r),
        Step::Request(id) => s.rotation_requested(id),
        Step::Complete(w) => s.rotation_completed(w),
    }
}

/// The state after the steps, in order.
pub open spec fn run(s: SessionView, steps: Seq<Step>) -> SessionView
    decreases steps.len(),
{
    if steps.len() == 0 {
        s
    } else {
        run(apply_step(s, steps[0]), steps.drop_first())
    }
}

/// Over any sequence of steps the log only grows: every line recorded stays,
/// in its place.
pub proof fn log_only_grows_over_runs(s: SessionView, steps: Seq<Step>)
    ensures
        log_extends(run(s, steps).log, s.log),
    decreases steps.len(),
{
    if steps.len() > 0 {
        let next = apply_step(s, steps[0]);
        match steps[0] {
            Step::Read(r) => log_only_grows(s, r, Seq::empty(), Ok(())),
            Step::Request(id) => log_only_grows(s, Err(ReadError::NotAccessible), id, Ok(())),
            Step::Complete(w) => log_only_grows(s, Err(ReadError::NotAccessible), Seq::empty(), w),
        }
        log_only_grows_over_runs(next, steps.drop_first());
    }
}

/// Over any sequence of steps a denied session stays exactly as it started.
pub proof fn denied_session_is_final(s: SessionView, steps: Seq<Step>)
    requires
        s.wf(),
        s.privilege == Privilege::Denied,
    ensures
        run(s, steps) == s,
    decreases steps.len(),
{
    if steps.len() > 0 {
        run_denied_step(s, steps[0]);
        denied_session_is_final(s, steps.drop_first());
    }
}

proof fn run_denied_step(s: SessionView, st: Step)
    requires
        s.wf(),
        s.privilege == Privilege::Denied,
    ensures
        apply_step(s, st) == s,
{
    match st {
        Step::Read(r) => denied_session_never_rotates(s, r, Seq::empty(), Ok(())),
        Step::Request(id) => denied_session_never_rotates(s, Err(ReadError::NotAccessible), id, Ok(())),
        Step::Complete(w) => denied_session_never_rotates(s, Err(ReadError::NotAccessible), Seq::empty(), w),
    }
}

} // verus!
