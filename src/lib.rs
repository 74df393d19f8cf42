//! Inspection and rotation of the machine identity value kept in the
//! platform's protected configuration store.
//!
//! The library holds the decisions: the session state machine, its
//! append-only operation log, the errors of the configuration store and the
//! generation of fresh identifiers. Probing privileges and touching the store
//! are left to the caller, who reports each outcome back to the session.
pub mod identifier;
pub mod laws;
pub mod oplog;
pub mod session;
pub mod store;

pub use identifier::generate;
pub use laws::{
    apply_step, denied_session_is_final, denied_session_never_rotates,
    failed_write_keeps_identifier, log_extends, log_only_grows, log_only_grows_over_runs,
    read_round_trip, run, steps_preserve_wf, successful_rotation_installs_identifier, Step,
};
pub use oplog::OperationLog;
pub use session::{Phase, Privilege, SessionController, SessionView};
pub use store::{ReadError, WriteError, CRYPTOGRAPHY_NAMESPACE, MACHINE_GUID_VALUE};
