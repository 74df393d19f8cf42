use guid_reset::{
    generate, OperationLog, Phase, Privilege, ReadError, SessionController, WriteError,
    CRYPTOGRAPHY_NAMESPACE, MACHINE_GUID_VALUE,
};

fn is_canonical(s: &str) -> bool {
    let b = s.as_bytes();
    if b.len() != 36 {
        return false;
    }
    for (i, c) in b.iter().enumerate() {
        let ok = if i == 8 || i == 13 || i == 18 || i == 23 {
            *c == b'-'
        } else {
            c.is_ascii_digit() || (b'a'..=b'f').contains(c)
        };
        if !ok {
            return false;
        }
    }
    b[14] == b'4' && matches!(b[19], b'8' | b'9' | b'a' | b'b')
}

fn lines(c: &SessionController) -> Vec<String> {
    c.log().snapshot().to_vec()
}

#[test]
fn scenario_denied_session() {
    let mut c = SessionController::new(false);
    assert_eq!(c.phase(), Phase::Denied);
    assert_eq!(c.privilege(), Privilege::Denied);
    assert!(!c.is_admin());
    assert!(!c.awaits_read());
    assert!(lines(&c).iter().any(|l| l.contains("DENIED")));
    assert_eq!(c.identifier(), "PENDING_SCAN...");
    assert_eq!(c.request_rotation(), None);
    assert_eq!(c.identifier(), "PENDING_SCAN...");
}

#[test]
fn scenario_read_success() {
    let mut c = SessionController::new(true);
    assert!(c.awaits_read());
    c.complete_read(Ok("123e4567-e89b-12d3-a456-426614174000".to_owned()));
    assert_eq!(c.identifier(), "123e4567-e89b-12d3-a456-426614174000");
    assert_eq!(c.phase(), Phase::Ready);
    assert_eq!(
        lines(&c),
        vec![
            "> ACCESS_LEVEL: ADMINISTRATOR [GRANTED]".to_owned(),
            "> TARGET_ACQUIRED: HKLM\\...\\MachineGuid".to_owned(),
        ]
    );
}

#[test]
fn scenario_failed_read_then_rotation() {
    let mut c = SessionController::new(true);
    c.complete_read(Err(ReadError::NotAccessible));
    assert_eq!(c.identifier(), "ERROR");
    assert_eq!(c.phase(), Phase::ReadFailed);
    assert_eq!(
        lines(&c)[1],
        "> READ_ERR: configuration value not accessible"
    );
    let id = c.request_rotation().expect("rotation starts after a failed read");
    c.complete_rotation(Ok(()));
    assert_eq!(c.identifier(), id);
    assert_ne!(c.identifier(), "ERROR");
    assert!(is_canonical(c.identifier()));
    assert_eq!(c.phase(), Phase::Ready);
}

#[test]
fn scenario_failed_write_keeps_old_value() {
    let mut c = SessionController::new(true);
    c.complete_read(Ok("OLD-GUID".to_owned()));
    let before = c.log().len();
    assert!(c.request_rotation().is_some());
    c.complete_rotation(Err(WriteError::AccessDenied));
    assert_eq!(c.identifier(), "OLD-GUID");
    let l = lines(&c);
    assert_eq!(l.len(), before + 3);
    assert_eq!(l[before], "> INITIATING_RESET_SEQUENCE...");
    assert_eq!(l[before + 1], "> WRITE_FAILURE: access denied");
    assert_eq!(l[before + 2], "> ABORTING OPERATION");
}

#[test]
fn read_returns_stored_value_unchanged() {
    let mut c = SessionController::new(true);
    c.complete_read(Ok("any text at all".to_owned()));
    assert_eq!(c.identifier(), "any text at all");
}

#[test]
fn successful_rotation_logs_new_value() {
    let mut c = SessionController::new(true);
    c.complete_read(Ok("OLD-GUID".to_owned()));
    let id = c.request_rotation().unwrap();
    assert!(is_canonical(&id));
    assert!(!c.can_rotate());
    c.complete_rotation(Ok(()));
    assert_eq!(c.identifier(), id);
    assert_ne!(c.identifier(), "OLD-GUID");
    let l = lines(&c);
    assert_eq!(l[l.len() - 2], format!("> WRITE_SUCCESS: {}", id));
    assert_eq!(l[l.len() - 1], "> IDENTITY_REFRESH: COMPLETE");
    assert!(c.can_rotate());
}

#[test]
fn store_failure_is_logged() {
    let mut c = SessionController::new(true);
    c.complete_read(Err(ReadError::TypeMismatch));
    assert_eq!(lines(&c)[1], "> READ_ERR: configuration value is not a string");
    c.request_rotation().unwrap();
    c.complete_rotation(Err(WriteError::StoreFailure));
    assert_eq!(c.identifier(), "ERROR");
    assert_eq!(c.phase(), Phase::ReadFailed);
    let l = lines(&c);
    assert_eq!(l[l.len() - 2], "> WRITE_FAILURE: configuration store failure");
}

#[test]
fn log_never_shrinks_over_a_session() {
    let mut c = SessionController::new(true);
    let mut seen = lines(&c);
    let check = |c: &SessionController, seen: &mut Vec<String>| {
        let now = lines(c);
        assert!(now.len() >= seen.len());
        assert_eq!(&now[..seen.len()], &seen[..]);
        *seen = now;
    };
    c.complete_read(Ok("OLD-GUID".to_owned()));
    check(&c, &mut seen);
    c.complete_read(Ok("IGNORED".to_owned()));
    check(&c, &mut seen);
    assert_eq!(c.identifier(), "OLD-GUID");
    c.complete_rotation(Ok(()));
    check(&c, &mut seen);
    c.request_rotation().unwrap();
    check(&c, &mut seen);
    assert_eq!(c.request_rotation(), None);
    check(&c, &mut seen);
    c.complete_rotation(Err(WriteError::AccessDenied));
    check(&c, &mut seen);
    c.request_rotation().unwrap();
    check(&c, &mut seen);
    c.complete_rotation(Ok(()));
    check(&c, &mut seen);
    assert_eq!(seen.len(), 8);
}

#[test]
fn denied_session_ignores_every_answer() {
    let mut c = SessionController::new(false);
    let before = lines(&c);
    c.complete_read(Ok("X".to_owned()));
    c.complete_rotation(Ok(()));
    assert_eq!(c.request_rotation(), None);
    assert_eq!(lines(&c), before);
    assert_eq!(before.len(), 2);
    assert_eq!(c.identifier(), "PENDING_SCAN...");
}

#[test]
fn generated_identifiers_are_canonical_and_distinct() {
    let a = generate();
    let b = generate();
    assert!(is_canonical(&a));
    assert!(is_canonical(&b));
    assert_ne!(a, b);
}

#[test]
fn error_details() {
    assert_eq!(ReadError::NotAccessible.describe(), "configuration value not accessible");
    assert_eq!(ReadError::TypeMismatch.describe(), "configuration value is not a string");
    assert_eq!(WriteError::AccessDenied.describe(), "access denied");
    assert_eq!(WriteError::StoreFailure.describe(), "configuration store failure");
}

#[test]
fn operation_log_appends_in_order() {
    let mut log = OperationLog::new();
    assert_eq!(log.len(), 0);
    log.append("first".to_owned());
    log.append("second".to_owned());
    assert_eq!(log.len(), 2);
    assert_eq!(log.snapshot(), &["first".to_owned(), "second".to_owned()][..]);
}

#[test]
fn store_location() {
    assert_eq!(CRYPTOGRAPHY_NAMESPACE, "SOFTWARE\\Microsoft\\Cryptography");
    assert_eq!(MACHINE_GUID_VALUE, "MachineGuid");
}
