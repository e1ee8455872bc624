use doorlock::lock::{InstructionSource, LockInstruction};
use doorlock::routes::{format_err_message, instruction_for_action, str_eq, LockRequest};

#[test]
fn str_eq_cases() {
    assert!(str_eq("", ""));
    assert!(str_eq("lock", "lock"));
    assert!(!str_eq("lock", "Lock"));
    assert!(!str_eq("lock", "lockk"));
    assert!(!str_eq("lock", ""));
}

#[test]
fn error_message_markup() {
    assert_eq!(
        format_err_message("Invalid password. Please try again."),
        "<p style='color: red;'>Invalid password. Please try again.</p>"
    );
    assert_eq!(format_err_message(""), "<p style='color: red;'></p>");
}

#[test]
fn form_action_mapping() {
    assert_eq!(
        instruction_for_action("lock"),
        Some(LockInstruction::EnsureLocked(InstructionSource::Api))
    );
    assert_eq!(
        instruction_for_action("unlock"),
        Some(LockInstruction::EnsureUnlocked(InstructionSource::Api))
    );
    assert_eq!(instruction_for_action("open"), None);
    assert_eq!(instruction_for_action(""), None);
    assert_eq!(instruction_for_action("LOCK"), None);
}

#[test]
fn lock_request_carries_form_fields() {
    let request = LockRequest {
        passcode: String::from("hunter2"),
        action: String::from("unlock"),
    };
    assert_eq!(request.passcode, "hunter2");
    assert_eq!(request.action, "unlock");
}
