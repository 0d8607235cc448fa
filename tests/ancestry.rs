use authd_nss::ancestry::{
    is_login_daemon, parent_process_name, pre_check_for_parent, pre_check_in, should_pre_check,
};
use sysinfo::{Pid, System};

#[test]
fn daemon_name_matches_exactly() {
    assert!(is_login_daemon(&"sshd".to_string()));
    assert!(!is_login_daemon(&"sshd ".to_string()));
    assert!(!is_login_daemon(&"ssh".to_string()));
    assert!(!is_login_daemon(&"SSHD".to_string()));
    assert!(!is_login_daemon(&String::new()));
}

#[test]
fn parent_named_as_daemon_sets_hint() {
    assert!(pre_check_for_parent(&Some("sshd".to_string())));
}

#[test]
fn other_parent_clears_hint() {
    assert!(!pre_check_for_parent(&Some("bash".to_string())));
    assert!(!pre_check_for_parent(&Some("sshd-session".to_string())));
}

#[test]
fn unresolvable_parent_clears_hint() {
    assert!(!pre_check_for_parent(&None));
    let empty = System::new();
    assert_eq!(parent_process_name(&empty, 1), None);
    assert!(!pre_check_in(&empty, 1));
}

#[test]
fn parent_name_agrees_with_snapshot() {
    let sys = System::new_all();
    let pid = sys
        .processes()
        .iter()
        .find(|(_, p)| p.parent().is_some())
        .map(|(pid, _)| pid.as_u32())
        .unwrap_or(1);
    let expected = sys
        .process(Pid::from_u32(pid))
        .and_then(|p| p.parent())
        .and_then(|pp| sys.process(pp))
        .map(|p| p.name().to_string_lossy().into_owned());
    assert_eq!(parent_process_name(&sys, pid), expected);
    assert_eq!(pre_check_in(&sys, pid), expected.as_deref() == Some("sshd"));
}

#[test]
fn override_forces_hint_without_parent() {
    assert!(should_pre_check(true, u32::MAX));
    assert!(should_pre_check(true, 0));
}

#[test]
fn missing_process_without_override_clears_hint() {
    assert!(!should_pre_check(false, u32::MAX));
}
