use sidecar_supervisor::notify::{permission_label, prepare_notification, PermissionKind};

#[test]
fn informational_notification_is_untagged() {
    let p = prepare_notification("  Order filled  ", " 10 shares bought ", &None).unwrap();
    assert_eq!(p.title, "Order filled");
    assert_eq!(p.body, "10 shares bought");
}

#[test]
fn severities_tag_the_title() {
    let sev = Some(" ERROR ".to_string());
    let p = prepare_notification("Feed lost", "reconnecting", &sev).unwrap();
    assert_eq!(p.title, "[ERROR] Feed lost");
    let sev = Some("warning".to_string());
    let p = prepare_notification("Slow feed", "lagging", &sev).unwrap();
    assert_eq!(p.title, "[WARNING] Slow feed");
    let sev = Some("Success".to_string());
    let p = prepare_notification("Done", "all set", &sev).unwrap();
    assert_eq!(p.title, "[SUCCESS] Done");
    let sev = Some("info".to_string());
    let p = prepare_notification("Note", "plain", &sev).unwrap();
    assert_eq!(p.title, "Note");
}

#[test]
fn empty_title_or_body_is_rejected() {
    assert_eq!(
        prepare_notification("  ", "body", &None).unwrap_err(),
        "title is required".to_string()
    );
    assert_eq!(
        prepare_notification("title", " \t ", &None).unwrap_err(),
        "body is required".to_string()
    );
}

#[test]
fn oversized_title_or_body_is_rejected() {
    let long_title = "t".repeat(121);
    assert_eq!(
        prepare_notification(&long_title, "body", &None).unwrap_err(),
        "title is too long".to_string()
    );
    let long_body = "b".repeat(1001);
    assert_eq!(
        prepare_notification("title", &long_body, &None).unwrap_err(),
        "body is too long".to_string()
    );
    let title_at_limit = "t".repeat(120);
    assert!(prepare_notification(&title_at_limit, "body", &None).is_ok());
}

#[test]
fn unknown_severity_is_rejected() {
    let sev = Some("urgent".to_string());
    assert_eq!(
        prepare_notification("title", "body", &sev).unwrap_err(),
        "severity must be one of: info, warning, error, success".to_string()
    );
}

#[test]
fn permission_labels() {
    assert_eq!(permission_label(PermissionKind::Granted), "granted");
    assert_eq!(permission_label(PermissionKind::Denied), "denied");
    assert_eq!(permission_label(PermissionKind::Prompt), "default");
    assert_eq!(permission_label(PermissionKind::Unknown), "default");
}
