use brio_kernel::audit::{log_audit, AuditEvent};

#[test]
fn test_log_audit_variants() {
    // These calls should not panic
    log_audit(AuditEvent::SystemStartup {
        component: "Test".into(),
    });
    log_audit(AuditEvent::SystemShutdown {
        reason: "Testing".into(),
    });
    log_audit(AuditEvent::AccessDenied {
        user: "bob".into(),
        resource: "secret".into(),
    });
    log_audit(AuditEvent::ConfigChanged {
        key: "port".into(),
        old_val: "80".into(),
        new_val: "8080".into(),
    });
}

#[test]
fn audit_record_carries_channel_kind_and_fields() {
    let r = log_audit(AuditEvent::ConfigChanged {
        key: "port".into(),
        old_val: "80".into(),
        new_val: "8080".into(),
    });
    assert_eq!(r.target, "audit");
    assert_eq!(r.message, "Security Audit Event");
    assert_eq!(r.kind, "ConfigChanged");
    assert_eq!(
        r.fields,
        vec![
            ("key".to_string(), "port".to_string()),
            ("old_val".to_string(), "80".to_string()),
            ("new_val".to_string(), "8080".to_string()),
        ]
    );
    let d = log_audit(AuditEvent::AccessDenied {
        user: "bob".into(),
        resource: "secret".into(),
    });
    assert_eq!(d.kind, "AccessDenied");
    assert_eq!(d.fields.len(), 2);
    assert_eq!(d.fields[1], ("resource".to_string(), "secret".to_string()));
}
