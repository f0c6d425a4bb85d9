//! Security audit events, and the structured record under which each is
//! logged on the dedicated audit channel.

use vstd::prelude::*;

verus! {

/// Domain events of security interest.
#[derive(Debug, Clone)]
pub enum AuditEvent {
    SystemStartup { component: String },
    SystemShutdown { reason: String },
    AccessDenied { user: String, resource: String },
    ConfigChanged { key: String, old_val: String, new_val: String },
}

/// What gets logged for an event: the channel it goes to, a fixed message,
/// the event's kind and its named fields in order.
pub struct AuditRecord {
    pub target: String,
    pub message: String,
    pub kind: String,
    pub fields: Vec<(String, String)>,
}

/// The channel audit records go to.
pub open spec fn audit_target() -> Seq<char> {
    "audit"@
}

/// The message every audit record carries.
pub open spec fn audit_message() -> Seq<char> {
    "Security Audit Event"@
}

/// The kind of `e`, as its variant name.
pub open spec fn kind_of(e: AuditEvent) -> Seq<char> {
    match e {
        AuditEvent::SystemStartup { .. } => "SystemStartup"@,
        AuditEvent::SystemShutdown { .. } => "SystemShutdown"@,
        AuditEvent::AccessDenied { .. } => "AccessDenied"@,
        AuditEvent::ConfigChanged { .. } => "ConfigChanged"@,
    }
}

/// The named fields of `e`, in declaration order.
pub open spec fn fields_of(e: AuditEvent) -> Seq<(Seq<char>, Seq<char>)> {
    match e {
        AuditEvent::SystemStartup { component } => seq![("component"@, component@)],
        AuditEvent::SystemShutdown { reason } => seq![("reason"@, reason@)],
        AuditEvent::AccessDenied { user, resource } => seq![
            ("user"@, user@),
            ("resource"@, resource@),
        ],
        AuditEvent::ConfigChanged { key, old_val, new_val } => seq![
            ("key"@, key@),
            ("old_val"@, old_val@),
            ("new_val"@, new_val@),
        ],
    }
}

impl AuditRecord {
    /// The fields as text pairs.
    pub open spec fn fields_view(&self) -> Seq<(Seq<char>, Seq<char>)> {
        self.fields@.map_values(|f: (String, String)| (f.0@, f.1@))
    }
}

fn field(name: &str, value: String) -> (r: (String, String))
    ensures
        r.0@ == name@,
        r.1 == value,
{
    (name.to_owned(), value)
}

/// The audit record for `event`, ready to be emitted on the audit channel.
pub fn log_audit(event: AuditEvent) -> (r: AuditRecord)
    ensures
        r.target@ == audit_target(),
        r.message@ == audit_message(),
        r.kind@ == kind_of(event),
        r.fields_view() == fields_of(event),
{
    let ghost e = event;
    let (kind, fields) = match event {
        AuditEvent::SystemStartup { component } => (
            "SystemStartup".to_owned(),
            vec![field("component", component)],
        ),
        AuditEvent::SystemShutdown { reason } => (
            "SystemShutdown".to_owned(),
            vec![field("reason", reason)],
        ),
        AuditEvent::AccessDenied { user, resource } => (
            "AccessDenied".to_owned(),
            vec![field("user", user), field("resource", resource)],
        ),
        AuditEvent::ConfigChanged { key, old_val, new_val } => (
            "ConfigChanged".to_owned(),
            vec![field("key", key), field("old_val", old_val), field("new_val", new_val)],
        ),
    };
    let r = AuditRecord {
        target: "audit".to_owned(),
        message: "Security Audit Event".to_owned(),
        kind,
        fields,
    };
    assert(r.fields_view() =~= fields_of(e));
    r
}

} // verus!
