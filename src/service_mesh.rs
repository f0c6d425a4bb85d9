//! The service mesh interface offered to guest components. Outside the
//! sandbox a call is a deterministic no-op that reports acceptance.

use vstd::prelude::*;
use crate::mesh;

verus! {

/// Payload of a guest's mesh call.
#[derive(Debug, Clone)]
pub enum Payload {
    Json(String),
    Binary(Vec<u8>),
}

/// The reply a call gets outside the sandbox.
pub open spec fn accepted_text() -> Seq<char> {
    "{\"status\":\"accepted\"}"@
}

/// Calls `method` on component `target`. Outside the sandbox the reply is
/// always the JSON text `{"status":"accepted"}`.
pub fn call(target: &str, method: &str, args: Payload) -> (r: Result<Payload, String>)
    ensures
        r matches Ok(Payload::Json(s)) && s@ == accepted_text(),
{
    Ok(Payload::Json("{\"status\":\"accepted\"}".to_owned()))
}

/// The kernel's form of a guest payload; the contents are kept.
pub fn to_kernel_payload(p: Payload) -> (r: mesh::Payload)
    ensures
        match p {
            Payload::Json(s) => r == mesh::Payload::Json(s),
            Payload::Binary(b) => r == mesh::Payload::Binary(b),
        },
{
    match p {
        Payload::Json(s) => mesh::Payload::Json(s),
        Payload::Binary(b) => mesh::Payload::Binary(b),
    }
}

/// The guest's form of a kernel payload; the contents are kept.
pub fn from_kernel_payload(p: mesh::Payload) -> (r: Payload)
    ensures
        match p {
            mesh::Payload::Json(s) => r == Payload::Json(s),
            mesh::Payload::Binary(b) => r == Payload::Binary(b),
        },
{
    match p {
        mesh::Payload::Json(s) => Payload::Json(s),
        mesh::Payload::Binary(b) => Payload::Binary(b),
    }
}

} // verus!
