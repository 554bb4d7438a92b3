use vstd::prelude::*;

verus! {

/// Length in bytes of a request id that this library generates.
pub const REQUEST_ID_LEN: usize = 36;

/// A byte of a generated request id: a lowercase hex digit or a hyphen.
pub open spec fn is_request_id_byte(b: u8) -> bool {
    (0x30 <= b && b <= 0x39) || (0x61 <= b && b <= 0x66) || b == 0x2d
}

/// Bytes that are valid in an HTTP header value: visible ASCII.
pub open spec fn is_visible_ascii(s: Seq<u8>) -> bool {
    forall|i: int| 0 <= i < s.len() ==> 0x21 <= #[trigger] s[i] && s[i] <= 0x7e
}

/// Relies on uuid::Uuid::now_v7 and the `Display` of `Uuid`, which writes
/// the hyphenated lowercase form: 36 bytes of hex digits and hyphens. The
/// value itself depends on the clock and on chance.
#[verifier::external_body]
fn fresh_request_id() -> (r: Vec<u8>)
    ensures
        r@.len() == REQUEST_ID_LEN,
        forall|i: int| 0 <= i < r@.len() ==> is_request_id_byte(#[trigger] r@[i]),
{
    uuid::Uuid::now_v7().to_string().into_bytes()
}

/// The request id that a request carries on its way through the server.
pub struct RequestId {
    pub value: Vec<u8>,
    /// True where the request came without one and `value` was generated:
    /// the caller then adds it to the request's headers.
    pub generated: bool,
}

/// Keeps the id that the request came with, or generates a new one, which is
/// always a valid header value.
pub fn set_request_id(existing: Option<Vec<u8>>) -> (r: RequestId)
    ensures
        existing.is_some() ==> r.value == existing.unwrap() && !r.generated,
        existing.is_none() ==> r.generated && r.value@.len() == REQUEST_ID_LEN
            && is_visible_ascii(r.value@),
{
    match existing {
        Some(v) => RequestId { value: v, generated: false },
        None => {
            let v = fresh_request_id();
            assert(is_visible_ascii(v@)) by {
                assert forall|i: int| 0 <= i < v@.len() implies 0x21 <= #[trigger] v@[i] && v@[i] <= 0x7e by {
                    assert(is_request_id_byte(v@[i]));
                }
            }
            RequestId { value: v, generated: true }
        },
    }
}

} // verus!
