//! The JSON body of a license validation request.
use vstd::prelude::*;
use vstd::string::*;

verus! {

#[verifier::external_type_specification]
#[verifier::external_body]
pub struct ExJsonError(serde_json::Error);

/// The JSON string literal that serde_json writes for a text: the text in
/// double quotes, with quotes, backslashes and control characters escaped.
pub uninterp spec fn json_string_of(s: Seq<char>) -> Seq<char>;

/// Relies on `serde_json::to_string` applied to a `str`: it returns the
/// compact JSON string literal of the text, which depends on the text
/// alone. A `str` is written into a `Vec<u8>`, whose writes never fail, so
/// the call always succeeds.
#[verifier::external_body]
fn encode_json_string(s: &str) -> (r: Result<String, serde_json::Error>)
    ensures
        r is Ok,
        r matches Ok(t) ==> t@ == json_string_of(s@),
{
    serde_json::to_string(s)
}

/// What stands before the encoded key in the body.
pub open spec fn key_body_prefix() -> Seq<char> {
    "{\"key\":"@
}

/// What stands after the encoded key in the body.
pub open spec fn key_body_suffix() -> Seq<char> {
    "}"@
}

/// The JSON object with the single member `key`, whose value is the JSON
/// text `encoded`.
pub open spec fn key_body(encoded: Seq<char>) -> Seq<char> {
    key_body_prefix() + encoded + key_body_suffix()
}

/// The member value of a body of the shape `{"key":...}`, if it has that
/// shape.
pub open spec fn key_of_body(body: Seq<char>) -> Option<Seq<char>> {
    let p = key_body_prefix();
    let q = key_body_suffix();
    if body.len() >= p.len() + q.len() && body.subrange(0, p.len() as int) == p
        && body.subrange(body.len() - q.len(), body.len() as int) == q {
        Some(body.subrange(p.len() as int, body.len() - q.len()))
    } else {
        None
    }
}

/// The body of a license validation request for `key`.
pub open spec fn license_body(key: Seq<char>) -> Seq<char> {
    key_body(json_string_of(key))
}

/// Frames an encoded JSON value as the object `{"key":value}`.
pub fn frame_key_body(encoded: &str) -> (r: String)
    ensures
        r@ == key_body(encoded@),
{
    let mut body = String::from_str("{\"key\":");
    body.append(encoded);
    body.append("}");
    body
}

/// Encodes the body of a license validation request. Every key can be
/// encoded; the `Option` carries serde_json's error channel, which a text
/// never reaches.
pub fn encode_license_body(key: &str) -> (r: Option<String>)
    ensures
        r is Some,
        r matches Some(b) ==> b@ == license_body(key@),
{
    match encode_json_string(key) {
        Ok(encoded) => Some(frame_key_body(encoded.as_str())),
        Err(_) => None,
    }
}

/// The member value framed into a body is read back from it unchanged, so
/// the body of a license validation request carries the encoded key and
/// nothing else.
pub proof fn lemma_key_body_round_trip(encoded: Seq<char>)
    ensures
        key_of_body(key_body(encoded)) == Some(encoded),
{
    reveal_strlit("{\"key\":");
    reveal_strlit("}");
    let b = key_body(encoded);
    let p = key_body_prefix();
    let q = key_body_suffix();
    assert(b.subrange(0, p.len() as int) =~= p);
    assert(b.subrange(b.len() - q.len(), b.len() as int) =~= q);
    assert(b.subrange(p.len() as int, b.len() - q.len()) =~= encoded);
}

/// Two different encoded values never give the same body.
pub proof fn lemma_key_body_injective(a: Seq<char>, b: Seq<char>)
    ensures
        key_body(a) == key_body(b) ==> a == b,
{
    lemma_key_body_round_trip(a);
    lemma_key_body_round_trip(b);
}

} // verus!
