//! The rejection record and its JSON text.
//!
//! The record is written as `{"code":<digits>,"message":<string>}`; the
//! message's JSON string literal comes from serde_json.

use vstd::prelude::*;
use vstd::string::StringSliceAdditionalSpecFns;

verus! {

/// ASCII text as the bytes it is written with.
pub open spec fn ascii_bytes(s: Seq<char>) -> Seq<u8> {
    s.map_values(|c: char| c as u8)
}

/// The decimal digits of `n`, most significant first, with no leading zero.
pub open spec fn decimal(n: nat) -> Seq<u8>
    decreases n,
{
    if n < 10 {
        seq![(48 + n) as u8]
    } else {
        decimal(n / 10).push((48 + n % 10) as u8)
    }
}

/// Appends the bytes of an ASCII string.
fn push_ascii(out: &mut Vec<u8>, s: &str)
    requires
        s.is_ascii(),
    ensures
        final(out)@ == old(out)@ + ascii_bytes(s@),
{
    broadcast use vstd::string::is_ascii_spec_bytes;

    let bytes = s.as_bytes();
    let ghost start = out@;
    assert(bytes@ =~= ascii_bytes(s@));
    let mut i: usize = 0;
    while i < bytes.len()
        invariant
            0 <= i <= bytes@.len(),
            bytes@ == ascii_bytes(s@),
            out@ == start + ascii_bytes(s@.subrange(0, i as int)),
        decreases bytes@.len() - i,
    {
        out.push(bytes[i]);
        i = i + 1;
        assert(out@ =~= start + ascii_bytes(s@.subrange(0, i as int)));
    }
    assert(s@.subrange(0, i as int) =~= s@);
}

/// Appends the decimal digits of `n`.
fn push_decimal(out: &mut Vec<u8>, n: u16)
    ensures
        final(out)@ == old(out)@ + decimal(n as nat),
    decreases n,
{
    let ghost start = out@;
    if n >= 10 {
        push_decimal(out, n / 10);
    }
    out.push(48u8 + (n % 10) as u8);
    assert(out@ =~= start + decimal(n as nat));
}

/// The record published to the device topic: a status code and a message.
pub struct GetEndpointRejected<'a> {
    pub code: u16,
    pub message: &'a str,
}

/// Text that a JSON string literal holds unescaped: the characters from space
/// to tilde, but the quote and the backslash.
pub open spec fn is_plain_json_text(s: Seq<char>) -> bool {
    forall|i: int|
        0 <= i < s.len() ==> ' ' <= #[trigger] s[i] <= '~' && s[i] != '"' && s[i] != '\\'
}

/// The JSON string literal of plain text: the text between two quotes.
pub open spec fn quoted_plain(s: Seq<char>) -> Seq<u8> {
    seq![34u8] + ascii_bytes(s) + seq![34u8]
}

/// The bytes of the JSON string literal that serde_json writes for `s`.
pub uninterp spec fn json_string_bytes(s: Seq<char>) -> Seq<u8>;

#[verifier::external_type_specification]
#[verifier::external_body]
pub struct ExJsonError(serde_json::Error);

/// Relies on `serde_json::to_vec` of a string slice: it returns the JSON string
/// literal of `s`, in which a character from space to tilde, other than the
/// quote and the backslash, stands as its own byte (serde_json's table of
/// escapes) between the two quotes that begin and end the string. It succeeds
/// on every string: the compact formatter only calls `write_all` on the `Vec`
/// that `to_vec` writes into, and writing into a `Vec` does not fail.
#[verifier::external_body]
fn json_string(s: &str) -> (r: Result<Vec<u8>, serde_json::Error>)
    ensures
        r is Ok,
        r is Ok ==> r->Ok_0@ == json_string_bytes(s@),
        r is Ok && is_plain_json_text(s@) ==> r->Ok_0@ == quoted_plain(s@),
{
    serde_json::to_vec(s)
}

/// The JSON object of a record, given its code and the JSON string literal of
/// its message.
pub open spec fn rejection_json(code: u16, quoted_message: Seq<u8>) -> Seq<u8> {
    ascii_bytes("{\"code\":"@) + decimal(code as nat) + ascii_bytes(",\"message\":"@)
        + quoted_message + ascii_bytes("}"@)
}

/// Writes the JSON object of a record from its code and the JSON string
/// literal of its message.
pub fn frame_rejection(code: u16, quoted_message: &Vec<u8>) -> (r: Vec<u8>)
    ensures
        r@ == rejection_json(code, quoted_message@),
{
    let open = "{\"code\":";
    let sep = ",\"message\":";
    let close = "}";
    proof {
        reveal_strlit("{\"code\":");
        reveal_strlit(",\"message\":");
        reveal_strlit("}");
    }
    assert(open.is_ascii());
    assert(sep.is_ascii());
    assert(close.is_ascii());
    let mut out: Vec<u8> = Vec::new();
    push_ascii(&mut out, open);
    push_decimal(&mut out, code);
    push_ascii(&mut out, sep);
    let ghost before = out@;
    let mut i: usize = 0;
    while i < quoted_message.len()
        invariant
            0 <= i <= quoted_message@.len(),
            out@ == before + quoted_message@.subrange(0, i as int),
        decreases quoted_message@.len() - i,
    {
        out.push(quoted_message[i]);
        i = i + 1;
        assert(out@ =~= before + quoted_message@.subrange(0, i as int));
    }
    assert(quoted_message@.subrange(0, i as int) =~= quoted_message@);
    push_ascii(&mut out, close);
    out
}

impl<'a> GetEndpointRejected<'a> {
    /// The record as JSON bytes, which follow from the code and the message
    /// alone.
    pub fn to_json(&self) -> (r: Vec<u8>)
        ensures
            r@ == rejection_json(self.code, json_string_bytes(self.message@)),
            is_plain_json_text(self.message@) ==> r@ == rejection_json(
                self.code,
                quoted_plain(self.message@),
            ),
    {
        match json_string(self.message) {
            Ok(quoted) => frame_rejection(self.code, &quoted),
            Err(_) => {
                // serde_json writes every string
                proof {
                    assert(false);
                }
                Vec::new()
            },
        }
    }
}

/// The record that every invocation publishes: code 401, message "hello world".
pub fn hello_rejection() -> (r: GetEndpointRejected<'static>)
    ensures
        r.code == 401,
        r.message@ == "hello world"@,
{
    GetEndpointRejected { code: 401, message: "hello world" }
}

/// The published record is always the same JSON text,
/// `{"code":401,"message":"hello world"}`.
pub proof fn lemma_hello_payload_text()
    ensures
        is_plain_json_text("hello world"@),
        rejection_json(401, quoted_plain("hello world"@)) == ascii_bytes(
            "{\"code\":401,\"message\":\"hello world\"}"@,
        ),
{
    reveal_strlit("hello world");
    reveal_strlit("{\"code\":");
    reveal_strlit(",\"message\":");
    reveal_strlit("}");
    reveal_strlit("{\"code\":401,\"message\":\"hello world\"}");
    assert(decimal(4) == seq![52u8]);
    assert(decimal(40) == seq![52u8, 48u8]);
    assert(decimal(401) == seq![52u8, 48u8, 49u8]);
    assert(rejection_json(401, quoted_plain("hello world"@)) =~= ascii_bytes(
        "{\"code\":401,\"message\":\"hello world\"}"@,
    ));
}

/// The payload of every invocation: the JSON text of the hello record.
pub fn hello_payload() -> (r: Vec<u8>)
    ensures
        r@ == ascii_bytes("{\"code\":401,\"message\":\"hello world\"}"@),
{
    proof {
        lemma_hello_payload_text();
    }
    hello_rejection().to_json()
}

} // verus!
