use vstd::prelude::*;
use vstd::utf8::encode_utf8;

use crate::authorization::DeletionAuthorization;
use crate::digest::{sha256_hex, spec_sha256_hex};

verus! {

/// ASCII code of a lower-case hexadecimal digit.
pub open spec fn ascii_hex_digit(n: u8) -> u8
    recommends
        n < 16,
{
    if n < 10 {
        (48 + n) as u8
    } else {
        (87 + n) as u8
    }
}

/// How a JSON string writer renders one byte of UTF-8 text: quote and backslash are
/// backslash-escaped, the control characters with short escapes use them, the other
/// control characters become `\u00XX`, and every other byte is written as it is.
pub open spec fn json_escape_byte(b: u8) -> Seq<u8> {
    if b == 0x22 {
        seq![0x5cu8, 0x22u8]
    } else if b == 0x5c {
        seq![0x5cu8, 0x5cu8]
    } else if b == 0x08 {
        seq![0x5cu8, 0x62u8]
    } else if b == 0x0c {
        seq![0x5cu8, 0x66u8]
    } else if b == 0x0a {
        seq![0x5cu8, 0x6eu8]
    } else if b == 0x0d {
        seq![0x5cu8, 0x72u8]
    } else if b == 0x09 {
        seq![0x5cu8, 0x74u8]
    } else if b < 0x20 {
        seq![0x5cu8, 0x75u8, 0x30u8, 0x30u8, ascii_hex_digit(b / 16), ascii_hex_digit(b % 16)]
    } else {
        seq![b]
    }
}

/// JSON escaping of UTF-8 text, byte by byte.
pub open spec fn json_escape(bytes: Seq<u8>) -> Seq<u8>
    decreases bytes.len(),
{
    if bytes.len() == 0 {
        Seq::empty()
    } else {
        json_escape(bytes.drop_last()) + json_escape_byte(bytes.last())
    }
}

/// A text as a JSON string literal.
pub open spec fn json_string(text: Seq<char>) -> Seq<u8> {
    seq![0x22u8] + json_escape(encode_utf8(text)) + seq![0x22u8]
}

/// Decimal ASCII digits of a natural number, without leading zeros.
pub open spec fn decimal(n: nat) -> Seq<u8>
    decreases n,
{
    if n < 10 {
        seq![(48 + n) as u8]
    } else {
        decimal(n / 10) + seq![(48 + n % 10) as u8]
    }
}

/// The canonical binding of an authorization: the compact JSON object of every
/// field but `object_hash`, in declaration order.
pub open spec fn binding_json(auth: DeletionAuthorization) -> Seq<u8> {
    encode_utf8("{\"permit_id\":"@) + json_string(auth.permit_id@)
        + encode_utf8(",\"actor_id\":"@) + json_string(auth.actor_id@)
        + encode_utf8(",\"action\":"@) + json_string(auth.action@)
        + encode_utf8(",\"evidence_id\":"@) + json_string(auth.evidence_id@)
        + encode_utf8(",\"evidence_hash\":"@) + json_string(auth.evidence_hash@)
        + encode_utf8(",\"policy_hash\":"@) + json_string(auth.policy_hash@)
        + encode_utf8(",\"expires_at_unix\":"@) + decimal(auth.expires_at_unix as nat)
        + encode_utf8(",\"authority_effect\":"@) + json_string(auth.authority_effect@)
        + encode_utf8("}"@)
}

/// The object hash an authorization must carry: SHA-256 hex of its canonical binding.
pub open spec fn spec_authorization_object_hash(auth: DeletionAuthorization) -> Seq<char> {
    spec_sha256_hex(binding_json(auth))
}

/// Appends the UTF-8 bytes of `text`.
fn push_text(out: &mut Vec<u8>, text: &str)
    ensures
        final(out)@ == old(out)@ + encode_utf8(text@),
{
    let bytes = text.as_bytes();
    let mut i: usize = 0;
    while i < bytes.len()
        invariant
            i <= bytes@.len(),
            bytes@ == encode_utf8(text@),
            out@ == old(out)@ + bytes@.subrange(0, i as int),
        decreases bytes@.len() - i,
    {
        out.push(bytes[i]);
        i = i + 1;
        assert(out@ =~= old(out)@ + bytes@.subrange(0, i as int));
    }
    assert(bytes@.subrange(0, i as int) =~= bytes@);
}

fn ascii_hex_digit_exec(n: u8) -> (d: u8)
    requires
        n < 16,
    ensures
        d == ascii_hex_digit(n),
{
    if n < 10 {
        48 + n
    } else {
        87 + n
    }
}

/// Appends the JSON rendering of one byte.
fn push_json_escaped_byte(out: &mut Vec<u8>, b: u8)
    ensures
        final(out)@ == old(out)@ + json_escape_byte(b),
{
    if b == 0x22 || b == 0x5c {
        out.push(0x5c);
        out.push(b);
    } else if b == 0x08 {
        out.push(0x5c);
        out.push(0x62);
    } else if b == 0x0c {
        out.push(0x5c);
        out.push(0x66);
    } else if b == 0x0a {
        out.push(0x5c);
        out.push(0x6e);
    } else if b == 0x0d {
        out.push(0x5c);
        out.push(0x72);
    } else if b == 0x09 {
        out.push(0x5c);
        out.push(0x74);
    } else if b < 0x20 {
        out.push(0x5c);
        out.push(0x75);
        out.push(0x30);
        out.push(0x30);
        out.push(ascii_hex_digit_exec(b / 16));
        out.push(ascii_hex_digit_exec(b % 16));
    } else {
        out.push(b);
    }
    assert(final(out)@ =~= old(out)@ + json_escape_byte(b));
}

/// Appends `text` as a JSON string literal.
fn push_json_string(out: &mut Vec<u8>, text: &str)
    ensures
        final(out)@ == old(out)@ + json_string(text@),
{
    let bytes = text.as_bytes();
    out.push(0x22);
    let mut i: usize = 0;
    while i < bytes.len()
        invariant
            i <= bytes@.len(),
            bytes@ == encode_utf8(text@),
            out@ == old(out)@ + seq![0x22u8] + json_escape(bytes@.subrange(0, i as int)),
        decreases bytes@.len() - i,
    {
        push_json_escaped_byte(out, bytes[i]);
        assert(bytes@.subrange(0, i + 1).drop_last() =~= bytes@.subrange(0, i as int));
        i = i + 1;
        assert(out@ =~= old(out)@ + seq![0x22u8] + json_escape(bytes@.subrange(0, i as int)));
    }
    assert(bytes@.subrange(0, i as int) =~= bytes@);
    out.push(0x22);
    assert(final(out)@ =~= old(out)@ + json_string(text@));
}

/// Appends the decimal digits of `n`.
fn push_decimal(out: &mut Vec<u8>, n: u64)
    ensures
        final(out)@ == old(out)@ + decimal(n as nat),
    decreases n,
{
    if n >= 10 {
        push_decimal(out, n / 10);
    }
    out.push((n % 10) as u8 + 48);
    assert(final(out)@ =~= old(out)@ + decimal(n as nat));
}

/// The canonical JSON bytes that an authorization's object hash is computed over.
pub fn authorization_binding_json(auth: &DeletionAuthorization) -> (out: Vec<u8>)
    ensures
        out@ == binding_json(*auth),
{
    let mut out: Vec<u8> = Vec::new();
    push_text(&mut out, "{\"permit_id\":");
    push_json_string(&mut out, auth.permit_id.as_str());
    push_text(&mut out, ",\"actor_id\":");
    push_json_string(&mut out, auth.actor_id.as_str());
    push_text(&mut out, ",\"action\":");
    push_json_string(&mut out, auth.action.as_str());
    push_text(&mut out, ",\"evidence_id\":");
    push_json_string(&mut out, auth.evidence_id.as_str());
    push_text(&mut out, ",\"evidence_hash\":");
    push_json_string(&mut out, auth.evidence_hash.as_str());
    push_text(&mut out, ",\"policy_hash\":");
    push_json_string(&mut out, auth.policy_hash.as_str());
    push_text(&mut out, ",\"expires_at_unix\":");
    push_decimal(&mut out, auth.expires_at_unix);
    push_text(&mut out, ",\"authority_effect\":");
    push_json_string(&mut out, auth.authority_effect.as_str());
    push_text(&mut out, "}");
    assert(out@ =~= binding_json(*auth));
    out
}

/// The object hash that binds an authorization: SHA-256 hex of its canonical binding.
pub fn authorization_object_hash(auth: &DeletionAuthorization) -> (h: String)
    ensures
        h@ == spec_authorization_object_hash(*auth),
        h@.len() == 64,
{
    let canonical = authorization_binding_json(auth);
    sha256_hex(canonical.as_slice())
}

} // verus!
