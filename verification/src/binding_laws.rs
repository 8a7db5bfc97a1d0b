use vstd::prelude::*;
use vstd::utf8::encode_utf8;

use crate::authorization::DeletionAuthorization;
use crate::binding::{
    ascii_hex_digit, binding_json, decimal, json_escape, json_escape_byte, json_string,
    spec_authorization_object_hash,
};
use crate::digest::sha256_digest;
use crate::executor::refusal;
use crate::hex::lemma_hex_lower_injective;
use crate::state::RetentionState;
use crate::text::lemma_same_text_iff_same_bytes;

verus! {

/// The byte that a two-byte JSON escape `\c` stands for.
pub open spec fn unescaped_byte(c: u8) -> u8 {
    if c == 0x62 {
        0x08
    } else if c == 0x66 {
        0x0c
    } else if c == 0x6e {
        0x0a
    } else if c == 0x72 {
        0x0d
    } else if c == 0x74 {
        0x09
    } else {
        c
    }
}

/// The value of an ASCII hexadecimal digit.
pub open spec fn hex_digit_value(c: u8) -> int {
    if 48 <= c <= 57 {
        c - 48
    } else {
        c - 87
    }
}

/// Reads the contents of a JSON string literal whose opening quote has been consumed:
/// the unescaped bytes up to the closing quote, and what follows that quote.
pub open spec fn read_json_string_body(s: Seq<u8>) -> Option<(Seq<u8>, Seq<u8>)>
    decreases s.len(),
{
    if s.len() == 0 {
        None
    } else if s[0] == 0x22 {
        Some((Seq::empty(), s.drop_first()))
    } else {
        let width: int = if s[0] != 0x5c {
            1
        } else if s.len() >= 6 && s[1] == 0x75 {
            6
        } else if s.len() >= 2 {
            2
        } else {
            1
        };
        let unit: u8 = if s[0] != 0x5c {
            s[0]
        } else if s.len() >= 6 && s[1] == 0x75 {
            (hex_digit_value(s[4]) * 16 + hex_digit_value(s[5])) as u8
        } else if s.len() >= 2 {
            unescaped_byte(s[1])
        } else {
            s[0]
        };
        match read_json_string_body(s.subrange(width, s.len() as int)) {
            Some(parsed) => Some((seq![unit] + parsed.0, parsed.1)),
            None => None,
        }
    }
}

/// Escaping distributes over concatenation.
pub proof fn lemma_json_escape_append(x: Seq<u8>, y: Seq<u8>)
    ensures
        json_escape(x + y) == json_escape(x) + json_escape(y),
    decreases y.len(),
{
    if y.len() == 0 {
        assert(x + y =~= x);
        assert(json_escape(x) + json_escape(y) =~= json_escape(x));
    } else {
        assert((x + y).drop_last() =~= x + y.drop_last());
        assert((x + y).last() == y.last());
        lemma_json_escape_append(x, y.drop_last());
        assert(json_escape(x + y) =~= json_escape(x) + json_escape(y));
    }
}

proof fn lemma_hex_digit_value(n: u8)
    requires
        n < 16,
    ensures
        hex_digit_value(ascii_hex_digit(n)) == n,
{
}

/// Reading back escaped bytes followed by a closing quote gives the bytes and the rest.
pub proof fn lemma_read_escaped(x: Seq<u8>, rest: Seq<u8>)
    ensures
        read_json_string_body(json_escape(x) + seq![0x22u8] + rest) == Some((x, rest)),
    decreases x.len(),
{
    let s = json_escape(x) + seq![0x22u8] + rest;
    if x.len() == 0 {
        assert(s =~= seq![0x22u8] + rest);
        assert(s.drop_first() =~= rest);
    } else {
        let b = x[0];
        let tail = x.drop_first();
        assert(x =~= seq![b] + tail);
        lemma_json_escape_append(seq![b], tail);
        assert(seq![b].drop_last() == Seq::<u8>::empty());
        assert(json_escape(Seq::<u8>::empty()) == Seq::<u8>::empty());
        assert(json_escape(seq![b]) =~= json_escape_byte(b));
        let e = json_escape_byte(b);
        let t = json_escape(tail) + seq![0x22u8] + rest;
        assert(s =~= e + t);
        lemma_read_escaped(tail, rest);
        assert(s.subrange(e.len() as int, s.len() as int) =~= t);
        if b < 0x20 && b != 0x08 && b != 0x0c && b != 0x0a && b != 0x0d && b != 0x09 {
            lemma_hex_digit_value(b / 16);
            lemma_hex_digit_value(b % 16);
            assert(hex_digit_value(s[4]) * 16 + hex_digit_value(s[5]) == b);
        }
        let parsed = read_json_string_body(s).unwrap();
        assert(parsed.0 =~= x);
    }
}

/// A JSON string literal at the front of a byte sequence determines its text and what follows.
pub proof fn lemma_json_string_prefix(t1: Seq<char>, r1: Seq<u8>, t2: Seq<char>, r2: Seq<u8>)
    requires
        json_string(t1) + r1 == json_string(t2) + r2,
    ensures
        t1 == t2,
        r1 == r2,
{
    let s1 = json_string(t1) + r1;
    let s2 = json_string(t2) + r2;
    assert(s1.drop_first() =~= json_escape(encode_utf8(t1)) + seq![0x22u8] + r1);
    assert(s2.drop_first() =~= json_escape(encode_utf8(t2)) + seq![0x22u8] + r2);
    lemma_read_escaped(encode_utf8(t1), r1);
    lemma_read_escaped(encode_utf8(t2), r2);
    lemma_same_text_iff_same_bytes(t1, t2);
}

/// An ASCII decimal digit.
pub open spec fn is_decimal_digit(b: u8) -> bool {
    48 <= b <= 57
}

/// The number that a sequence of decimal digits denotes.
pub open spec fn digits_value(s: Seq<u8>) -> int
    decreases s.len(),
{
    if s.len() == 0 {
        0
    } else {
        digits_value(s.drop_last()) * 10 + (s.last() - 48)
    }
}

/// Decimal text is a non-empty run of digits that denotes the number.
pub proof fn lemma_decimal(n: nat)
    ensures
        decimal(n).len() > 0,
        forall|i: int| 0 <= i < decimal(n).len() ==> is_decimal_digit(#[trigger] decimal(n)[i]),
        digits_value(decimal(n)) == n,
    decreases n,
{
    let d = decimal(n);
    if n >= 10 {
        lemma_decimal(n / 10);
        assert(d.drop_last() =~= decimal(n / 10));
        assert(d.last() == (48 + n % 10) as u8);
        assert(d.last() - 48 == n % 10);
        assert(digits_value(d) == digits_value(decimal(n / 10)) * 10 + (d.last() - 48));
        assert((n / 10) * 10 + n % 10 == n);
    } else {
        assert(d.drop_last() == Seq::<u8>::empty());
        assert(digits_value(Seq::<u8>::empty()) == 0);
    }
}

/// Two numbers written in decimal and each followed by a non-digit byte: the numbers and
/// what follows them are equal when the whole sequences are.
pub proof fn lemma_decimal_prefix(n1: nat, r1: Seq<u8>, n2: nat, r2: Seq<u8>)
    requires
        decimal(n1) + r1 == decimal(n2) + r2,
        r1.len() > 0,
        !is_decimal_digit(r1[0]),
        r2.len() > 0,
        !is_decimal_digit(r2[0]),
    ensures
        n1 == n2,
        r1 == r2,
{
    lemma_decimal(n1);
    lemma_decimal(n2);
    let d1 = decimal(n1);
    let d2 = decimal(n2);
    let s = d1 + r1;
    if d1.len() < d2.len() {
        assert(s[d1.len() as int] == r1[0]);
        assert(s[d1.len() as int] == d2[d1.len() as int]);
    } else if d2.len() < d1.len() {
        assert(s[d2.len() as int] == d1[d2.len() as int]);
        assert((d2 + r2)[d2.len() as int] == r2[0]);
    }
    assert(d1 =~= s.subrange(0, d1.len() as int));
    assert(d2 =~= (d2 + r2).subrange(0, d2.len() as int));
    assert(r1 =~= s.subrange(d1.len() as int, s.len() as int));
    assert(r2 =~= (d2 + r2).subrange(d2.len() as int, s.len() as int));
}

proof fn lemma_common_prefix(p: Seq<u8>, x: Seq<u8>, y: Seq<u8>)
    requires
        p + x == p + y,
    ensures
        x == y,
{
    assert(x =~= (p + x).subrange(p.len() as int, (p + x).len() as int));
    assert(y =~= (p + y).subrange(p.len() as int, (p + y).len() as int));
}

proof fn lemma_authority_key_starts_with_comma()
    ensures
        encode_utf8(",\"authority_effect\":"@).len() > 0,
        encode_utf8(",\"authority_effect\":"@)[0] == 0x2cu8,
{
    reveal_strlit(",\"authority_effect\":");
    let c = ",\"authority_effect\":"@;
    assert(c[0] == ',');
    assert(encode_utf8(c) == vstd::utf8::encode_scalar(c[0] as u32) + encode_utf8(c.drop_first()));
    assert((',' as u32) == 44u32);
    assert(((44u32 & 0x7Fu32) as u8) == 0x2cu8) by (bit_vector);
    assert(vstd::utf8::encode_scalar(44u32) =~= seq![0x2cu8]);
}

/// Regrouping the nine keys and eight values of a binding from the left to the right.
proof fn lemma_regroup(
    k0: Seq<u8>,
    s1: Seq<u8>,
    k1: Seq<u8>,
    s2: Seq<u8>,
    k2: Seq<u8>,
    s3: Seq<u8>,
    k3: Seq<u8>,
    s4: Seq<u8>,
    k4: Seq<u8>,
    s5: Seq<u8>,
    k5: Seq<u8>,
    s6: Seq<u8>,
    k6: Seq<u8>,
    n: Seq<u8>,
    k7: Seq<u8>,
    s8: Seq<u8>,
    k8: Seq<u8>,
)
    ensures
        ({
            let t16 = k8;
            let t15 = s8 + t16;
            let t14 = k7 + t15;
            let t13 = n + t14;
            let t12 = k6 + t13;
            let t11 = s6 + t12;
            let t10 = k5 + t11;
            let t9 = s5 + t10;
            let t8 = k4 + t9;
            let t7 = s4 + t8;
            let t6 = k3 + t7;
            let t5 = s3 + t6;
            let t4 = k2 + t5;
            let t3 = s2 + t4;
            let t2 = k1 + t3;
            let t1 = s1 + t2;
            k0 + s1 + k1 + s2 + k2 + s3 + k3 + s4 + k4 + s5 + k5 + s6 + k6 + n + k7 + s8 + k8 == k0 + t1
        }),
{
    let r16 = k8;
    let r15 = s8 + r16;
    let r14 = k7 + r15;
    let r13 = n + r14;
    let r12 = k6 + r13;
    let r11 = s6 + r12;
    let r10 = k5 + r11;
    let r9 = s5 + r10;
    let r8 = k4 + r9;
    let r7 = s4 + r8;
    let r6 = k3 + r7;
    let r5 = s3 + r6;
    let r4 = k2 + r5;
    let r3 = s2 + r4;
    let r2 = k1 + r3;
    let r1 = s1 + r2;
    let r0 = k0 + r1;
    let l0 = k0;
    let l1 = l0 + s1;
    let l2 = l1 + k1;
    let l3 = l2 + s2;
    let l4 = l3 + k2;
    let l5 = l4 + s3;
    let l6 = l5 + k3;
    let l7 = l6 + s4;
    let l8 = l7 + k4;
    let l9 = l8 + s5;
    let l10 = l9 + k5;
    let l11 = l10 + s6;
    let l12 = l11 + k6;
    let l13 = l12 + n;
    let l14 = l13 + k7;
    let l15 = l14 + s8;
    let l16 = l15 + k8;
    assert(l16 == l15 + r16);
    assert(l15 + r16 == l14 + r15) by { assert((l14 + s8) + r16 =~= l14 + (s8 + r16)); }
    assert(l14 + r15 == l13 + r14) by { assert((l13 + k7) + r15 =~= l13 + (k7 + r15)); }
    assert(l13 + r14 == l12 + r13) by { assert((l12 + n) + r14 =~= l12 + (n + r14)); }
    assert(l12 + r13 == l11 + r12) by { assert((l11 + k6) + r13 =~= l11 + (k6 + r13)); }
    assert(l11 + r12 == l10 + r11) by { assert((l10 + s6) + r12 =~= l10 + (s6 + r12)); }
    assert(l10 + r11 == l9 + r10) by { assert((l9 + k5) + r11 =~= l9 + (k5 + r11)); }
    assert(l9 + r10 == l8 + r9) by { assert((l8 + s5) + r10 =~= l8 + (s5 + r10)); }
    assert(l8 + r9 == l7 + r8) by { assert((l7 + k4) + r9 =~= l7 + (k4 + r9)); }
    assert(l7 + r8 == l6 + r7) by { assert((l6 + s4) + r8 =~= l6 + (s4 + r8)); }
    assert(l6 + r7 == l5 + r6) by { assert((l5 + k3) + r7 =~= l5 + (k3 + r7)); }
    assert(l5 + r6 == l4 + r5) by { assert((l4 + s3) + r6 =~= l4 + (s3 + r6)); }
    assert(l4 + r5 == l3 + r4) by { assert((l3 + k2) + r5 =~= l3 + (k2 + r5)); }
    assert(l3 + r4 == l2 + r3) by { assert((l2 + s2) + r4 =~= l2 + (s2 + r4)); }
    assert(l2 + r3 == l1 + r2) by { assert((l1 + k1) + r3 =~= l1 + (k1 + r3)); }
    assert(l1 + r2 == l0 + r1) by { assert((l0 + s1) + r2 =~= l0 + (s1 + r2)); }
}

/// Every field that an authorization's object hash covers is determined by the canonical
/// binding: two authorizations with the same binding agree on all of them.
pub proof fn law_binding_determines_bound_fields(a: DeletionAuthorization, b: DeletionAuthorization)
    requires
        binding_json(a) == binding_json(b),
    ensures
        a.permit_id@ == b.permit_id@,
        a.actor_id@ == b.actor_id@,
        a.action@ == b.action@,
        a.evidence_id@ == b.evidence_id@,
        a.evidence_hash@ == b.evidence_hash@,
        a.policy_hash@ == b.policy_hash@,
        a.expires_at_unix == b.expires_at_unix,
        a.authority_effect@ == b.authority_effect@,
{
    let k0 = encode_utf8("{\"permit_id\":"@);
    let k1 = encode_utf8(",\"actor_id\":"@);
    let k2 = encode_utf8(",\"action\":"@);
    let k3 = encode_utf8(",\"evidence_id\":"@);
    let k4 = encode_utf8(",\"evidence_hash\":"@);
    let k5 = encode_utf8(",\"policy_hash\":"@);
    let k6 = encode_utf8(",\"expires_at_unix\":"@);
    let k7 = encode_utf8(",\"authority_effect\":"@);
    let k8 = encode_utf8("}"@);
    let ta7 = json_string(a.authority_effect@) + k8;
    let tb7 = json_string(b.authority_effect@) + k8;
    let ta6 = decimal(a.expires_at_unix as nat) + (k7 + ta7);
    let tb6 = decimal(b.expires_at_unix as nat) + (k7 + tb7);
    let ta5 = json_string(a.policy_hash@) + (k6 + ta6);
    let tb5 = json_string(b.policy_hash@) + (k6 + tb6);
    let ta4 = json_string(a.evidence_hash@) + (k5 + ta5);
    let tb4 = json_string(b.evidence_hash@) + (k5 + tb5);
    let ta3 = json_string(a.evidence_id@) + (k4 + ta4);
    let tb3 = json_string(b.evidence_id@) + (k4 + tb4);
    let ta2 = json_string(a.action@) + (k3 + ta3);
    let tb2 = json_string(b.action@) + (k3 + tb3);
    let ta1 = json_string(a.actor_id@) + (k2 + ta2);
    let tb1 = json_string(b.actor_id@) + (k2 + tb2);
    let ta0 = json_string(a.permit_id@) + (k1 + ta1);
    let tb0 = json_string(b.permit_id@) + (k1 + tb1);
    lemma_regroup(
        k0, json_string(a.permit_id@), k1, json_string(a.actor_id@), k2, json_string(a.action@), k3,
        json_string(a.evidence_id@), k4, json_string(a.evidence_hash@), k5, json_string(a.policy_hash@),
        k6, decimal(a.expires_at_unix as nat), k7, json_string(a.authority_effect@), k8,
    );
    lemma_regroup(
        k0, json_string(b.permit_id@), k1, json_string(b.actor_id@), k2, json_string(b.action@), k3,
        json_string(b.evidence_id@), k4, json_string(b.evidence_hash@), k5, json_string(b.policy_hash@),
        k6, decimal(b.expires_at_unix as nat), k7, json_string(b.authority_effect@), k8,
    );
    assert(binding_json(a) == k0 + ta0);
    assert(binding_json(b) == k0 + tb0);
    lemma_common_prefix(k0, ta0, tb0);
    lemma_json_string_prefix(a.permit_id@, k1 + ta1, b.permit_id@, k1 + tb1);
    lemma_common_prefix(k1, ta1, tb1);
    lemma_json_string_prefix(a.actor_id@, k2 + ta2, b.actor_id@, k2 + tb2);
    lemma_common_prefix(k2, ta2, tb2);
    lemma_json_string_prefix(a.action@, k3 + ta3, b.action@, k3 + tb3);
    lemma_common_prefix(k3, ta3, tb3);
    lemma_json_string_prefix(a.evidence_id@, k4 + ta4, b.evidence_id@, k4 + tb4);
    lemma_common_prefix(k4, ta4, tb4);
    lemma_json_string_prefix(a.evidence_hash@, k5 + ta5, b.evidence_hash@, k5 + tb5);
    lemma_common_prefix(k5, ta5, tb5);
    lemma_json_string_prefix(a.policy_hash@, k6 + ta6, b.policy_hash@, k6 + tb6);
    lemma_common_prefix(k6, ta6, tb6);
    lemma_authority_key_starts_with_comma();
    assert((k7 + ta7)[0] == 0x2cu8);
    assert((k7 + tb7)[0] == 0x2cu8);
    lemma_decimal_prefix(a.expires_at_unix as nat, k7 + ta7, b.expires_at_unix as nat, k7 + tb7);
    lemma_common_prefix(k7, ta7, tb7);
    lemma_json_string_prefix(a.authority_effect@, k8, b.authority_effect@, k8);
}

/// Do two authorizations agree on every field that the object hash covers?
pub open spec fn bound_fields_agree(a: DeletionAuthorization, b: DeletionAuthorization) -> bool {
    &&& a.permit_id@ == b.permit_id@
    &&& a.actor_id@ == b.actor_id@
    &&& a.action@ == b.action@
    &&& a.evidence_id@ == b.evidence_id@
    &&& a.evidence_hash@ == b.evidence_hash@
    &&& a.policy_hash@ == b.policy_hash@
    &&& a.expires_at_unix == b.expires_at_unix
    &&& a.authority_effect@ == b.authority_effect@
}

/// An authorization altered in any bound field while it keeps the object hash issued for
/// the original is authorized only if SHA-256 maps the two different canonical bindings
/// to the same digest.
pub proof fn law_object_hash_substitution_needs_collision(
    state: RetentionState,
    path_id: Seq<char>,
    issued: DeletionAuthorization,
    presented: DeletionAuthorization,
    now_unix: u64,
)
    requires
        issued.object_hash@ == spec_authorization_object_hash(issued),
        presented.object_hash@ == issued.object_hash@,
        !bound_fields_agree(issued, presented),
        refusal(state, path_id, presented, now_unix) is None,
    ensures
        binding_json(presented) != binding_json(issued),
        sha256_digest(binding_json(presented)) == sha256_digest(binding_json(issued)),
{
    if binding_json(presented) == binding_json(issued) {
        law_binding_determines_bound_fields(presented, issued);
    }
    lemma_hex_lower_injective(sha256_digest(binding_json(presented)), sha256_digest(binding_json(issued)));
}

/// A byte that a JSON string holds as it is: neither a quote, nor a backslash, nor a
/// control byte below 0x20.
pub open spec fn is_plain_json_byte(b: u8) -> bool {
    0x20 <= b && b != 0x22 && b != 0x5c
}

/// Inside a JSON string, bytes that are neither quote, backslash nor control bytes are
/// written unchanged: text made only of such bytes is its own escaping, whatever its length.
pub proof fn law_plain_bytes_are_written_unchanged(x: Seq<u8>)
    requires
        forall|i: int| 0 <= i < x.len() ==> is_plain_json_byte(#[trigger] x[i]),
    ensures
        json_escape(x) == x,
    decreases x.len(),
{
    if x.len() > 0 {
        law_plain_bytes_are_written_unchanged(x.drop_last());
        assert(json_escape_byte(x.last()) =~= seq![x.last()]);
        assert(x =~= x.drop_last().push(x.last()));
    }
}

/// Escaping only ever lengthens: every input byte yields at least one output byte, and a
/// plain byte yields exactly itself.
pub proof fn law_escape_of_one_byte(b: u8)
    ensures
        json_escape_byte(b).len() >= 1,
        is_plain_json_byte(b) ==> json_escape_byte(b) == seq![b],
        !is_plain_json_byte(b) ==> json_escape_byte(b)[0] == 0x5cu8,
{
    if is_plain_json_byte(b) {
        assert(json_escape_byte(b) =~= seq![b]);
    }
}

} // verus!
