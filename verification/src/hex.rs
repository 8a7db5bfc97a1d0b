use vstd::prelude::*;

verus! {

/// The lower-case hexadecimal digit for a nibble.
pub open spec fn hex_digit_char(n: u8) -> char
    recommends
        n < 16,
{
    seq!['0', '1', '2', '3', '4', '5', '6', '7', '8', '9', 'a', 'b', 'c', 'd', 'e', 'f'][n as int]
}

/// Lower-case hexadecimal text of a byte sequence: two digits per byte, high nibble first.
pub open spec fn hex_lower(bytes: Seq<u8>) -> Seq<char>
    decreases bytes.len(),
{
    if bytes.len() == 0 {
        Seq::empty()
    } else {
        hex_lower(bytes.drop_last()) + seq![
            hex_digit_char(bytes.last() / 16),
            hex_digit_char(bytes.last() % 16),
        ]
    }
}

/// The nibble that a lower-case hexadecimal digit stands for.
pub open spec fn hex_char_value(c: char) -> u8 {
    if c == '0' { 0 } else if c == '1' { 1 } else if c == '2' { 2 } else if c == '3' { 3 }
    else if c == '4' { 4 } else if c == '5' { 5 } else if c == '6' { 6 } else if c == '7' { 7 }
    else if c == '8' { 8 } else if c == '9' { 9 } else if c == 'a' { 10 } else if c == 'b' { 11 }
    else if c == 'c' { 12 } else if c == 'd' { 13 } else if c == 'e' { 14 } else { 15 }
}

proof fn lemma_hex_char_value(n: u8)
    requires
        n < 16,
    ensures
        hex_char_value(hex_digit_char(n)) == n,
{
    let digits = seq!['0', '1', '2', '3', '4', '5', '6', '7', '8', '9', 'a', 'b', 'c', 'd', 'e', 'f'];
    assert(hex_digit_char(n) == digits[n as int]);
    if n == 0 { assert(digits[0] == '0'); }
    else if n == 1 { assert(digits[1] == '1'); }
    else if n == 2 { assert(digits[2] == '2'); }
    else if n == 3 { assert(digits[3] == '3'); }
    else if n == 4 { assert(digits[4] == '4'); }
    else if n == 5 { assert(digits[5] == '5'); }
    else if n == 6 { assert(digits[6] == '6'); }
    else if n == 7 { assert(digits[7] == '7'); }
    else if n == 8 { assert(digits[8] == '8'); }
    else if n == 9 { assert(digits[9] == '9'); }
    else if n == 10 { assert(digits[10] == 'a'); }
    else if n == 11 { assert(digits[11] == 'b'); }
    else if n == 12 { assert(digits[12] == 'c'); }
    else if n == 13 { assert(digits[13] == 'd'); }
    else if n == 14 { assert(digits[14] == 'e'); }
    else { assert(digits[15] == 'f'); }
}

/// Hex text determines the bytes it encodes.
pub proof fn lemma_hex_lower_injective(x: Seq<u8>, y: Seq<u8>)
    requires
        hex_lower(x) == hex_lower(y),
    ensures
        x == y,
    decreases x.len(),
{
    lemma_hex_lower_len(x);
    lemma_hex_lower_len(y);
    if x.len() > 0 {
        let hx = hex_lower(x);
        let px = hex_lower(x.drop_last());
        let py = hex_lower(y.drop_last());
        lemma_hex_lower_len(x.drop_last());
        lemma_hex_lower_len(y.drop_last());
        assert(hx[px.len() as int] == hex_digit_char(x.last() / 16));
        assert(hx[px.len() as int] == hex_digit_char(y.last() / 16));
        assert(hx[px.len() as int + 1] == hex_digit_char(x.last() % 16));
        assert(hx[px.len() as int + 1] == hex_digit_char(y.last() % 16));
        lemma_hex_char_value(x.last() / 16);
        lemma_hex_char_value(y.last() / 16);
        lemma_hex_char_value(x.last() % 16);
        lemma_hex_char_value(y.last() % 16);
        assert(x.last() == (x.last() / 16) * 16 + x.last() % 16);
        assert(y.last() == (y.last() / 16) * 16 + y.last() % 16);
        assert(px =~= hx.subrange(0, px.len() as int));
        assert(py =~= hx.subrange(0, py.len() as int));
        lemma_hex_lower_injective(x.drop_last(), y.drop_last());
        assert(x =~= x.drop_last().push(x.last()));
        assert(y =~= y.drop_last().push(y.last()));
    }
}

pub proof fn lemma_hex_lower_len(bytes: Seq<u8>)
    ensures
        hex_lower(bytes).len() == 2 * bytes.len(),
    decreases bytes.len(),
{
    if bytes.len() > 0 {
        lemma_hex_lower_len(bytes.drop_last());
    }
}

/// The single-character string for a nibble's hex digit.
fn hex_digit_str(n: u8) -> (s: &'static str)
    requires
        n < 16,
    ensures
        s@ == seq![hex_digit_char(n)],
{
    if n == 0 {
        proof { reveal_strlit("0"); }
        "0"
    } else if n == 1 {
        proof { reveal_strlit("1"); }
        "1"
    } else if n == 2 {
        proof { reveal_strlit("2"); }
        "2"
    } else if n == 3 {
        proof { reveal_strlit("3"); }
        "3"
    } else if n == 4 {
        proof { reveal_strlit("4"); }
        "4"
    } else if n == 5 {
        proof { reveal_strlit("5"); }
        "5"
    } else if n == 6 {
        proof { reveal_strlit("6"); }
        "6"
    } else if n == 7 {
        proof { reveal_strlit("7"); }
        "7"
    } else if n == 8 {
        proof { reveal_strlit("8"); }
        "8"
    } else if n == 9 {
        proof { reveal_strlit("9"); }
        "9"
    } else if n == 10 {
        proof { reveal_strlit("a"); }
        "a"
    } else if n == 11 {
        proof { reveal_strlit("b"); }
        "b"
    } else if n == 12 {
        proof { reveal_strlit("c"); }
        "c"
    } else if n == 13 {
        proof { reveal_strlit("d"); }
        "d"
    } else if n == 14 {
        proof { reveal_strlit("e"); }
        "e"
    } else {
        proof { reveal_strlit("f"); }
        "f"
    }
}

/// Encodes bytes as lower-case hexadecimal text.
pub fn encode_hex_lower(bytes: &[u8]) -> (s: String)
    ensures
        s@ == hex_lower(bytes@),
        s@.len() == 2 * bytes@.len(),
{
    let mut s = String::new();
    let mut i: usize = 0;
    while i < bytes.len()
        invariant
            i <= bytes@.len(),
            s@ == hex_lower(bytes@.subrange(0, i as int)),
        decreases bytes@.len() - i,
    {
        let b = bytes[i];
        s.append(hex_digit_str(b / 16));
        s.append(hex_digit_str(b % 16));
        assert(bytes@.subrange(0, i + 1).drop_last() =~= bytes@.subrange(0, i as int));
        i = i + 1;
    }
    assert(bytes@.subrange(0, i as int) =~= bytes@);
    proof { lemma_hex_lower_len(bytes@); }
    s
}

} // verus!
