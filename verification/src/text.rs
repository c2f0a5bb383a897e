//! Text helpers shared by the statement builder: decimal rendering of
//! integers and lexicographic ordering of column names.

use vstd::prelude::*;

verus! {

use vstd::string::StringSliceAdditionalSpecFns;

/// The decimal digit character for `d` (0 through 9).
pub open spec fn dec_char(d: int) -> char {
    if d == 0 {
        '0'
    } else if d == 1 {
        '1'
    } else if d == 2 {
        '2'
    } else if d == 3 {
        '3'
    } else if d == 4 {
        '4'
    } else if d == 5 {
        '5'
    } else if d == 6 {
        '6'
    } else if d == 7 {
        '7'
    } else if d == 8 {
        '8'
    } else {
        '9'
    }
}

/// The decimal rendering of a nonnegative integer, most significant digit
/// first, without sign or padding.
pub open spec fn dec_str(n: nat) -> Seq<char>
    decreases n,
{
    if n < 10 {
        seq![dec_char(n as int)]
    } else {
        dec_str(n / 10).push(dec_char((n % 10) as int))
    }
}

/// The decimal rendering of an integer, with a leading minus sign when it is
/// negative.
pub open spec fn int_dec_str(i: int) -> Seq<char> {
    if i >= 0 {
        dec_str(i as nat)
    } else {
        seq!['-'] + dec_str((-i) as nat)
    }
}

fn digit_str(d: u128) -> (r: &'static str)
    requires
        d < 10,
    ensures
        r@ == seq![dec_char(d as int)],
{
    proof {
        reveal_strlit("0");
        reveal_strlit("1");
        reveal_strlit("2");
        reveal_strlit("3");
        reveal_strlit("4");
        reveal_strlit("5");
        reveal_strlit("6");
        reveal_strlit("7");
        reveal_strlit("8");
        reveal_strlit("9");
    }
    let r: &'static str = match d {
        0 => "0",
        1 => "1",
        2 => "2",
        3 => "3",
        4 => "4",
        5 => "5",
        6 => "6",
        7 => "7",
        8 => "8",
        _ => "9",
    };
    proof {
        assert(r@ =~= seq![dec_char(d as int)]);
    }
    r
}

/// Renders `n` in decimal.
pub fn u128_dec(n: u128) -> (s: String)
    ensures
        s@ == dec_str(n as nat),
    decreases n,
{
    if n < 10 {
        digit_str(n).to_owned()
    } else {
        let mut s = u128_dec(n / 10);
        s.append(digit_str(n % 10));
        proof {
            assert(s@ =~= dec_str(n as nat));
        }
        s
    }
}

/// Renders `i` in decimal, with a minus sign when it is negative.
pub fn i64_dec(i: i64) -> (s: String)
    ensures
        s@ == int_dec_str(i as int),
{
    if i >= 0 {
        u128_dec(i as u128)
    } else {
        let mag: u128 = (-(i as i128)) as u128;
        let mut s = String::new();
        proof {
            reveal_strlit("-");
        }
        s.append("-");
        let digits = u128_dec(mag);
        s.append(digits.as_str());
        proof {
            assert(s@ =~= int_dec_str(i as int));
        }
        s
    }
}

/// Renders `i` in decimal, with a minus sign when it is negative.
pub fn i32_dec(i: i32) -> (s: String)
    ensures
        s@ == int_dec_str(i as int),
{
    i64_dec(i as i64)
}

/// Strict lexicographic order on byte sequences. Column names are ordered by
/// the bytes of their UTF-8 encoding, as Rust orders `str` values.
pub open spec fn lex_lt(a: Seq<u8>, b: Seq<u8>) -> bool
    decreases a.len(),
{
    if b.len() == 0 {
        false
    } else if a.len() == 0 {
        true
    } else if a[0] != b[0] {
        a[0] < b[0]
    } else {
        lex_lt(a.skip(1), b.skip(1))
    }
}

/// Two sequences neither of which precedes the other are equal.
pub proof fn lemma_lex_connected(a: Seq<u8>, b: Seq<u8>)
    ensures
        !lex_lt(a, b) && !lex_lt(b, a) ==> a == b,
    decreases a.len(),
{
    if !lex_lt(a, b) && !lex_lt(b, a) {
        if a.len() == 0 || b.len() == 0 {
            assert(a =~= b);
        } else {
            lemma_lex_connected(a.skip(1), b.skip(1));
            assert(a.skip(1) == b.skip(1));
            assert(a.len() == a.skip(1).len() + 1);
            assert(b.len() == b.skip(1).len() + 1);
            assert(a =~= b) by {
                assert(forall|i: int|
                    1 <= i < a.len() ==> #[trigger] a[i] == a.skip(1)[i - 1]);
                assert(forall|i: int|
                    1 <= i < b.len() ==> #[trigger] b[i] == b.skip(1)[i - 1]);
            }
        }
    }
}

/// Lexicographic order is irreflexive.
pub proof fn lemma_lex_irrefl(a: Seq<u8>)
    ensures
        !lex_lt(a, a),
    decreases a.len(),
{
    if a.len() > 0 {
        lemma_lex_irrefl(a.skip(1));
    }
}

/// Lexicographic order is transitive.
pub proof fn lemma_lex_trans(a: Seq<u8>, b: Seq<u8>, c: Seq<u8>)
    requires
        lex_lt(a, b),
        lex_lt(b, c),
    ensures
        lex_lt(a, c),
    decreases a.len() + b.len() + c.len(),
{
    if c.len() == 0 {
        // lex_lt(b, c) is impossible
    } else if b.len() == 0 {
        // lex_lt(a, b) is impossible
    } else if a.len() == 0 {
        // lex_lt(a, c) holds outright
    } else if a[0] == b[0] && b[0] == c[0] {
        lemma_lex_trans(a.skip(1), b.skip(1), c.skip(1));
    }
}

/// Lexicographic order is asymmetric.
pub proof fn lemma_lex_asym(a: Seq<u8>, b: Seq<u8>)
    ensures
        !(lex_lt(a, b) && lex_lt(b, a)),
{
    if lex_lt(a, b) && lex_lt(b, a) {
        lemma_lex_trans(a, b, a);
        lemma_lex_irrefl(a);
    }
}

/// Decides lexicographic order on the UTF-8 bytes of two strings.
pub fn str_lex_lt(a: &str, b: &str) -> (r: bool)
    ensures
        r == lex_lt(a.spec_bytes(), b.spec_bytes()),
{
    let ab = a.as_bytes();
    let bb = b.as_bytes();
    let alen = ab.len();
    let blen = bb.len();
    let mut i: usize = 0;
    proof {
        assert(ab@.skip(0) =~= ab@);
        assert(bb@.skip(0) =~= bb@);
    }
    loop
        invariant
            i <= alen,
            i <= blen,
            alen == ab@.len(),
            blen == bb@.len(),
            ab@ == a.spec_bytes(),
            bb@ == b.spec_bytes(),
            lex_lt(ab@, bb@) == lex_lt(ab@.skip(i as int), bb@.skip(i as int)),
        decreases alen - i,
    {
        if i >= blen {
            proof {
                assert(bb@.skip(i as int).len() == 0);
            }
            return false;
        }
        if i >= alen {
            proof {
                assert(ab@.skip(i as int).len() == 0);
            }
            return true;
        }
        let ca = ab[i];
        let cb = bb[i];
        proof {
            assert(ab@.skip(i as int)[0] == ab@[i as int]);
            assert(bb@.skip(i as int)[0] == bb@[i as int]);
        }
        if ca != cb {
            return ca < cb;
        }
        proof {
            assert(ab@.skip(i as int).skip(1) =~= ab@.skip(i as int + 1));
            assert(bb@.skip(i as int).skip(1) =~= bb@.skip(i as int + 1));
        }
        i += 1;
    }
}

/// Decides whether two strings have the same UTF-8 bytes, which is the same
/// as being equal as strings.
pub fn str_bytes_eq(a: &str, b: &str) -> (r: bool)
    ensures
        r == (a.spec_bytes() == b.spec_bytes()),
{
    let lt = str_lex_lt(a, b);
    let gt = str_lex_lt(b, a);
    proof {
        lemma_lex_connected(a.spec_bytes(), b.spec_bytes());
        lemma_lex_irrefl(a.spec_bytes());
        if a.spec_bytes() == b.spec_bytes() {
            assert(!lex_lt(a.spec_bytes(), b.spec_bytes()));
            assert(!lex_lt(b.spec_bytes(), a.spec_bytes()));
        }
    }
    !lt && !gt
}

/// The hexadecimal digit character for `d` (0 through 15), lower case.
pub open spec fn hex_char(d: int) -> char {
    if d == 0 {
        '0'
    } else if d == 1 {
        '1'
    } else if d == 2 {
        '2'
    } else if d == 3 {
        '3'
    } else if d == 4 {
        '4'
    } else if d == 5 {
        '5'
    } else if d == 6 {
        '6'
    } else if d == 7 {
        '7'
    } else if d == 8 {
        '8'
    } else if d == 9 {
        '9'
    } else if d == 10 {
        'a'
    } else if d == 11 {
        'b'
    } else if d == 12 {
        'c'
    } else if d == 13 {
        'd'
    } else if d == 14 {
        'e'
    } else {
        'f'
    }
}

/// The hexadecimal rendering of `n` in exactly `width` digits, most
/// significant first, zero padded.
pub open spec fn hex_fixed(n: nat, width: nat) -> Seq<char>
    decreases width,
{
    if width == 0 {
        Seq::empty()
    } else {
        hex_fixed(n / 16, (width - 1) as nat).push(hex_char((n % 16) as int))
    }
}

/// The canonical hyphenated form of a 128-bit identifier: five groups of
/// 8, 4, 4, 4 and 12 hexadecimal digits.
pub open spec fn uuid_text(u: nat) -> Seq<char> {
    hex_fixed(u / 0x1000000000000000000000000, 8) + seq!['-'] + hex_fixed(
        (u / 0x100000000000000000000) % 0x10000,
        4,
    ) + seq!['-'] + hex_fixed((u / 0x10000000000000000) % 0x10000, 4) + seq!['-'] + hex_fixed(
        (u / 0x1000000000000) % 0x10000,
        4,
    ) + seq!['-'] + hex_fixed(u % 0x1000000000000, 12)
}

fn hex_digit_str(d: u128) -> (r: &'static str)
    requires
        d < 16,
    ensures
        r@ == seq![hex_char(d as int)],
{
    proof {
        reveal_strlit("0");
        reveal_strlit("1");
        reveal_strlit("2");
        reveal_strlit("3");
        reveal_strlit("4");
        reveal_strlit("5");
        reveal_strlit("6");
        reveal_strlit("7");
        reveal_strlit("8");
        reveal_strlit("9");
        reveal_strlit("a");
        reveal_strlit("b");
        reveal_strlit("c");
        reveal_strlit("d");
        reveal_strlit("e");
        reveal_strlit("f");
    }
    let r: &'static str = match d {
        0 => "0",
        1 => "1",
        2 => "2",
        3 => "3",
        4 => "4",
        5 => "5",
        6 => "6",
        7 => "7",
        8 => "8",
        9 => "9",
        10 => "a",
        11 => "b",
        12 => "c",
        13 => "d",
        14 => "e",
        _ => "f",
    };
    proof {
        assert(r@ =~= seq![hex_char(d as int)]);
    }
    r
}

/// Renders `n` in hexadecimal, in exactly `width` digits, zero padded.
pub fn u128_hex_fixed(n: u128, width: u32) -> (s: String)
    ensures
        s@ == hex_fixed(n as nat, width as nat),
    decreases width,
{
    if width == 0 {
        String::new()
    } else {
        let mut s = u128_hex_fixed(n / 16, width - 1);
        s.append(hex_digit_str(n % 16));
        proof {
            assert(s@ =~= hex_fixed(n as nat, width as nat));
        }
        s
    }
}

/// Renders a 128-bit identifier in its canonical hyphenated form.
pub fn uuid_str(u: u128) -> (s: String)
    ensures
        s@ == uuid_text(u as nat),
{
    proof {
        reveal_strlit("-");
    }
    let mut s = u128_hex_fixed(u / 0x1000000000000000000000000, 8);
    s.append("-");
    let g2 = u128_hex_fixed((u / 0x100000000000000000000) % 0x10000, 4);
    s.append(g2.as_str());
    s.append("-");
    let g3 = u128_hex_fixed((u / 0x10000000000000000) % 0x10000, 4);
    s.append(g3.as_str());
    s.append("-");
    let g4 = u128_hex_fixed((u / 0x1000000000000) % 0x10000, 4);
    s.append(g4.as_str());
    s.append("-");
    let g5 = u128_hex_fixed(u % 0x1000000000000, 12);
    s.append(g5.as_str());
    proof {
        assert("-"@ =~= seq!['-']);
        assert(s@ =~= uuid_text(u as nat));
    }
    s
}

/// Decides whether two strings are equal as character sequences.
pub fn str_eq(a: &str, b: &str) -> (r: bool)
    ensures
        r == (a@ == b@),
{
    let ao = a.to_owned();
    let bo = b.to_owned();
    ao == bo
}

} // verus!
