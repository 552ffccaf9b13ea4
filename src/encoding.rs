use vstd::prelude::*;

use crate::crypto::push_char;

verus! {

/// The order of the secp256k1 group.
pub open spec fn secp256k1_order() -> nat {
    0xFFFF_FFFF_FFFF_FFFF_FFFF_FFFF_FFFF_FFFE * (0x1_0000_0000_0000_0000 * 0x1_0000_0000_0000_0000)
        + 0xBAAE_DCE6_AF48_A03B_BFD2_5E8C_D036_4141
}

/// The unsigned big-endian value of a byte string.
pub open spec fn be_value(s: Seq<u8>) -> nat
    decreases s.len(),
{
    if s.len() == 0 {
        0
    } else {
        be_value(s.drop_last()) * 256 + s.last() as nat
    }
}

/// A 32-byte string that secp256k1 accepts as a secret scalar: in `[1, n)`.
pub open spec fn is_secp256k1_scalar(s: Seq<u8>) -> bool {
    s.len() == 32 && 0 < be_value(s) < secp256k1_order()
}


/// The lowercase hexadecimal digit for a value below 16.
pub open spec fn hex_digit(n: u8) -> char {
    if n < 10 {
        (('0' as u8) + n) as char
    } else {
        (('a' as u8) + (n - 10)) as char
    }
}

/// Lowercase hexadecimal text of a byte string, two digits per byte, high nibble first.
pub open spec fn hex_of(b: Seq<u8>) -> Seq<char>
    decreases b.len(),
{
    if b.len() == 0 {
        Seq::empty()
    } else {
        hex_of(b.drop_last()) + seq![hex_digit(b.last() / 16), hex_digit(b.last() % 16)]
    }
}

/// An ASCII hexadecimal digit of either case.
pub open spec fn is_hex_char(c: char) -> bool {
    ('0' <= c <= '9') || ('a' <= c <= 'f') || ('A' <= c <= 'F')
}

/// Hex text has two digits per byte, each a hex digit.
pub proof fn lemma_hex_of_shape(b: Seq<u8>)
    ensures
        hex_of(b).len() == 2 * b.len(),
        forall|i: int| 0 <= i < hex_of(b).len() ==> is_hex_char(#[trigger] hex_of(b)[i]),
    decreases b.len(),
{
    if b.len() > 0 {
        lemma_hex_of_shape(b.drop_last());
        let hi = b.last() / 16;
        let lo = b.last() % 16;
        assert(is_hex_char(hex_digit(hi)) && is_hex_char(hex_digit(lo)));
        let h = hex_of(b);
        let p = hex_of(b.drop_last());
        assert(h == p + seq![hex_digit(hi), hex_digit(lo)]);
        assert forall|i: int| 0 <= i < h.len() implies is_hex_char(#[trigger] h[i]) by {
            if i < p.len() {
                assert(h[i] == p[i]);
            }
        }
    }
}

/// The characters of the Base58 alphabet: digits and letters without `0`, `O`, `I` and `l`.
pub open spec fn is_base58_char(c: char) -> bool {
    ('1' <= c <= '9') || ('A' <= c <= 'H') || ('J' <= c <= 'N') || ('P' <= c <= 'Z')
        || ('a' <= c <= 'k') || ('m' <= c <= 'z')
}

/// The characters with the Unicode `White_Space` property.
pub open spec fn is_whitespace(c: char) -> bool {
    let u = c as u32;
    (0x9 <= u <= 0xd) || u == 0x20 || u == 0x85 || u == 0xa0 || u == 0x1680 || (0x2000 <= u
        <= 0x200a) || u == 0x2028 || u == 0x2029 || u == 0x202f || u == 0x205f || u == 0x3000
}

/// The number of maximal runs of non-whitespace characters in `s`.
pub open spec fn word_count_of(s: Seq<char>) -> nat
    decreases s.len(),
{
    if s.len() == 0 {
        0
    } else {
        let starts_word = !is_whitespace(s.last()) && (s.len() == 1 || is_whitespace(
            s[s.len() - 2],
        ));
        word_count_of(s.drop_last()) + if starts_word {
            1nat
        } else {
            0nat
        }
    }
}

/// `c` with an ASCII capital letter turned into its small letter.
pub open spec fn ascii_lower_char(c: char) -> char {
    if 'A' <= c <= 'Z' {
        ((c as u32) + 32) as char
    } else {
        c
    }
}

/// `s` with its ASCII capital letters turned into small letters.
pub open spec fn ascii_lower(s: Seq<char>) -> Seq<char> {
    Seq::new(s.len(), |i: int| ascii_lower_char(s[i]))
}

/// Every character is a small ASCII letter or a space.
pub open spec fn is_lower_words(s: Seq<char>) -> bool {
    forall|i: int| 0 <= i < s.len() ==> ('a' <= #[trigger] s[i] <= 'z' || s[i] == ' ')
}

/// Words separated by single spaces: not empty, no space at either end, no two
/// spaces in a row.
pub open spec fn is_single_spaced(s: Seq<char>) -> bool {
    &&& s.len() > 0
    &&& s[0] != ' '
    &&& s.last() != ' '
    &&& forall|i: int| 0 <= i < s.len() - 1 && #[trigger] s[i] == ' ' ==> s[i + 1] != ' '
}

/// Text of small letters and spaces is its own lowercase form.
pub proof fn lemma_lower_words_fixed(s: Seq<char>)
    requires
        is_lower_words(s),
    ensures
        ascii_lower(s) == s,
{
    assert(ascii_lower(s) =~= s);
}

/// `s` with its ASCII capital letters turned into small letters.
pub fn to_ascii_lower(s: &str) -> (r: String)
    ensures
        r@ == ascii_lower(s@),
{
    let n = s.unicode_len();
    let mut out = String::new();
    let mut i: usize = 0;
    while i < n
        invariant
            n == s@.len(),
            i <= n,
            out@ == ascii_lower(s@).subrange(0, i as int),
        decreases n - i,
    {
        let c = s.get_char(i);
        let lower = if 'A' <= c && c <= 'Z' {
            ((c as u32) + 32) as u8 as char
        } else {
            c
        };
        push_char(&mut out, lower);
        i = i + 1;
        proof {
            assert(out@ =~= ascii_lower(s@).subrange(0, i as int));
        }
    }
    proof {
        assert(ascii_lower(s@).subrange(0, n as int) =~= ascii_lower(s@));
    }
    out
}

/// Whether `c` is whitespace.
pub fn char_is_whitespace(c: char) -> (r: bool)
    ensures
        r == is_whitespace(c),
{
    let u = c as u32;
    (0x9 <= u && u <= 0xd) || u == 0x20 || u == 0x85 || u == 0xa0 || u == 0x1680 || (0x2000 <= u
        && u <= 0x200a) || u == 0x2028 || u == 0x2029 || u == 0x202f || u == 0x205f || u == 0x3000
}

/// Counts the whitespace-separated words of `s`.
pub fn count_words(s: &str) -> (r: usize)
    ensures
        r == word_count_of(s@),
{
    let n = s.unicode_len();
    let mut count: usize = 0;
    let mut i: usize = 0;
    let mut prev_ws = true;
    while i < n
        invariant
            n == s@.len(),
            i <= n,
            count == word_count_of(s@.subrange(0, i as int)),
            count <= i,
            prev_ws == (i == 0 || is_whitespace(s@[i - 1])),
        decreases n - i,
    {
        let c = s.get_char(i);
        let ws = char_is_whitespace(c);
        proof {
            let t = s@.subrange(0, i + 1);
            assert(t.drop_last() =~= s@.subrange(0, i as int));
            assert(t.last() == c);
            if i > 0 {
                assert(t[t.len() - 2] == s@[i - 1]);
            }
        }
        if !ws && prev_ws {
            count = count + 1;
        }
        prev_ws = ws;
        i = i + 1;
    }
    proof {
        assert(s@.subrange(0, n as int) =~= s@);
    }
    count
}

/// Whether two strings hold the same characters.
pub fn same_text(a: &str, b: &str) -> (r: bool)
    ensures
        r == (a@ == b@),
{
    let n = a.unicode_len();
    if n != b.unicode_len() {
        return false;
    }
    let mut i: usize = 0;
    while i < n
        invariant
            n == a@.len(),
            n == b@.len(),
            i <= n,
            forall|j: int| 0 <= j < i ==> a@[j] == b@[j],
        decreases n - i,
    {
        if a.get_char(i) != b.get_char(i) {
            return false;
        }
        i = i + 1;
    }
    proof {
        assert(a@ =~= b@);
    }
    true
}

/// A copy of `a[lo..hi]`.
pub fn copy_range(a: &[u8], lo: usize, hi: usize) -> (r: Vec<u8>)
    requires
        lo <= hi <= a@.len(),
    ensures
        r@ == a@.subrange(lo as int, hi as int),
{
    let mut r: Vec<u8> = Vec::new();
    let mut i: usize = lo;
    while i < hi
        invariant
            lo <= i <= hi,
            hi <= a@.len(),
            r@ == a@.subrange(lo as int, i as int),
        decreases hi - i,
    {
        r.push(a[i]);
        i = i + 1;
        proof {
            assert(r@ =~= a@.subrange(lo as int, i as int));
        }
    }
    r
}

/// Appends the bytes of `b` to `v`.
pub fn append_bytes(v: &mut Vec<u8>, b: &[u8])
    ensures
        final(v)@ == old(v)@ + b@,
{
    let ghost start = v@;
    let mut i: usize = 0;
    while i < b.len()
        invariant
            i <= b@.len(),
            v@ == start + b@.subrange(0, i as int),
        decreases b@.len() - i,
    {
        v.push(b[i]);
        i = i + 1;
        proof {
            assert(v@ =~= start + b@.subrange(0, i as int));
        }
    }
    proof {
        assert(b@.subrange(0, b@.len() as int) =~= b@);
    }
}

} // verus!
