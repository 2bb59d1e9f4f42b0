use vstd::prelude::*;

verus! {

use vstd::string::StrSliceExecFns;
use vstd::string::StringExecFns;
use vstd::string::is_ascii;

/// The uppercase hexadecimal digit character for a value below sixteen.
pub open spec fn hex_digit(n: int) -> char {
    if n == 0 {
        '0'
    } else if n == 1 {
        '1'
    } else if n == 2 {
        '2'
    } else if n == 3 {
        '3'
    } else if n == 4 {
        '4'
    } else if n == 5 {
        '5'
    } else if n == 6 {
        '6'
    } else if n == 7 {
        '7'
    } else if n == 8 {
        '8'
    } else if n == 9 {
        '9'
    } else if n == 10 {
        'A'
    } else if n == 11 {
        'B'
    } else if n == 12 {
        'C'
    } else if n == 13 {
        'D'
    } else if n == 14 {
        'E'
    } else {
        'F'
    }
}

/// The uppercase hexadecimal rendering of a byte string: two digits per
/// byte, high nibble first.
pub open spec fn hex_of(s: Seq<u8>) -> Seq<char>
    decreases s.len(),
{
    if s.len() == 0 {
        Seq::empty()
    } else {
        seq![hex_digit(s[0] as int / 16), hex_digit(s[0] as int % 16)] + hex_of(s.drop_first())
    }
}

/// The numeric value of a hexadecimal digit character, or minus one for
/// any other character; both cases are accepted.
pub open spec fn hex_char_val(c: char) -> int {
    if 48 <= c as int <= 57 {
        c as int - 48
    } else if 65 <= c as int <= 70 {
        c as int - 55
    } else if 97 <= c as int <= 102 {
        c as int - 87
    } else {
        -1
    }
}

/// Whether a character is a hexadecimal digit, in either case.
pub open spec fn is_hex_char(c: char) -> bool {
    hex_char_val(c) >= 0
}

/// Whether every character of a string is a hexadecimal digit.
pub open spec fn hex_seq_ok(s: Seq<char>) -> bool {
    forall|i: int| 0 <= i < s.len() ==> is_hex_char(#[trigger] s[i])
}

/// The bytes denoted by an even-length string of hexadecimal digits,
/// high nibble first.
pub open spec fn hex_bytes_of(s: Seq<char>) -> Seq<u8>
    decreases s.len(),
{
    if s.len() < 2 {
        Seq::empty()
    } else {
        seq![(16 * hex_char_val(s[0]) + hex_char_val(s[1])) as u8] + hex_bytes_of(s.skip(2))
    }
}

/// Rendering one more byte appends its two digits.
proof fn lemma_hex_of_push(s: Seq<u8>, b: u8)
    ensures
        hex_of(s.push(b)) == hex_of(s) + seq![
            hex_digit(b as int / 16),
            hex_digit(b as int % 16),
        ],
    decreases s.len(),
{
    let pair = seq![hex_digit(b as int / 16), hex_digit(b as int % 16)];
    if s.len() == 0 {
        assert(s.push(b)[0] == b);
        assert(s.push(b).drop_first() =~= Seq::<u8>::empty());
        assert(hex_of(s.push(b)) == pair + hex_of(s.push(b).drop_first()));
        assert(pair + hex_of(Seq::<u8>::empty()) =~= hex_of(s) + pair);
    } else {
        lemma_hex_of_push(s.drop_first(), b);
        assert(s.push(b)[0] == s[0]);
        assert(s.push(b).drop_first() =~= s.drop_first().push(b));
        let head = seq![hex_digit(s[0] as int / 16), hex_digit(s[0] as int % 16)];
        assert(hex_of(s.push(b)) == head + hex_of(s.drop_first().push(b)));
        assert(hex_of(s) == head + hex_of(s.drop_first()));
        assert(head + (hex_of(s.drop_first()) + pair) =~= (head + hex_of(s.drop_first())) + pair);
    }
}

/// A hex rendering is twice as long as the bytes it renders.
pub proof fn lemma_hex_of_len(s: Seq<u8>)
    ensures
        hex_of(s).len() == 2 * s.len(),
    decreases s.len(),
{
    if s.len() > 0 {
        lemma_hex_of_len(s.drop_first());
    }
}

/// Distinct values below sixteen have distinct digit characters.
proof fn lemma_hex_digit_injective(m: int, n: int)
    requires
        0 <= m < 16,
        0 <= n < 16,
        hex_digit(m) == hex_digit(n),
    ensures
        m == n,
{
}

/// Hex rendering is injective: equal renderings come from equal bytes.
/// Distinct token digests therefore yield distinct tokens.
pub proof fn lemma_hex_of_injective(s1: Seq<u8>, s2: Seq<u8>)
    requires
        hex_of(s1) == hex_of(s2),
    ensures
        s1 == s2,
    decreases s1.len(),
{
    lemma_hex_of_len(s1);
    lemma_hex_of_len(s2);
    if s1.len() == 0 {
        assert(s1 =~= s2);
    } else {
        let h1 = seq![hex_digit(s1[0] as int / 16), hex_digit(s1[0] as int % 16)];
        let h2 = seq![hex_digit(s2[0] as int / 16), hex_digit(s2[0] as int % 16)];
        assert(hex_of(s1)[0] == h1[0] && hex_of(s1)[1] == h1[1]);
        assert(hex_of(s2)[0] == h2[0] && hex_of(s2)[1] == h2[1]);
        lemma_hex_digit_injective(s1[0] as int / 16, s2[0] as int / 16);
        lemma_hex_digit_injective(s1[0] as int % 16, s2[0] as int % 16);
        assert(s1[0] as int == 16 * (s1[0] as int / 16) + s1[0] as int % 16);
        assert(s2[0] as int == 16 * (s2[0] as int / 16) + s2[0] as int % 16);
        assert(s1[0] == s2[0]);
        lemma_hex_of_len(s1.drop_first());
        lemma_hex_of_len(s2.drop_first());
        assert(hex_of(s1.drop_first()) =~= hex_of(s2.drop_first())) by {
            assert(forall|i: int|
                0 <= i < hex_of(s1.drop_first()).len() ==> hex_of(s1.drop_first())[i] == (h1
                    + hex_of(s1.drop_first()))[i + 2] && hex_of(s2.drop_first())[i] == (h2
                    + hex_of(s2.drop_first()))[i + 2]);
        }
        lemma_hex_of_injective(s1.drop_first(), s2.drop_first());
        assert forall|i: int| 0 <= i < s1.len() implies s1[i] == s2[i] by {
            if i > 0 {
                assert(s1[i] == s1.drop_first()[i - 1]);
                assert(s2[i] == s2.drop_first()[i - 1]);
            }
        }
        assert(s1 =~= s2);
    }
}

/// Renders bytes as uppercase hexadecimal, two digits per byte.
pub fn hex_upper(bytes: &Vec<u8>) -> (r: String)
    ensures
        r@ == hex_of(bytes@),
{
    let digits: &str = "0123456789ABCDEF";
    proof {
        reveal_strlit("0123456789ABCDEF");
    }
    let mut out: String = String::new();
    let mut i: usize = 0;
    while i < bytes.len()
        invariant
            i <= bytes@.len(),
            digits@ == "0123456789ABCDEF"@,
            is_ascii(digits),
            digits@.len() == 16,
            forall|n: int| 0 <= n < 16 ==> #[trigger] digits@[n] == hex_digit(n),
            out@ == hex_of(bytes@.take(i as int)),
        decreases bytes@.len() - i,
    {
        let b = bytes[i];
        let hi: usize = (b / 16) as usize;
        let lo: usize = (b % 16) as usize;
        out.append(digits.substring_ascii(hi, hi + 1));
        out.append(digits.substring_ascii(lo, lo + 1));
        proof {
            assert(digits@.subrange(hi as int, hi as int + 1) =~= seq![hex_digit(b as int / 16)]);
            assert(digits@.subrange(lo as int, lo as int + 1) =~= seq![hex_digit(b as int % 16)]);
            lemma_hex_of_push(bytes@.take(i as int), b);
            assert(bytes@.take(i as int).push(b) =~= bytes@.take(i as int + 1));
        }
        i = i + 1;
    }
    proof {
        assert(bytes@.take(bytes@.len() as int) =~= bytes@);
    }
    out
}

/// The numeric value of one hexadecimal digit character, in either case.
pub fn hex_char_value(c: char) -> (r: Option<u8>)
    ensures
        match r {
            Some(v) => is_hex_char(c) && v as int == hex_char_val(c),
            None => !is_hex_char(c),
        },
{
    let u = c as u32;
    if 48 <= u && u <= 57 {
        Some((u - 48) as u8)
    } else if 65 <= u && u <= 70 {
        Some((u - 55) as u8)
    } else if 97 <= u && u <= 102 {
        Some((u - 87) as u8)
    } else {
        None
    }
}

/// Decoding two more digits appends one more byte.
proof fn lemma_hex_bytes_push2(s: Seq<char>, c1: char, c2: char)
    requires
        s.len() % 2 == 0,
    ensures
        hex_bytes_of(s.push(c1).push(c2)) == hex_bytes_of(s) + seq![
            (16 * hex_char_val(c1) + hex_char_val(c2)) as u8,
        ],
    decreases s.len(),
{
    let t = s.push(c1).push(c2);
    let unit = seq![(16 * hex_char_val(c1) + hex_char_val(c2)) as u8];
    if s.len() == 0 {
        assert(t[0] == c1);
        assert(t[1] == c2);
        assert(t.skip(2) =~= Seq::<char>::empty());
        assert(hex_bytes_of(t) == unit + hex_bytes_of(t.skip(2)));
        assert(unit + hex_bytes_of(Seq::<char>::empty()) =~= hex_bytes_of(s) + unit);
    } else {
        lemma_hex_bytes_push2(s.skip(2), c1, c2);
        assert(t[0] == s[0]);
        assert(t[1] == s[1]);
        assert(t.skip(2) =~= s.skip(2).push(c1).push(c2));
        let head = seq![(16 * hex_char_val(s[0]) + hex_char_val(s[1])) as u8];
        assert(hex_bytes_of(t) == head + hex_bytes_of(s.skip(2).push(c1).push(c2)));
        assert(hex_bytes_of(s) == head + hex_bytes_of(s.skip(2)));
        assert(head + (hex_bytes_of(s.skip(2)) + unit) =~= (head + hex_bytes_of(s.skip(2))) + unit);
    }
}

/// A decoded hex string has one byte for every two digits.
proof fn lemma_hex_bytes_of_len(s: Seq<char>)
    ensures
        hex_bytes_of(s).len() == s.len() / 2,
    decreases s.len(),
{
    if s.len() >= 2 {
        lemma_hex_bytes_of_len(s.skip(2));
    }
}

/// Decodes a string of hexadecimal digits into bytes. Returns `None`
/// exactly when the length is odd or some character is not a hex digit.
pub fn hex_decode(s: &str) -> (r: Option<Vec<u8>>)
    ensures
        match r {
            Some(v) => s@.len() % 2 == 0 && hex_seq_ok(s@) && v@ == hex_bytes_of(s@),
            None => !(s@.len() % 2 == 0 && hex_seq_ok(s@)),
        },
{
    let n = s.unicode_len();
    if n % 2 != 0 {
        return None;
    }
    let mut out: Vec<u8> = Vec::new();
    let mut i: usize = 0;
    while i < n
        invariant
            n == s@.len(),
            n % 2 == 0,
            i <= n,
            i % 2 == 0,
            forall|j: int| 0 <= j < i ==> is_hex_char(#[trigger] s@[j]),
            out@ == hex_bytes_of(s@.take(i as int)),
        decreases n - i,
    {
        let c1 = s.get_char(i);
        let c2 = s.get_char(i + 1);
        let v1 = match hex_char_value(c1) {
            Some(v) => v,
            None => {
                return None;
            },
        };
        let v2 = match hex_char_value(c2) {
            Some(v) => v,
            None => {
                return None;
            },
        };
        out.push(16 * v1 + v2);
        proof {
            lemma_hex_bytes_push2(s@.take(i as int), c1, c2);
            assert(s@.take(i as int).push(c1).push(c2) =~= s@.take(i as int + 2));
        }
        i = i + 2;
    }
    proof {
        assert(s@.take(n as int) =~= s@);
    }
    Some(out)
}

/// A hex string with its optional `0x` prefix taken off.
pub open spec fn strip_hex_prefix(s: Seq<char>) -> Seq<char> {
    if s.len() >= 2 && s[0] == '0' && s[1] == 'x' {
        s.skip(2)
    } else {
        s
    }
}

/// Decodes a hex string of a fixed digit count, an optional `0x` prefix
/// allowed. Returns `None` exactly when, after the prefix, the length is
/// not `nchars` or some character is not a hex digit.
pub fn decode_prefixed_hex(s: &str, nchars: usize) -> (r: Option<Vec<u8>>)
    requires
        nchars % 2 == 0,
    ensures
        match r {
            Some(v) => strip_hex_prefix(s@).len() == nchars && hex_seq_ok(strip_hex_prefix(s@))
                && v@ == hex_bytes_of(strip_hex_prefix(s@)) && v@.len() == nchars / 2,
            None => !(strip_hex_prefix(s@).len() == nchars && hex_seq_ok(strip_hex_prefix(s@))),
        },
{
    let n = s.unicode_len();
    let has_prefix = n >= 2 && s.get_char(0) == '0' && s.get_char(1) == 'x';
    let body: &str = if has_prefix {
        s.substring_char(2, n)
    } else {
        s
    };
    proof {
        assert(body@ =~= strip_hex_prefix(s@));
    }
    let m = body.unicode_len();
    if m != nchars {
        return None;
    }
    match hex_decode(body) {
        Some(v) => {
            proof {
                lemma_hex_bytes_of_len(body@);
            }
            Some(v)
        },
        None => None,
    }
}

} // verus!
