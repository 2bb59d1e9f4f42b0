use vstd::prelude::*;

verus! {

use vstd::string::StrSliceExecFns;
use crate::auth::Authorization;

/// The four big-endian bytes of a 32-bit value.
pub open spec fn enc_u32(n: u32) -> Seq<u8> {
    seq![
        (n / 0x1000000 % 256) as u8,
        (n / 0x10000 % 256) as u8,
        (n / 0x100 % 256) as u8,
        (n % 256) as u8,
    ]
}

/// The eight big-endian bytes of a 64-bit value.
pub open spec fn enc_u64(n: u64) -> Seq<u8> {
    seq![
        (n / 0x100000000000000 % 256) as u8,
        (n / 0x1000000000000 % 256) as u8,
        (n / 0x10000000000 % 256) as u8,
        (n / 0x100000000 % 256) as u8,
        (n / 0x1000000 % 256) as u8,
        (n / 0x10000 % 256) as u8,
        (n / 0x100 % 256) as u8,
        (n % 256) as u8,
    ]
}

/// A timestamp encoded as its two's-complement bit pattern.
pub open spec fn enc_time(t: i64) -> Seq<u8> {
    enc_u64(t as u64)
}

/// An optional timestamp: a presence byte, then the time if present.
pub open spec fn enc_opt_time(o: Option<i64>) -> Seq<u8> {
    match o {
        None => seq![0u8],
        Some(t) => seq![1u8] + enc_time(t),
    }
}

/// Characters encoded one after the other, four bytes each.
pub open spec fn enc_chars(s: Seq<char>) -> Seq<u8>
    decreases s.len(),
{
    if s.len() == 0 {
        Seq::empty()
    } else {
        enc_u32(s[0] as u32) + enc_chars(s.drop_first())
    }
}

/// A string: its character count, then its characters.
pub open spec fn enc_str(s: Seq<char>) -> Seq<u8> {
    enc_u64(s.len() as u64) + enc_chars(s)
}

/// Resource strings encoded one after the other.
pub open spec fn enc_resources(rs: Seq<String>) -> Seq<u8>
    decreases rs.len(),
{
    if rs.len() == 0 {
        Seq::empty()
    } else {
        enc_str(rs[0]@) + enc_resources(rs.drop_first())
    }
}

/// The canonical serialization of a session record, the fixed input of
/// the token digest: address, issuance time, optional not-before and
/// expiration times, then the counted resource list.
pub open spec fn enc_record(r: Authorization) -> Seq<u8> {
    r.address@ + enc_time(r.issued_at) + enc_opt_time(r.not_before) + enc_opt_time(
        r.expiration_time,
    ) + enc_u64(r.resources@.len() as u64) + enc_resources(r.resources@)
}

/// Encoding one more character appends its four bytes.
proof fn lemma_enc_chars_push(s: Seq<char>, c: char)
    ensures
        enc_chars(s.push(c)) == enc_chars(s) + enc_u32(c as u32),
    decreases s.len(),
{
    if s.len() == 0 {
        assert(s.push(c)[0] == c);
        assert(s.push(c).drop_first() =~= Seq::<char>::empty());
        assert(enc_chars(s.push(c)) == enc_u32(c as u32) + enc_chars(Seq::<char>::empty()));
        assert(enc_u32(c as u32) + enc_chars(Seq::<char>::empty()) =~= enc_chars(s) + enc_u32(
            c as u32,
        ));
    } else {
        lemma_enc_chars_push(s.drop_first(), c);
        assert(s.push(c)[0] == s[0]);
        assert(s.push(c).drop_first() =~= s.drop_first().push(c));
        assert(enc_chars(s.push(c)) == enc_u32(s[0] as u32) + enc_chars(s.drop_first().push(c)));
        assert(enc_chars(s) == enc_u32(s[0] as u32) + enc_chars(s.drop_first()));
        assert(enc_u32(s[0] as u32) + (enc_chars(s.drop_first()) + enc_u32(c as u32)) =~= (enc_u32(
            s[0] as u32,
        ) + enc_chars(s.drop_first())) + enc_u32(c as u32));
    }
}

/// Encoding one more resource appends its encoding.
proof fn lemma_enc_resources_push(rs: Seq<String>, s: String)
    ensures
        enc_resources(rs.push(s)) == enc_resources(rs) + enc_str(s@),
    decreases rs.len(),
{
    if rs.len() == 0 {
        assert(rs.push(s)[0] == s);
        assert(rs.push(s).drop_first() =~= Seq::<String>::empty());
        assert(enc_resources(rs.push(s)) == enc_str(s@) + enc_resources(Seq::<String>::empty()));
        assert(enc_str(s@) + enc_resources(Seq::<String>::empty()) =~= enc_resources(rs) + enc_str(
            s@,
        ));
    } else {
        lemma_enc_resources_push(rs.drop_first(), s);
        assert(rs.push(s)[0] == rs[0]);
        assert(rs.push(s).drop_first() =~= rs.drop_first().push(s));
        assert(enc_resources(rs.push(s)) == enc_str(rs[0]@) + enc_resources(
            rs.drop_first().push(s),
        ));
        assert(enc_resources(rs) == enc_str(rs[0]@) + enc_resources(rs.drop_first()));
        assert(enc_str(rs[0]@) + (enc_resources(rs.drop_first()) + enc_str(s@)) =~= (enc_str(rs[0]@)
            + enc_resources(rs.drop_first())) + enc_str(s@));
    }
}

/// Emits the four big-endian bytes of a 32-bit value.
fn encode_u32(n: u32, out: &mut Vec<u8>)
    ensures
        final(out)@ == old(out)@ + enc_u32(n),
{
    out.push((n / 0x1000000 % 256) as u8);
    out.push((n / 0x10000 % 256) as u8);
    out.push((n / 0x100 % 256) as u8);
    out.push((n % 256) as u8);
    proof {
        assert(out@ =~= old(out)@ + enc_u32(n));
    }
}

/// Emits the eight big-endian bytes of a 64-bit value.
fn encode_u64(n: u64, out: &mut Vec<u8>)
    ensures
        final(out)@ == old(out)@ + enc_u64(n),
{
    out.push((n / 0x100000000000000 % 256) as u8);
    out.push((n / 0x1000000000000 % 256) as u8);
    out.push((n / 0x10000000000 % 256) as u8);
    out.push((n / 0x100000000 % 256) as u8);
    out.push((n / 0x1000000 % 256) as u8);
    out.push((n / 0x10000 % 256) as u8);
    out.push((n / 0x100 % 256) as u8);
    out.push((n % 256) as u8);
    proof {
        assert(out@ =~= old(out)@ + enc_u64(n));
    }
}

/// Emits an optional timestamp: a presence byte, then the time.
fn encode_opt_time(o: &Option<i64>, out: &mut Vec<u8>)
    ensures
        final(out)@ == old(out)@ + enc_opt_time(*o),
{
    match o {
        None => {
            out.push(0u8);
            proof {
                assert(out@ =~= old(out)@ + enc_opt_time(*o));
            }
        },
        Some(t) => {
            out.push(1u8);
            encode_u64(*t as u64, out);
            proof {
                assert(out@ =~= old(out)@ + enc_opt_time(*o));
            }
        },
    }
}

/// Emits a string: its character count, then four bytes per character.
fn encode_str(s: &String, out: &mut Vec<u8>)
    ensures
        final(out)@ == old(out)@ + enc_str(s@),
{
    let n = s.as_str().unicode_len();
    encode_u64(n as u64, out);
    let mut i: usize = 0;
    while i < n
        invariant
            n == s@.len(),
            i <= n,
            out@ == old(out)@ + enc_u64(n as u64) + enc_chars(s@.take(i as int)),
        decreases n - i,
    {
        let c = s.as_str().get_char(i);
        encode_u32(c as u32, out);
        proof {
            lemma_enc_chars_push(s@.take(i as int), c);
            assert(s@.take(i as int).push(c) =~= s@.take(i as int + 1));
        }
        i = i + 1;
    }
    proof {
        assert(s@.take(n as int) =~= s@);
    }
}

/// Serializes a session record into its canonical byte form.
pub fn encode_record(r: &Authorization) -> (out: Vec<u8>)
    ensures
        out@ == enc_record(*r),
{
    let mut out: Vec<u8> = Vec::new();
    let mut i: usize = 0;
    while i < r.address.len()
        invariant
            i <= r.address@.len(),
            out@ == r.address@.take(i as int),
        decreases r.address@.len() - i,
    {
        out.push(r.address[i]);
        proof {
            assert(r.address@.take(i as int).push(r.address@[i as int]) =~= r.address@.take(
                i as int + 1,
            ));
        }
        i = i + 1;
    }
    proof {
        assert(r.address@.take(r.address@.len() as int) =~= r.address@);
    }
    encode_u64(r.issued_at as u64, &mut out);
    encode_opt_time(&r.not_before, &mut out);
    encode_opt_time(&r.expiration_time, &mut out);
    encode_u64(r.resources.len() as u64, &mut out);
    let ghost prefix: Seq<u8> = out@;
    let mut j: usize = 0;
    while j < r.resources.len()
        invariant
            j <= r.resources@.len(),
            out@ == prefix + enc_resources(r.resources@.take(j as int)),
        decreases r.resources@.len() - j,
    {
        encode_str(&r.resources[j], &mut out);
        proof {
            lemma_enc_resources_push(r.resources@.take(j as int), r.resources@[j as int]);
            assert(r.resources@.take(j as int).push(r.resources@[j as int]) =~= r.resources@.take(
                j as int + 1,
            ));
        }
        j = j + 1;
    }
    proof {
        assert(r.resources@.take(r.resources@.len() as int) =~= r.resources@);
        assert(out@ =~= enc_record(*r));
    }
    out
}

} // verus!
