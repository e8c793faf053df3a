//! The host's 128-bit timestamp: whole seconds since 1904 and a binary
//! fraction of a second.
use vstd::bytes::*;
use vstd::prelude::*;

verus! {

/// Failures of converting timestamps to calendar dates.
#[derive(Debug, Clone, Copy, PartialEq, Eq, Structural)]
pub enum LVTimeError {
    /// The timestamp lies outside the range of the calendar type.
    ChronoOutOfRange,
}

/// A host timestamp: signed whole seconds since the 1904 epoch and an
/// unsigned fraction of a second in units of 2^-64 s.
#[derive(Debug, Clone, Copy, PartialEq, Eq, Structural)]
pub struct LVTime {
    pub fractions: u64,
    pub seconds: i64,
}

/// The timestamp's sixteen bytes, least significant first: the fraction,
/// then the seconds, as one 128-bit value.
pub open spec fn time_le_bytes(t: LVTime) -> Seq<u8> {
    spec_u64_to_le_bytes(t.fractions) + spec_u64_to_le_bytes(t.seconds as u64)
}

/// The timestamp's sixteen bytes, most significant first: the seconds,
/// then the fraction.
pub open spec fn time_be_bytes(t: LVTime) -> Seq<u8> {
    spec_u64_to_le_bytes(t.seconds as u64).reverse() + spec_u64_to_le_bytes(t.fractions).reverse()
}

/// Copies eight bytes into `out` from position `at`.
fn copy_bytes(out: &mut [u8; 16], at: usize, bytes: &Vec<u8>)
    requires
        at + 8 <= 16,
        bytes@.len() == 8,
    ensures
        final(out)@ == old(out)@.take(at as int) + bytes@ + old(out)@.skip(at as int + 8),
{
    let mut i: usize = 0;
    while i < 8
        invariant
            i <= 8,
            at + 8 <= 16,
            bytes@.len() == 8,
            out@.len() == 16,
            out@ =~= old(out)@.take(at as int) + bytes@.take(i as int) + old(out)@.skip(
                at as int + i,
            ),
        decreases 8 - i,
    {
        out[at + i] = bytes[i];
        i = i + 1;
        proof {
            assert(out@ =~= old(out)@.take(at as int) + bytes@.take(i as int) + old(out)@.skip(
                at as int + i,
            ));
        }
    }
    proof {
        assert(bytes@.take(8) =~= bytes@);
    }
}

/// The bytes of `v` in reverse order.
fn reversed(v: &Vec<u8>) -> (r: Vec<u8>)
    ensures
        r@ == v@.reverse(),
{
    let mut r: Vec<u8> = Vec::new();
    let mut i: usize = v.len();
    while i > 0
        invariant
            i <= v@.len(),
            r@ =~= v@.skip(i as int).reverse(),
        decreases i,
    {
        i = i - 1;
        r.push(v[i]);
        proof {
            assert(v@.skip(i as int).reverse() =~= v@.skip(i as int + 1).reverse().push(v@[i as int]));
        }
    }
    proof {
        assert(v@.skip(0) =~= v@);
    }
    r
}

/// Eight bytes of `bytes` from position `at`, in reverse order.
fn reversed_eight(bytes: &[u8; 16], at: usize) -> (r: Vec<u8>)
    requires
        at + 8 <= 16,
    ensures
        r@ == bytes@.subrange(at as int, at as int + 8).reverse(),
{
    let mut r: Vec<u8> = Vec::new();
    let mut i: usize = 8;
    while i > 0
        invariant
            i <= 8,
            at + 8 <= 16,
            r@ =~= bytes@.subrange(at as int + i, at as int + 8).reverse(),
        decreases i,
    {
        i = i - 1;
        r.push(bytes[at + i]);
        proof {
            assert(bytes@.subrange(at as int + i, at as int + 8).reverse() =~= bytes@.subrange(
                at as int + i + 1,
                at as int + 8,
            ).reverse().push(bytes@[at + i]));
        }
    }
    r
}

impl LVTime {
    /// The timestamp with the given whole seconds and fraction.
    pub fn from_parts(seconds: i64, fractions: u64) -> (r: LVTime)
        ensures
            r.seconds == seconds,
            r.fractions == fractions,
    {
        LVTime { fractions, seconds }
    }

    /// The whole seconds and the fraction.
    pub fn to_parts(&self) -> (r: (i64, u64))
        ensures
            r == (self.seconds, self.fractions),
    {
        (self.seconds, self.fractions)
    }

    /// The whole seconds since the 1904 epoch.
    pub fn seconds(&self) -> (r: i64)
        ensures
            r == self.seconds,
    {
        self.seconds
    }

    /// The sixteen bytes of the timestamp, least significant first.
    pub fn to_le_bytes(&self) -> (r: [u8; 16])
        ensures
            r@ == time_le_bytes(*self),
    {
        let mut out = [0u8; 16];
        let low = u64_to_le_bytes(self.fractions);
        let high = u64_to_le_bytes(self.seconds as u64);
        copy_bytes(&mut out, 0, &low);
        copy_bytes(&mut out, 8, &high);
        proof {
            assert(out@ =~= time_le_bytes(*self));
        }
        out
    }

    /// The sixteen bytes of the timestamp, most significant first.
    pub fn to_be_bytes(&self) -> (r: [u8; 16])
        ensures
            r@ == time_be_bytes(*self),
    {
        let mut out = [0u8; 16];
        let high = reversed(&u64_to_le_bytes(self.seconds as u64));
        let low = reversed(&u64_to_le_bytes(self.fractions));
        copy_bytes(&mut out, 0, &high);
        copy_bytes(&mut out, 8, &low);
        proof {
            assert(out@ =~= time_be_bytes(*self));
        }
        out
    }

    /// The timestamp whose sixteen bytes, least significant first, are
    /// `bytes`.
    pub fn from_le_bytes(bytes: [u8; 16]) -> (r: LVTime)
        ensures
            time_le_bytes(r) == bytes@,
    {
        let low = u64_from_le_bytes(&bytes[0..8]);
        let high = u64_from_le_bytes(&bytes[8..16]);
        let r = LVTime { fractions: low, seconds: high as i64 };
        proof {
            lemma_auto_spec_u64_to_from_le_bytes();
            assert(bytes@.subrange(0, 8) + bytes@.subrange(8, 16) =~= bytes@);
            assert(high as i64 as u64 == high) by (bit_vector);
        }
        r
    }

    /// The timestamp whose sixteen bytes, most significant first, are
    /// `bytes`.
    pub fn from_be_bytes(bytes: [u8; 16]) -> (r: LVTime)
        ensures
            time_be_bytes(r) == bytes@,
    {
        let high_bytes = reversed_eight(&bytes, 0);
        let low_bytes = reversed_eight(&bytes, 8);
        let high = u64_from_le_bytes(high_bytes.as_slice());
        let low = u64_from_le_bytes(low_bytes.as_slice());
        let r = LVTime { fractions: low, seconds: high as i64 };
        proof {
            lemma_auto_spec_u64_to_from_le_bytes();
            assert(high as i64 as u64 == high) by (bit_vector);
            assert(spec_u64_to_le_bytes(high) == high_bytes@);
            assert(spec_u64_to_le_bytes(low) == low_bytes@);
            assert(high_bytes@.reverse() =~= bytes@.subrange(0, 8));
            assert(low_bytes@.reverse() =~= bytes@.subrange(8, 16));
            assert(bytes@.subrange(0, 8) + bytes@.subrange(8, 16) =~= bytes@);
        }
        r
    }
}

/// Writing a timestamp as little-endian bytes and reading them back gives
/// the same timestamp; likewise for big-endian bytes.
pub proof fn lemma_time_bytes_round_trip(t: LVTime, u: LVTime)
    ensures
        time_le_bytes(t) == time_le_bytes(u) ==> t == u,
        time_be_bytes(t) == time_be_bytes(u) ==> t == u,
        time_le_bytes(t).len() == 16,
        time_be_bytes(t).len() == 16,
{
    lemma_auto_spec_u64_to_from_le_bytes();
    let (a, b) = (spec_u64_to_le_bytes(t.fractions), spec_u64_to_le_bytes(t.seconds as u64));
    let (c, d) = (spec_u64_to_le_bytes(u.fractions), spec_u64_to_le_bytes(u.seconds as u64));
    if time_le_bytes(t) == time_le_bytes(u) {
        assert(a =~= time_le_bytes(t).subrange(0, 8));
        assert(c =~= time_le_bytes(u).subrange(0, 8));
        assert(b =~= time_le_bytes(t).subrange(8, 16));
        assert(d =~= time_le_bytes(u).subrange(8, 16));
        let (s, v) = (t.seconds, u.seconds);
        assert(s as u64 == v as u64 ==> s == v) by (bit_vector);
    }
    if time_be_bytes(t) == time_be_bytes(u) {
        assert(b.reverse() =~= time_be_bytes(t).subrange(0, 8));
        assert(d.reverse() =~= time_be_bytes(u).subrange(0, 8));
        assert(a.reverse() =~= time_be_bytes(t).subrange(8, 16));
        assert(c.reverse() =~= time_be_bytes(u).subrange(8, 16));
        assert(b.reverse().reverse() =~= b);
        assert(d.reverse().reverse() =~= d);
        assert(a.reverse().reverse() =~= a);
        assert(c.reverse().reverse() =~= c);
        let (s, v) = (t.seconds, u.seconds);
        assert(s as u64 == v as u64 ==> s == v) by (bit_vector);
    }
}

} // verus!
