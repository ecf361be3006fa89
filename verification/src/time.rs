//! Time-based generation: UUID versions 1 and 2, built from the wall clock,
//! the host's hardware address and a random clock sequence, plus a generic
//! time-based constructor for a caller-supplied node.

use vstd::prelude::*;

use crate::domain_value;
use crate::spec_domain_value;
use crate::spec_raw_time;
use crate::spec_variant_of;
use crate::spec_version_of;
use crate::spec_version_value;
use crate::variant_value;
use crate::version_value;
use crate::ClockSeq;
use crate::Domain;
use crate::Layout;
use crate::Timestamp;
use crate::Variant;
use crate::Version;
use crate::TIMESTAMP_MASK;
use crate::UTC_EPOCH;
use crate::UUID;

verus! {

/// Relies on mac_address::get_mac_address and MacAddress::bytes: the six
/// bytes of a hardware address of the host, or no value when no interface is
/// found or the lookup fails. The result depends on the machine, so nothing
/// is promised of it.
#[verifier::external_body]
fn host_mac() -> (r: Option<[u8; 6]>) {
    match mac_address::get_mac_address() {
        Ok(Some(m)) => Some(m.bytes()),
        Ok(None) => None,
        Err(_) => None,
    }
}

/// Relies on rand::random: a value drawn from the standard distribution.
/// Nothing can be promised of a random value.
pub assume_specification<T>[ rand::random::<T> ]() -> (r: T)
    where
        rand::distributions::Standard: rand::distributions::Distribution<T>,
;

/// The low 32 bits of a timestamp, as packed into `field_low`.
pub open spec fn spec_time_low(t: u64) -> u32 {
    (t & 0xffff_ffff) as u32
}

/// Bits 32 through 47 of a timestamp, as packed into `field_mid`.
pub open spec fn spec_time_mid(t: u64) -> u16 {
    ((t >> 32) & 0xffff) as u16
}

/// Bits 48 through 59 of a timestamp multiplexed with a version tag, as
/// packed into `field_high_and_version`.
pub open spec fn spec_time_high_and_version(t: u64, ver: u16) -> u16 {
    (((t >> 48) & 0xfff) as u16) | (ver << 12)
}

/// Whether a layout's three time fields hold the timestamp `t` under the
/// version tag `ver`.
pub open spec fn spec_time_fields(l: Layout, t: u64, ver: u16) -> bool {
    &&& l.field_low == spec_time_low(t)
    &&& l.field_mid == spec_time_mid(t)
    &&& l.field_high_and_version == spec_time_high_and_version(t, ver)
}

proof fn lemma_time_tags(t: u64, ver: u16)
    by (bit_vector)
    requires
        ver < 16,
    ensures
        ((((t >> 48) & 0xfff) as u16 | (ver << 12)) >> 12) & 0xf == ver,
{
}

/// The process-wide monotonicity guard: the last timestamp issued to a
/// guarded time-based generator. A process keeps one guard (behind a mutex
/// when generating from several threads, so that the read-bump-store below
/// is not interleaved) and lends it to each v1/v2 call.
pub struct TimestampGuard {
    last: u64,
}

impl TimestampGuard {
    /// The last timestamp issued through this guard.
    pub closed spec fn last_value(&self) -> u64 {
        self.last
    }

    /// A guard that has issued nothing yet.
    pub fn new() -> (r: Self)
        ensures
            r.last_value() == 0,
    {
        TimestampGuard { last: 0 }
    }

    /// Reads the last issued timestamp.
    pub fn last(&self) -> (r: u64)
        ensures
            r == self.last_value(),
    {
        self.last
    }

    /// Reads the wall clock and bumps it past the last issued timestamp, so
    /// that the value issued strictly exceeds every earlier one even under
    /// coarse clock resolution or a clock set backwards.
    fn next(&mut self) -> (t: u64)
        requires
            old(self).last_value() < u64::MAX,
        ensures
            t == final(self).last_value(),
            t > old(self).last_value(),
            t <= old(self).last_value() + 1 || t <= TIMESTAMP_MASK,
    {
        let fresh = Timestamp::new();
        let t = if fresh.0 <= self.last {
            self.last + 1
        } else {
            fresh.0
        };
        self.last = t;
        t
    }
}

/// The byte pair a clock sequence contributes to a layout under the variant
/// nibble `s`: the high byte carries `s` in bits 4 through 7 above bits 8
/// through 11 of the sequence (bits 12 and 13 of the 14-bit sequence are
/// discarded), the low byte holds the sequence's low 8 bits.
pub open spec fn spec_clock_seq_split(cs: u16, s: u8) -> (u8, u8) {
    ((((cs >> 8) & 0xf) as u8) | (s << 4), (cs & 0xff) as u8)
}

impl ClockSeq {
    /// Splits this clock sequence into the layout's byte pair, with the
    /// variant nibble `s` in bits 4 through 7 of the high byte.
    pub fn split(&self, s: u8) -> (r: (u8, u8))
        requires
            s < 16,
        ensures
            r == spec_clock_seq_split(self.0, s),
    {
        (
            #[verifier::truncate] (((self.0 >> 8) & 0xf) as u8) | s << 4,
            #[verifier::truncate] ((self.0 & 0xff) as u8),
        )
    }
}

impl UUID {
    /// The guarded time-based packing shared by the version-1 and version-2
    /// generators: bumps the guard past its last issued timestamp and packs
    /// the new value, the given version tag, a fresh random clock sequence
    /// under the RFC variant, and the given node bytes into a layout.
    pub fn guarded_from_node(guard: &mut TimestampGuard, v: &Version, node: [u8; 6]) -> (r: Layout)
        requires
            old(guard).last_value() < u64::MAX,
        ensures
            final(guard).last_value() > old(guard).last_value(),
            final(guard).last_value() <= old(guard).last_value() + 1 || final(guard).last_value()
                <= TIMESTAMP_MASK,
            spec_time_fields(r, final(guard).last_value(), spec_version_value(*v)),
            spec_version_of(r.field_high_and_version) == Some(*v),
            spec_variant_of(r.clock_seq_high_and_reserved) == Some(Variant::RFC),
            exists|cs: u16|
                cs <= 0x3fff && (r.clock_seq_high_and_reserved, r.clock_seq_low)
                    == #[trigger] spec_clock_seq_split(cs, 1),
            r.node == node,
    {
        let t = guard.next();
        let clock_seq = Self::clock_seq_high_and_reserved(variant_value(&Variant::RFC));
        proof {
            lemma_time_tags(t, spec_version_value(*v));
        }
        Layout {
            field_low: #[verifier::truncate] ((t & 0xffff_ffff) as u32),
            field_mid: #[verifier::truncate] (((t >> 32) & 0xffff) as u16),
            field_high_and_version: #[verifier::truncate] (((t >> 48) & 0xfff) as u16)
                | version_value(v) << 12,
            clock_seq_high_and_reserved: clock_seq.0,
            clock_seq_low: clock_seq.1,
            node,
        }
    }

    /// Generate a time-based UUID from the host's hardware address, with a
    /// timestamp kept strictly increasing by the guard. Yields no value when
    /// the host has no usable network interface; the node bytes of a
    /// returned layout are exactly what the lookup handed over, by way of
    /// `guarded_from_node`.
    pub fn v1(guard: &mut TimestampGuard) -> (r: Option<Layout>)
        requires
            old(guard).last_value() < u64::MAX,
        ensures
            match r {
                Some(l) => {
                    &&& final(guard).last_value() > old(guard).last_value()
                    &&& final(guard).last_value() <= old(guard).last_value() + 1
                        || final(guard).last_value() <= TIMESTAMP_MASK
                    &&& spec_time_fields(l, final(guard).last_value(), 1)
                    &&& spec_version_of(l.field_high_and_version) == Some(Version::TIME)
                    &&& spec_variant_of(l.clock_seq_high_and_reserved) == Some(Variant::RFC)
                },
                None => final(guard).last_value() == old(guard).last_value(),
            },
    {
        match host_mac() {
            None => None,
            Some(node) => Some(Self::guarded_from_node(guard, &Version::TIME, node)),
        }
    }

    /// Generate a time-based, hardware-address and DCE-security UUID for the
    /// given domain. RFC 4122 reserves version 2 for DCE security UUIDs
    /// without giving details; here the domain takes the low clock-sequence
    /// byte. Yields no value when the host has no usable network interface;
    /// the node bytes of a returned layout are exactly what the lookup
    /// handed over, by way of `guarded_from_node`.
    pub fn v2(guard: &mut TimestampGuard, d: Domain) -> (r: Option<Layout>)
        requires
            old(guard).last_value() < u64::MAX,
        ensures
            match r {
                Some(l) => {
                    &&& final(guard).last_value() > old(guard).last_value()
                    &&& final(guard).last_value() <= old(guard).last_value() + 1
                        || final(guard).last_value() <= TIMESTAMP_MASK
                    &&& spec_time_fields(l, final(guard).last_value(), 2)
                    &&& l.clock_seq_low == spec_domain_value(d)
                    &&& spec_version_of(l.field_high_and_version) == Some(Version::DCE)
                    &&& spec_variant_of(l.clock_seq_high_and_reserved) == Some(Variant::RFC)
                },
                None => final(guard).last_value() == old(guard).last_value(),
            },
    {
        match host_mac() {
            None => None,
            Some(node) => {
                let mut l = Self::guarded_from_node(guard, &Version::DCE, node);
                l.clock_seq_low = domain_value(&d);
                Some(l)
            },
        }
    }

    /// Generate a time-based UUID with a caller-supplied node and version
    /// tag. The timestamp is a fresh, unguarded clock reading: this
    /// constructor deliberately stands outside the monotonicity guard.
    pub fn from_mac(v: Version, mac: [u8; 6]) -> (r: Layout)
        ensures
            exists|t: u64|
                t <= TIMESTAMP_MASK && #[trigger] spec_time_fields(r, t, spec_version_value(v)),
            spec_version_of(r.field_high_and_version) == Some(v),
            spec_variant_of(r.clock_seq_high_and_reserved) == Some(Variant::RFC),
            r.node == mac,
    {
        let timestamp = Timestamp::new();
        let t = timestamp.0;
        let clock_seq = Self::clock_seq_high_and_reserved(variant_value(&Variant::RFC));
        let r = Layout {
            field_low: #[verifier::truncate] ((t & 0xffff_ffff) as u32),
            field_mid: #[verifier::truncate] (((t >> 32) & 0xffff) as u16),
            field_high_and_version: #[verifier::truncate] (((t >> 48) & 0xfff) as u16)
                | version_value(&v) << 12,
            clock_seq_high_and_reserved: clock_seq.0,
            clock_seq_low: clock_seq.1,
            node: mac,
        };
        proof {
            lemma_time_tags(t, spec_version_value(v));
            assert(spec_time_fields(r, t, spec_version_value(v)));
        }
        r
    }

    /// The clock-sequence byte pair for a fresh random seed: the high byte
    /// carries the variant nibble `s` in bits 4 through 7 above the top four
    /// sequence bits, the low byte the bottom eight sequence bits.
    pub fn clock_seq_high_and_reserved(s: u8) -> (r: (u8, u8))
        requires
            s < 16,
        ensures
            (r.0 >> 4) & 0xf == s,
            exists|cs: u16| cs <= 0x3fff && r == #[trigger] spec_clock_seq_split(cs, s),
    {
        let seed: u16 = rand::random();
        let clock_seq = ClockSeq::new(seed);
        let r = clock_seq.split(s);
        proof {
            let cs = clock_seq.0;
            assert(((((cs >> 8) & 0xf) as u8 | (s << 4)) >> 4) & 0xf == s) by (bit_vector)
                requires
                    s < 16,
            ;
            assert(r == spec_clock_seq_split(cs, s));
        }
        r
    }
}

/// Timestamps issued under the guard decode in strictly increasing order: a
/// layout packed under any version tag from a guard value within the 60-bit
/// range reconstructs to exactly that value, so two layouts packed from
/// guard values `t1 < t2` decode to strictly increasing timestamps.
pub proof fn lemma_guarded_times_increase(l1: Layout, l2: Layout, t1: u64, t2: u64, ver: u16)
    requires
        t1 < t2,
        t2 <= TIMESTAMP_MASK,
        ver < 16,
        spec_time_fields(l1, t1, ver),
        spec_time_fields(l2, t2, ver),
    ensures
        spec_raw_time(l1) == t1,
        spec_raw_time(l2) == t2,
        spec_raw_time(l1) < spec_raw_time(l2),
        spec_raw_time(l1) >= UTC_EPOCH ==> spec_raw_time(l1) - UTC_EPOCH < spec_raw_time(l2)
            - UTC_EPOCH,
{
    lemma_time_fields_decode(l1, t1, ver);
    lemma_time_fields_decode(l2, t2, ver);
}

/// A layout's time fields, packed from a value within the 60-bit range,
/// reconstruct to exactly that value once the version nibble is masked out.
pub proof fn lemma_time_fields_decode(l: Layout, t: u64, ver: u16)
    requires
        t <= TIMESTAMP_MASK,
        ver < 16,
        spec_time_fields(l, t, ver),
    ensures
        spec_raw_time(l) == t,
{
    let hv = l.field_high_and_version;
    let mid = l.field_mid;
    let lo = l.field_low;
    assert(((hv & 0x0fff) as u64) << 48 | (mid as u64) << 32 | (lo as u64) == t) by (bit_vector)
        requires
            t <= 0x0FFF_FFFF_FFFF_FFFFu64,
            ver < 16,
            lo == (t & 0xffff_ffff) as u32,
            mid == ((t >> 32) & 0xffff) as u16,
            hv == (((t >> 48) & 0xfff) as u16) | (ver << 12),
    ;
}

} // verus!
