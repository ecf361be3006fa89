//! Universally Unique IDentifiers (UUIDs) per RFC 4122: 128-bit values built
//! time-based (version 1), DCE security (version 2) or name-based (versions
//! 3 and 5, by MD5 or SHA-1 hashing), and decoded back into their fields
//! (timestamp, clock sequence, node identifier, version, variant).

use vstd::prelude::*;

pub mod hex;
pub mod name;
pub mod time;

verus! {

/// 100-ns ticks between the UUID epoch (1582-10-15) and the Unix epoch (1970-01-01).
pub const UTC_EPOCH: u64 = 0x01B2_1DD2_1381_4000;

/// Largest value a 60-bit timestamp can hold.
pub const TIMESTAMP_MASK: u64 = 0x0FFF_FFFF_FFFF_FFFF;

/// The five-field decomposition of a 128-bit UUID.
#[derive(Debug, PartialEq)]
pub struct Layout {
    /// The low field of the timestamp.
    pub field_low: u32,
    /// The mid field of the timestamp.
    pub field_mid: u16,
    /// The high field of the timestamp multiplexed with the version number.
    pub field_high_and_version: u16,
    /// The high field of the clock sequence multiplexed with the variant.
    pub clock_seq_high_and_reserved: u8,
    /// The low field of the clock sequence.
    pub clock_seq_low: u8,
    /// IEEE 802 MAC address, or hash-derived bytes for name-based versions.
    pub node: [u8; 6],
}

/// The 48-bit node identifier packed into one integer, big-endian.
pub open spec fn spec_node48(n: Seq<u8>) -> u64
    recommends
        n.len() == 6,
{
    (n[0] as u64) << 40 | (n[1] as u64) << 32 | (n[2] as u64) << 24 | (n[3] as u64) << 16 | (
    n[4] as u64) << 8 | (n[5] as u64)
}

/// The canonical 16-byte big-endian serialization of a layout.
pub open spec fn spec_layout_bytes(l: Layout) -> Seq<u8> {
    seq![
        (l.field_low >> 24) as u8,
        (l.field_low >> 16) as u8,
        (l.field_low >> 8) as u8,
        l.field_low as u8,
        (l.field_mid >> 8) as u8,
        l.field_mid as u8,
        (l.field_high_and_version >> 8) as u8,
        l.field_high_and_version as u8,
        l.clock_seq_high_and_reserved,
        l.clock_seq_low,
        l.node[0],
        l.node[1],
        l.node[2],
        l.node[3],
        l.node[4],
        l.node[5],
    ]
}

/// The 60-bit timestamp reconstructed from a layout's three time fields,
/// with the version nibble masked out.
pub open spec fn spec_raw_time(l: Layout) -> u64 {
    ((l.field_high_and_version & 0x0fff) as u64) << 48 | (l.field_mid as u64) << 32 | (
    l.field_low as u64)
}

/// Which version a high-and-version field encodes, if any.
pub open spec fn spec_version_of(field_high_and_version: u16) -> Option<Version> {
    let nibble = (field_high_and_version >> 12) & 0xf;
    if nibble == 0x01 {
        Some(Version::TIME)
    } else if nibble == 0x02 {
        Some(Version::DCE)
    } else if nibble == 0x03 {
        Some(Version::MD5)
    } else if nibble == 0x04 {
        Some(Version::RAND)
    } else if nibble == 0x05 {
        Some(Version::SHA1)
    } else {
        None
    }
}

/// Which variant a clock-seq-high-and-reserved byte encodes, if any. Only the
/// shifted nibble values 0 through 3 are recognized; anything larger reports
/// no variant at all, a deliberately narrower reading than the RFC 4122
/// 2-to-3-bit scheme.
pub open spec fn spec_variant_of(clock_seq_high_and_reserved: u8) -> Option<Variant> {
    let nibble = (clock_seq_high_and_reserved >> 4) & 0xf;
    if nibble == 0x00 {
        Some(Variant::NCS)
    } else if nibble == 0x01 {
        Some(Variant::RFC)
    } else if nibble == 0x02 {
        Some(Variant::MS)
    } else if nibble == 0x03 {
        Some(Variant::FUT)
    } else {
        None
    }
}

impl Layout {
    /// Returns the five field values of the UUID in big-endian order.
    pub fn as_fields(&self) -> (r: (u32, u16, u16, u16, u64))
        ensures
            r.0 == self.field_low,
            r.1 == self.field_mid,
            r.2 == self.field_high_and_version,
            r.3 == (self.clock_seq_high_and_reserved as u16) << 8 | (self.clock_seq_low as u16),
            r.4 == spec_node48(self.node@),
    {
        (
            self.field_low,
            self.field_mid,
            self.field_high_and_version,
            ((self.clock_seq_high_and_reserved as u16) << 8) | self.clock_seq_low as u16,
            (self.node[0] as u64) << 40 | (self.node[1] as u64) << 32 | (self.node[2] as u64) << 24
                | (self.node[3] as u64) << 16 | (self.node[4] as u64) << 8 | (self.node[5] as u64),
        )
    }

    /// Serializes the five fields into the canonical 16-byte big-endian value.
    pub fn as_bytes(&self) -> (r: UUID)
        ensures
            r@ == spec_layout_bytes(*self),
    {
        let r = UUID(
            [
                #[verifier::truncate] ((self.field_low >> 24) as u8),
                #[verifier::truncate] ((self.field_low >> 16) as u8),
                #[verifier::truncate] ((self.field_low >> 8) as u8),
                #[verifier::truncate] (self.field_low as u8),
                #[verifier::truncate] ((self.field_mid >> 8) as u8),
                #[verifier::truncate] (self.field_mid as u8),
                #[verifier::truncate] ((self.field_high_and_version >> 8) as u8),
                #[verifier::truncate] (self.field_high_and_version as u8),
                self.clock_seq_high_and_reserved,
                self.clock_seq_low,
                self.node[0],
                self.node[1],
                self.node[2],
                self.node[3],
                self.node[4],
                self.node[5],
            ],
        );
        proof {
            assert(r@ =~= spec_layout_bytes(*self));
        }
        r
    }

    /// Extracts the version nibble, bits 12 through 15 of
    /// `field_high_and_version`; reports no value when the nibble does not
    /// name one of the five defined versions.
    pub fn get_version(&self) -> (r: Option<Version>)
        ensures
            r == spec_version_of(self.field_high_and_version),
    {
        match (self.field_high_and_version >> 12) & 0xf {
            0x01 => Some(Version::TIME),
            0x02 => Some(Version::DCE),
            0x03 => Some(Version::MD5),
            0x04 => Some(Version::RAND),
            0x05 => Some(Version::SHA1),
            _ => None,
        }
    }

    /// Extracts the variant from the top nibble of
    /// `clock_seq_high_and_reserved`; reports no value for nibbles above 3.
    pub fn get_variant(&self) -> (r: Option<Variant>)
        ensures
            r == spec_variant_of(self.clock_seq_high_and_reserved),
    {
        match (self.clock_seq_high_and_reserved >> 4) & 0xf {
            0x00 => Some(Variant::NCS),
            0x01 => Some(Variant::RFC),
            0x02 => Some(Variant::MS),
            0x03 => Some(Variant::FUT),
            _ => None,
        }
    }

    /// Reconstructs the 60-bit timestamp from the three time fields, the
    /// version nibble excluded, and subtracts the epoch offset. A layout
    /// whose stored timestamp is below the offset was never produced by a
    /// conforming generator, so such inputs are ruled out rather than
    /// handled.
    pub fn get_time(&self) -> (r: u64)
        requires
            spec_raw_time(*self) >= UTC_EPOCH,
        ensures
            r == spec_raw_time(*self) - UTC_EPOCH,
    {
        let t = ((self.field_high_and_version & 0x0fff) as u64) << 48 | (self.field_mid as u64)
            << 32 | self.field_low as u64;
        t - UTC_EPOCH
    }

    /// Returns the node field wrapped for display.
    pub fn get_mac(&self) -> (r: Node)
        ensures
            r.0 == self.node,
    {
        Node(self.node)
    }
}

/// Every layout decomposes back out of its byte serialization: the five
/// fields can be read off `spec_layout_bytes` exactly.
pub proof fn lemma_bytes_round_trip(l: Layout)
    ensures
        l.field_low == (spec_layout_bytes(l)[0] as u32) << 24 | (spec_layout_bytes(l)[1] as u32)
            << 16 | (spec_layout_bytes(l)[2] as u32) << 8 | (spec_layout_bytes(l)[3] as u32),
        l.field_mid == (spec_layout_bytes(l)[4] as u16) << 8 | (spec_layout_bytes(l)[5] as u16),
        l.field_high_and_version == (spec_layout_bytes(l)[6] as u16) << 8 | (spec_layout_bytes(
            l,
        )[7] as u16),
        l.clock_seq_high_and_reserved == spec_layout_bytes(l)[8],
        l.clock_seq_low == spec_layout_bytes(l)[9],
        l.node@ == spec_layout_bytes(l).subrange(10, 16),
{
    let lo = l.field_low;
    assert(lo == ((lo >> 24) as u8 as u32) << 24 | ((lo >> 16) as u8 as u32) << 16 | ((lo
        >> 8) as u8 as u32) << 8 | (lo as u8 as u32)) by (bit_vector);
    let mid = l.field_mid;
    assert(mid == ((mid >> 8) as u8 as u16) << 8 | (mid as u8 as u16)) by (bit_vector);
    let hv = l.field_high_and_version;
    assert(hv == ((hv >> 8) as u8 as u16) << 8 | (hv as u8 as u16)) by (bit_vector);
    assert(l.node@ =~= spec_layout_bytes(l).subrange(10, 16));
}

/// The security domain a version-2 UUID is issued for.
#[derive(Debug, Copy, Clone)]
pub enum Domain {
    PERSON,
    GROUP,
    ORG,
}

/// The byte a domain contributes to the low clock-sequence field.
pub open spec fn spec_domain_value(d: Domain) -> u8 {
    match d {
        Domain::PERSON => 0,
        Domain::GROUP => 1,
        Domain::ORG => 2,
    }
}

/// Returns the byte a domain contributes to the low clock-sequence field.
pub fn domain_value(d: &Domain) -> (r: u8)
    ensures
        r == spec_domain_value(*d),
{
    match d {
        Domain::PERSON => 0,
        Domain::GROUP => 1,
        Domain::ORG => 2,
    }
}

/// The layout convention a UUID follows.
#[derive(Debug, Eq, PartialEq)]
pub enum Variant {
    /// Reserved, NCS backward compatibility.
    NCS,
    /// The variant specified in RFC 4122.
    RFC,
    /// Reserved, Microsoft Corporation backward compatibility.
    MS,
    /// Reserved for future definition.
    FUT,
}

/// The nibble value a variant occupies in the clock-seq-high byte.
pub open spec fn spec_variant_value(v: Variant) -> u8 {
    match v {
        Variant::NCS => 0,
        Variant::RFC => 1,
        Variant::MS => 2,
        Variant::FUT => 3,
    }
}

/// Returns the nibble value a variant occupies in the clock-seq-high byte.
pub fn variant_value(v: &Variant) -> (r: u8)
    ensures
        r == spec_variant_value(*v),
{
    match v {
        Variant::NCS => 0,
        Variant::RFC => 1,
        Variant::MS => 2,
        Variant::FUT => 3,
    }
}

/// The generation algorithm a UUID was built by, kept in the most
/// significant four bits of the timestamp.
#[derive(Debug, Eq, PartialEq)]
pub enum Version {
    /// Time-based.
    TIME,
    /// DCE Security, with embedded POSIX UIDs.
    DCE,
    /// Name-based, using MD5 hashing.
    MD5,
    /// Randomly or pseudo-randomly generated.
    RAND,
    /// Name-based, using SHA-1 hashing.
    SHA1,
}

/// The nibble value a version occupies in the high timestamp field.
pub open spec fn spec_version_value(v: Version) -> u16 {
    match v {
        Version::TIME => 1,
        Version::DCE => 2,
        Version::MD5 => 3,
        Version::RAND => 4,
        Version::SHA1 => 5,
    }
}

/// Returns the nibble value a version occupies in the high timestamp field.
pub fn version_value(v: &Version) -> (r: u16)
    ensures
        r == spec_version_value(*v),
{
    match v {
        Version::TIME => 1,
        Version::DCE => 2,
        Version::MD5 => 3,
        Version::RAND => 4,
        Version::SHA1 => 5,
    }
}

/// Coordinated Universal Time as a count of 100-ns intervals since the UUID
/// epoch, masked to the 60 bits a layout can carry.
#[derive(Debug, Eq, PartialEq, PartialOrd)]
pub struct Timestamp(pub u64);

/// Relies on `std::time::SystemTime::now` and
/// `SystemTime::duration_since(UNIX_EPOCH)`: the span from the Unix epoch to
/// the current wall-clock instant in nanoseconds, or no value when the clock
/// reads earlier than that epoch. Nothing can be promised of a clock reading.
#[verifier::external_body]
fn wall_clock_nanos() -> (r: Option<u128>) {
    match std::time::SystemTime::now().duration_since(std::time::SystemTime::UNIX_EPOCH) {
        Ok(d) => Some(d.as_nanos()),
        Err(_) => None,
    }
}

impl Timestamp {
    /// The timestamp for a wall-clock reading of `nanos` nanoseconds since
    /// the Unix epoch: 100-ns ticks, plus the epoch offset, masked to the 60
    /// bits RFC 4122 grants the timestamp.
    pub fn from_unix_nanos(nanos: u128) -> (r: Self)
        ensures
            r.0 == ((((nanos / 100) + UTC_EPOCH as u128) as u128) & (TIMESTAMP_MASK as u128)) as u64,
            r.0 <= TIMESTAMP_MASK,
    {
        let intervals: u128 = nanos / 100;
        assert(intervals + (UTC_EPOCH as u128) <= u128::MAX) by {
            assert(nanos / 100 <= u128::MAX / 100) by (nonlinear_arith)
                requires
                    nanos <= u128::MAX,
            ;
        };
        let utc: u128 = intervals + UTC_EPOCH as u128;
        let masked: u128 = utc & (TIMESTAMP_MASK as u128);
        assert(masked <= TIMESTAMP_MASK) by {
            assert(utc & 0x0FFF_FFFF_FFFF_FFFFu128 <= 0x0FFF_FFFF_FFFF_FFFFu128) by (bit_vector);
        };
        Timestamp(masked as u64)
    }

    /// Reads the wall clock and converts it through `from_unix_nanos`; a
    /// clock reading earlier than the Unix epoch counts as zero. Wall clocks
    /// can move backward, so nothing more than the width bound holds of one
    /// reading; monotonicity is layered on separately by the timestamp
    /// guard.
    pub fn new() -> (r: Self)
        ensures
            r.0 <= TIMESTAMP_MASK,
    {
        let nanos: u128 = match wall_clock_nanos() {
            Some(n) => n,
            None => 0,
        };
        Self::from_unix_nanos(nanos)
    }
}

impl Default for Timestamp {
    /// A fresh wall-clock reading.
    fn default() -> (r: Self)
        ensures
            r.0 <= TIMESTAMP_MASK,
    {
        Self::new()
    }
}

/// The 14-bit anti-collision counter that protects time-based UUIDs against
/// clock regression or a change of node identifier.
#[derive(Debug)]
pub struct ClockSeq(pub u16);

impl ClockSeq {
    /// Masks the caller-supplied random seed to the 14 bits RFC 4122 grants
    /// the clock sequence. The counter this design increments is local to the
    /// call and the pre-increment value is returned, so the sequence issued
    /// is exactly the masked seed: each call is independent, and collision
    /// protection rests on the randomness of the seed alone.
    pub fn new(random_bits: u16) -> (r: Self)
        ensures
            r.0 == random_bits & 0x3fff,
            r.0 <= 0x3fff,
    {
        proof {
            assert(random_bits & 0x3fff <= 0x3fff) by (bit_vector);
        }
        Self(random_bits & 0x3fff)
    }
}

/// A 128-bit number used to identify information in computer systems: the
/// flattened 16-byte form of a layout.
#[derive(Debug, Eq, PartialEq, Copy, Clone)]
pub struct UUID(pub(crate) [u8; 16]);

impl View for UUID {
    type V = Seq<u8>;

    closed spec fn view(&self) -> Seq<u8> {
        self.0@
    }
}

/// The fixed namespace value for domain name system (DNS) names.
pub open spec fn spec_namespace_dns() -> Seq<u8> {
    seq![
        0x6bu8,
        0xa7,
        0xb8,
        0x10,
        0x9d,
        0xad,
        0x11,
        0xd1,
        0x80,
        0xb4,
        0x00,
        0xc0,
        0x4f,
        0xd4,
        0x30,
        0xc8,
    ]
}

/// The fixed namespace value for ISO object identifiers (OIDs).
pub open spec fn spec_namespace_oid() -> Seq<u8> {
    seq![
        0x6bu8,
        0xa7,
        0xb8,
        0x12,
        0x9d,
        0xad,
        0x11,
        0xd1,
        0x80,
        0xb4,
        0x00,
        0xc0,
        0x4f,
        0xd4,
        0x30,
        0xc8,
    ]
}

/// The fixed namespace value for uniform resource locators (URLs).
pub open spec fn spec_namespace_url() -> Seq<u8> {
    seq![
        0x6bu8,
        0xa7,
        0xb8,
        0x11,
        0x9d,
        0xad,
        0x11,
        0xd1,
        0x80,
        0xb4,
        0x00,
        0xc0,
        0x4f,
        0xd4,
        0x30,
        0xc8,
    ]
}

/// The fixed namespace value for X.500 distinguished names (DNs).
pub open spec fn spec_namespace_x500() -> Seq<u8> {
    seq![
        0x6bu8,
        0xa7,
        0xb8,
        0x14,
        0x9d,
        0xad,
        0x11,
        0xd1,
        0x80,
        0xb4,
        0x00,
        0xc0,
        0x4f,
        0xd4,
        0x30,
        0xc8,
    ]
}

impl UUID {
    /// UUID namespace for domain name system (DNS) names, RFC 4122 Appendix C.
    pub fn namespace_dns() -> (r: UUID)
        ensures
            r@ == spec_namespace_dns(),
    {
        let r = UUID(
            [
                0x6b,
                0xa7,
                0xb8,
                0x10,
                0x9d,
                0xad,
                0x11,
                0xd1,
                0x80,
                0xb4,
                0x00,
                0xc0,
                0x4f,
                0xd4,
                0x30,
                0xc8,
            ],
        );
        proof {
            assert(r@ =~= spec_namespace_dns());
        }
        r
    }

    /// UUID namespace for ISO object identifiers (OIDs), RFC 4122 Appendix C.
    pub fn namespace_oid() -> (r: UUID)
        ensures
            r@ == spec_namespace_oid(),
    {
        let r = UUID(
            [
                0x6b,
                0xa7,
                0xb8,
                0x12,
                0x9d,
                0xad,
                0x11,
                0xd1,
                0x80,
                0xb4,
                0x00,
                0xc0,
                0x4f,
                0xd4,
                0x30,
                0xc8,
            ],
        );
        proof {
            assert(r@ =~= spec_namespace_oid());
        }
        r
    }

    /// UUID namespace for uniform resource locators (URLs), RFC 4122 Appendix C.
    pub fn namespace_url() -> (r: UUID)
        ensures
            r@ == spec_namespace_url(),
    {
        let r = UUID(
            [
                0x6b,
                0xa7,
                0xb8,
                0x11,
                0x9d,
                0xad,
                0x11,
                0xd1,
                0x80,
                0xb4,
                0x00,
                0xc0,
                0x4f,
                0xd4,
                0x30,
                0xc8,
            ],
        );
        proof {
            assert(r@ =~= spec_namespace_url());
        }
        r
    }

    /// UUID namespace for X.500 distinguished names (DNs), RFC 4122 Appendix C.
    pub fn namespace_x500() -> (r: UUID)
        ensures
            r@ == spec_namespace_x500(),
    {
        let r = UUID(
            [
                0x6b,
                0xa7,
                0xb8,
                0x14,
                0x9d,
                0xad,
                0x11,
                0xd1,
                0x80,
                0xb4,
                0x00,
                0xc0,
                0x4f,
                0xd4,
                0x30,
                0xc8,
            ],
        );
        proof {
            assert(r@ =~= spec_namespace_x500());
        }
        r
    }
}

impl UUID {
    /// A UUID from its sixteen octets.
    pub fn from_octets(octets: [u8; 16]) -> (r: UUID)
        ensures
            r@ == octets@,
    {
        UUID(octets)
    }

    /// The sixteen octets of this UUID.
    pub fn octets(&self) -> (r: [u8; 16])
        ensures
            r@ == self@,
    {
        self.0
    }
}

/// A 48-bit hardware or hash-derived identifier, wrapped for display.
pub struct Node(pub [u8; 6]);

} // verus!
