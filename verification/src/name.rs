//! Name-based generation: a UUID built by hashing a namespace identifier and
//! a name, with MD5 (version 3) or SHA-1 (version 5).

use vstd::prelude::*;
use vstd::string::StringExecFns;

use crate::hex::spec_uuid_chars;
use crate::spec_variant_of;
use crate::spec_version_of;
use crate::spec_version_value;
use crate::variant_value;
use crate::version_value;
use crate::Layout;
use crate::Variant;
use crate::Version;
use crate::UUID;

verus! {

/// The MD5 digest of a string's bytes. It depends on the characters alone.
pub uninterp spec fn md5_of(s: Seq<char>) -> Seq<u8>;

/// The SHA-1 digest of a string's bytes. It depends on the characters alone.
pub uninterp spec fn sha1_of(s: Seq<char>) -> Seq<u8>;

/// Relies on md5::compute: the 16-byte MD5 digest of the input bytes.
#[verifier::external_body]
fn md5_digest(input: &str) -> (r: Vec<u8>)
    ensures
        r@ == md5_of(input@),
        r@.len() == 16,
{
    md5::compute(input).0.to_vec()
}

/// Relies on sha1_smol::Sha1 (from, digest, bytes): the 20-byte SHA-1 digest
/// of the input bytes.
#[verifier::external_body]
fn sha1_digest(input: &str) -> (r: Vec<u8>)
    ensures
        r@ == sha1_of(input@),
        r@.len() == 20,
{
    sha1_smol::Sha1::from(input).digest().bytes().to_vec()
}

/// The hash input for name-based generation: the namespace's canonical
/// display string followed by the raw name. The display string, not the
/// namespace's raw bytes, is hashed; this deviates from the RFC 4122
/// reference algorithm and is kept so that outputs stay reproducible.
pub open spec fn spec_name_data(any: Seq<char>, namespace: Seq<u8>) -> Seq<char> {
    spec_uuid_chars(namespace) + any
}

/// Whether a layout holds the first 16 digest bytes in the name-based
/// packing: bytes 0-3 the low time field, 4-5 the mid field, 6-7 masked to
/// 12 bits with the version tag in the top nibble, byte 8's low nibble with
/// the RFC variant in bits 4-7, byte 9 the low clock sequence, bytes 10-15
/// the node.
pub open spec fn spec_layout_matches_digest(l: Layout, h: Seq<u8>, ver: u16) -> bool
    recommends
        h.len() >= 16,
        ver < 16,
{
    &&& l.field_low == (h[0] as u32) << 24 | (h[1] as u32) << 16 | (h[2] as u32) << 8 | (
    h[3] as u32)
    &&& l.field_mid == (h[4] as u16) << 8 | (h[5] as u16)
    &&& l.field_high_and_version == ((h[6] as u16) << 8 | (h[7] as u16)) & 0xfff | (ver << 12)
    &&& l.clock_seq_high_and_reserved == (h[8] & 0xf) | 0x10
    &&& l.clock_seq_low == h[9]
    &&& l.node@ == h.subrange(10, 16)
}

proof fn lemma_digest_tags(x: u16, ver: u16, c: u8)
    by (bit_vector)
    requires
        ver < 16,
    ensures
        ((x & 0xfff | (ver << 12)) >> 12) & 0xf == ver,
        (((c & 0xf) | 0x10) >> 4) & 0xf == 1,
{
}

impl Layout {
    /// Packs the first 16 bytes of a digest into a layout under the given
    /// version tag, forcing the RFC variant.
    pub fn from_digest(hash: &Vec<u8>, v: &Version) -> (r: Layout)
        requires
            hash@.len() >= 16,
        ensures
            spec_layout_matches_digest(r, hash@, spec_version_value(*v)),
            spec_version_of(r.field_high_and_version) == Some(*v),
            spec_variant_of(r.clock_seq_high_and_reserved) == Some(Variant::RFC),
    {
        let ver = version_value(v);
        let variant = variant_value(&Variant::RFC);
        let r = Layout {
            field_low: (hash[0] as u32) << 24 | (hash[1] as u32) << 16 | (hash[2] as u32) << 8
                | hash[3] as u32,
            field_mid: (hash[4] as u16) << 8 | hash[5] as u16,
            field_high_and_version: ((hash[6] as u16) << 8 | hash[7] as u16) & 0xfff | ver << 12,
            clock_seq_high_and_reserved: (hash[8] & 0xf) | variant << 4,
            clock_seq_low: hash[9],
            node: [hash[10], hash[11], hash[12], hash[13], hash[14], hash[15]],
        };
        proof {
            assert(1u8 << 4 == 0x10) by (bit_vector);
            assert(r.node@ =~= hash@.subrange(10, 16));
            lemma_digest_tags((hash@[6] as u16) << 8 | (hash@[7] as u16), spec_version_value(*v), hash@[8]);
        }
        r
    }
}

impl UUID {
    /// The hash input for name-based generation: this UUID's canonical
    /// display string followed by the raw name.
    pub fn data(any: &str, namespace: UUID) -> (r: String)
        ensures
            r@ == spec_name_data(any@, namespace@),
    {
        let s = namespace.to_string();
        s.concat(any)
    }

    /// Generate a UUID by hashing a namespace identifier and a name with MD5.
    pub fn v3(any: &str, namespace: UUID) -> (r: Layout)
        ensures
            md5_of(spec_name_data(any@, namespace@)).len() == 16,
            spec_layout_matches_digest(r, md5_of(spec_name_data(any@, namespace@)), 3),
            spec_version_of(r.field_high_and_version) == Some(Version::MD5),
            spec_variant_of(r.clock_seq_high_and_reserved) == Some(Variant::RFC),
    {
        let input = Self::data(any, namespace);
        let hash = md5_digest(input.as_str());
        Layout::from_digest(&hash, &Version::MD5)
    }

    /// Generate a UUID by hashing a namespace identifier and a name with SHA-1.
    pub fn v5(any: &str, namespace: UUID) -> (r: Layout)
        ensures
            sha1_of(spec_name_data(any@, namespace@)).len() == 20,
            spec_layout_matches_digest(r, sha1_of(spec_name_data(any@, namespace@)), 5),
            spec_version_of(r.field_high_and_version) == Some(Version::SHA1),
            spec_variant_of(r.clock_seq_high_and_reserved) == Some(Variant::RFC),
    {
        let input = Self::data(any, namespace);
        let hash = sha1_digest(input.as_str());
        Layout::from_digest(&hash, &Version::SHA1)
    }
}

/// Name-based generation is deterministic: two layouts packed from the same
/// digest under the same version tag agree exactly, so two calls on the same
/// name and namespace yield identical output.
pub proof fn lemma_name_based_deterministic(l1: Layout, l2: Layout, h: Seq<u8>, ver: u16)
    requires
        h.len() >= 16,
        ver < 16,
        spec_layout_matches_digest(l1, h, ver),
        spec_layout_matches_digest(l2, h, ver),
    ensures
        l1 == l2,
{
    broadcast use vstd::array::group_array_axioms;

    assert(l1.node@ =~= l2.node@);
    assert(l1.node =~= l2.node);
}

/// For any one name and namespace, the version-3 and version-5 layouts
/// differ: whatever the two digests hold, the version nibbles alone separate
/// the high-and-version fields.
pub proof fn lemma_v3_v5_differ(l3: Layout, l5: Layout, h3: Seq<u8>, h5: Seq<u8>)
    requires
        h3.len() >= 16,
        h5.len() >= 16,
        spec_layout_matches_digest(l3, h3, 3),
        spec_layout_matches_digest(l5, h5, 5),
    ensures
        l3 != l5,
{
    let x3 = (h3[6] as u16) << 8 | (h3[7] as u16);
    let x5 = (h5[6] as u16) << 8 | (h5[7] as u16);
    assert((x3 & 0xfff | (3u16 << 12)) != (x5 & 0xfff | (5u16 << 12))) by (bit_vector);
}

} // verus!
