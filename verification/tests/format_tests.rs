use regex::Regex;
use uuid_rs::{ClockSeq, Layout, Node, Timestamp, Variant, Version, UUID};

fn is_valid(s: &str) -> bool {
    let regex = Regex::new(
        r"^(?i)(urn:uuid:)?[0-9a-f]{8}\-[0-9a-f]{4}\-[0-5]{1}[0-9a-f]{3}\-[0-9a-f]{4}\-[0-9a-f]{12}$",
    );
    regex.unwrap().is_match(s)
}

#[test]
fn test_node_format() {
    let node = Node([00, 42, 53, 13, 19, 128]);

    assert_eq!(node.to_string(), "00-2a-35-0d-13-80");
    assert_eq!(node.to_string().to_uppercase(), "00-2A-35-0D-13-80")
}

#[test]
fn test_is_valid_uuid() {
    let uuid_strings = [
        "550e8400-e29b-41d4-a716-446655440000", // Example v4 UUID
        "d9428888-122b-11e1-b85c-61cd3cbb3210", // Example v1 UUID
        "6ba7b810-9dad-11d1-80b4-00c04fd430c8", // namespace_url constant
        "6ba7b814-9dad-11d1-80b4-00c04fd430c8", // namespace_x500 constant
    ];

    for id in uuid_strings.iter() {
        assert!(is_valid(id));
        assert!(is_valid(&id.to_uppercase()));
    }
}

#[test]
fn test_display_known_bytes() {
    let uuid = UUID::from_octets([
        0x6b, 0xa7, 0xb8, 0x10, 0x9d, 0xad, 0x11, 0xd1, 0x80, 0xb4, 0x00, 0xc0, 0x4f, 0xd4, 0x30,
        0xc8,
    ]);
    assert_eq!(uuid.to_string(), "6ba7b810-9dad-11d1-80b4-00c04fd430c8");
}

#[test]
fn test_namespace_constants_display() {
    assert_eq!(
        UUID::namespace_dns().to_string(),
        "6ba7b810-9dad-11d1-80b4-00c04fd430c8"
    );
    assert_eq!(
        UUID::namespace_url().to_string(),
        "6ba7b811-9dad-11d1-80b4-00c04fd430c8"
    );
    assert_eq!(
        UUID::namespace_oid().to_string(),
        "6ba7b812-9dad-11d1-80b4-00c04fd430c8"
    );
    assert_eq!(
        UUID::namespace_x500().to_string(),
        "6ba7b814-9dad-11d1-80b4-00c04fd430c8"
    );
}

#[test]
fn test_bytes_round_trip() {
    let layout = Layout {
        field_low: 0x12345678,
        field_mid: 0x9abc,
        field_high_and_version: 0x1def,
        clock_seq_high_and_reserved: 0x8f,
        clock_seq_low: 0x42,
        node: [1, 2, 3, 4, 5, 6],
    };
    let b = layout.as_bytes().octets();
    assert_eq!(
        b,
        [0x12, 0x34, 0x56, 0x78, 0x9a, 0xbc, 0x1d, 0xef, 0x8f, 0x42, 1, 2, 3, 4, 5, 6]
    );

    let field_low = (b[0] as u32) << 24 | (b[1] as u32) << 16 | (b[2] as u32) << 8 | b[3] as u32;
    let field_mid = (b[4] as u16) << 8 | b[5] as u16;
    let field_high_and_version = (b[6] as u16) << 8 | b[7] as u16;
    assert_eq!(field_low, layout.field_low);
    assert_eq!(field_mid, layout.field_mid);
    assert_eq!(field_high_and_version, layout.field_high_and_version);
    assert_eq!(b[8], layout.clock_seq_high_and_reserved);
    assert_eq!(b[9], layout.clock_seq_low);
    assert_eq!(&b[10..16], &layout.node);
}

#[test]
fn test_as_fields_values() {
    let layout = Layout {
        field_low: 0x12345678,
        field_mid: 0x9abc,
        field_high_and_version: 0x1def,
        clock_seq_high_and_reserved: 0x8f,
        clock_seq_low: 0x42,
        node: [1, 2, 3, 4, 5, 6],
    };
    assert_eq!(
        layout.as_fields(),
        (0x12345678, 0x9abc, 0x1def, 0x8f42, 0x010203040506)
    );
}

#[test]
fn test_get_time_value() {
    let layout = Layout {
        field_low: 0x12345678,
        field_mid: 0x9abc,
        field_high_and_version: 0x1def,
        clock_seq_high_and_reserved: 0x8f,
        clock_seq_low: 0x42,
        node: [1, 2, 3, 4, 5, 6],
    };
    // 0x0def_9abc_1234_5678 (version nibble masked out) minus the epoch offset.
    assert_eq!(layout.get_time(), 0x0c3d7ce9feb31678);
}

#[test]
fn test_timestamp_from_unix_nanos() {
    // Zero nanoseconds since 1970 decodes to exactly the epoch offset.
    assert_eq!(Timestamp::from_unix_nanos(0).0, 0x01b2_1dd2_1381_4000);
    // One second is 10_000_000 ticks of 100 ns.
    assert_eq!(Timestamp::from_unix_nanos(1_000_000_000).0, 0x01b2_1dd2_1419_d680);
}

#[test]
fn test_unrecognized_version_and_variant() {
    let layout = Layout {
        field_low: 0,
        field_mid: 0,
        field_high_and_version: 0x6abc,
        clock_seq_high_and_reserved: 0x42,
        clock_seq_low: 0,
        node: [0; 6],
    };
    assert_eq!(layout.get_version(), None);
    assert_eq!(layout.get_variant(), None);

    let layout = Layout {
        field_low: 0,
        field_mid: 0,
        field_high_and_version: 0x0abc,
        clock_seq_high_and_reserved: 0x25,
        clock_seq_low: 0,
        node: [0; 6],
    };
    assert_eq!(layout.get_version(), None);
    assert_eq!(layout.get_variant(), Some(Variant::MS));
}

#[test]
fn test_clock_seq_masks_seed() {
    assert_eq!(ClockSeq::new(0xffff).0, 0x3fff);
    assert_eq!(ClockSeq::new(0x1234).0, 0x1234);
}

#[test]
fn test_timestamp_width() {
    let t = Timestamp::new();
    assert!(t.0 <= 0x0fff_ffff_ffff_ffff);
    let d = Timestamp::default();
    assert!(d.0 <= 0x0fff_ffff_ffff_ffff);
}

#[test]
fn test_from_digest_packing() {
    let digest: Vec<u8> = vec![0, 1, 2, 3, 4, 5, 6, 7, 8, 9, 10, 11, 12, 13, 14, 15];
    let layout = Layout::from_digest(&digest, &Version::MD5);
    assert_eq!(layout.field_low, 0x00010203);
    assert_eq!(layout.field_mid, 0x0405);
    assert_eq!(layout.field_high_and_version, 0x3607);
    assert_eq!(layout.clock_seq_high_and_reserved, 0x18);
    assert_eq!(layout.clock_seq_low, 9);
    assert_eq!(layout.node, [10, 11, 12, 13, 14, 15]);
    assert_eq!(layout.get_version(), Some(Version::MD5));
    assert_eq!(layout.get_variant(), Some(Variant::RFC));
}
