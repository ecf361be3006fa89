use uuid_rs::time::TimestampGuard;
use uuid_rs::{ClockSeq, Domain, Variant, Version, UUID};

fn host_has_mac() -> bool {
    matches!(mac_address::get_mac_address(), Ok(Some(_)))
}

#[test]
fn test_v1() {
    let mut guard = TimestampGuard::new();
    match UUID::v1(&mut guard) {
        Some(uuid) => {
            assert_eq!(uuid.get_version(), Some(Version::TIME));
            assert_eq!(uuid.get_variant(), Some(Variant::RFC));

            let mac = mac_address::get_mac_address().unwrap().unwrap().bytes();
            assert_eq!(
                uuid.as_fields().4,
                (mac[0] as u64) << 40
                    | (mac[1] as u64) << 32
                    | (mac[2] as u64) << 24
                    | (mac[3] as u64) << 16
                    | (mac[4] as u64) << 8
                    | (mac[5] as u64),
            );
        }
        None => {
            // The generator reports no value exactly when the host offers no
            // usable hardware address.
            assert!(!host_has_mac());
        }
    }
}

#[test]
fn test_v2() {
    let mut guard = TimestampGuard::new();
    let domain = [Domain::PERSON, Domain::GROUP, Domain::ORG];

    for d in domain.iter() {
        match UUID::v2(&mut guard, *d) {
            Some(uuid) => assert_eq!(uuid.get_version(), Some(Version::DCE)),
            None => assert!(!host_has_mac()),
        }
        match UUID::v2(&mut guard, *d) {
            Some(uuid) => assert_eq!(uuid.get_variant(), Some(Variant::RFC)),
            None => assert!(!host_has_mac()),
        }
    }
}

#[test]
fn test_from_mac() {
    let fm = UUID::from_mac(Version::TIME, [0x03, 0x2a, 0x35, 0x0d, 0x13, 0x80]);
    assert_eq!(fm.get_version(), Some(Version::TIME));
    assert_eq!(fm.get_mac().0, [0x03, 0x2a, 0x35, 0x0d, 0x13, 0x80]);
    assert_eq!(fm.get_mac().to_string(), "03-2a-35-0d-13-80");
}

#[test]
fn test_v1_monotonic() {
    let mut guard = TimestampGuard::new();
    let mut last = None;
    for _ in 0..64 {
        let Some(uuid) = UUID::v1(&mut guard) else {
            assert!(!host_has_mac());
            return;
        };
        let time = uuid.get_time();
        if let Some(prev) = last {
            assert!(time > prev, "v1 timestamps must strictly increase");
        }
        last = Some(time);
    }
}

#[test]
fn test_v2_monotonic() {
    let mut guard = TimestampGuard::new();
    let (Some(first), Some(second)) = (
        UUID::v2(&mut guard, Domain::PERSON),
        UUID::v2(&mut guard, Domain::PERSON),
    ) else {
        assert!(!host_has_mac());
        return;
    };
    assert!(
        second.get_time() > first.get_time(),
        "v2 timestamps must strictly increase"
    );
}

#[test]
fn test_v2_domain_byte() {
    let mut guard = TimestampGuard::new();
    let domains = [
        (Domain::PERSON, 0u8),
        (Domain::GROUP, 1u8),
        (Domain::ORG, 2u8),
    ];
    for (d, expected) in domains {
        let Some(uuid) = UUID::v2(&mut guard, d) else {
            assert!(!host_has_mac());
            return;
        };
        assert_eq!(uuid.clock_seq_low, expected);
    }
}

#[test]
fn test_clock_seq_split() {
    assert_eq!(ClockSeq(0x3fff).split(0x1), (0x1f, 0xff));
    assert_eq!(ClockSeq(0x1234).split(0x1), (0x12, 0x34));
    assert_eq!(ClockSeq::new(0xffff).split(0x1), (0x1f, 0xff));
}

#[test]
fn test_guarded_from_node() {
    let mut guard = TimestampGuard::new();
    let node = [0x03, 0x2a, 0x35, 0x0d, 0x13, 0x80];

    let first = UUID::guarded_from_node(&mut guard, &Version::TIME, node);
    assert_eq!(first.node, node);
    assert_eq!(first.get_version(), Some(Version::TIME));
    assert_eq!(first.get_variant(), Some(Variant::RFC));

    let second = UUID::guarded_from_node(&mut guard, &Version::TIME, node);
    assert!(
        second.get_time() > first.get_time(),
        "guarded timestamps must strictly increase"
    );
}

#[test]
fn test_generated_string_canonical() {
    let regex = regex::Regex::new(
        r"^[0-9a-f]{8}\-[0-9a-f]{4}\-[1-5]{1}[0-9a-f]{3}\-[0-9a-f]{4}\-[0-9a-f]{12}$",
    )
    .unwrap();

    let mac = [0x03, 0x2a, 0x35, 0x0d, 0x13, 0x80];

    let time = UUID::from_mac(Version::TIME, mac).as_bytes().to_string();
    assert!(regex.is_match(&time));
    assert_eq!(time.as_bytes()[14], b'1');

    let dce = UUID::from_mac(Version::DCE, mac).as_bytes().to_string();
    assert!(regex.is_match(&dce));
    assert_eq!(dce.as_bytes()[14], b'2');

    let md5 = UUID::v3("any", UUID::namespace_oid()).as_bytes().to_string();
    assert!(regex.is_match(&md5));
    assert_eq!(md5.as_bytes()[14], b'3');

    let sha1 = UUID::v5("any", UUID::namespace_oid()).as_bytes().to_string();
    assert!(regex.is_match(&sha1));
    assert_eq!(sha1.as_bytes()[14], b'5');
}
