use uuid_rs::{Variant, Version, UUID};

fn test_namespaces() -> [UUID; 4] {
    [
        UUID::namespace_dns(),
        UUID::namespace_oid(),
        UUID::namespace_url(),
        UUID::namespace_x500(),
    ]
}

const TEST_STRINGS: [&str; 3] = ["test", "example", "sample"];

#[test]
fn test_v3_basic() {
    for &namespace in &test_namespaces() {
        let uuid = UUID::v3("any", namespace);
        assert_eq!(uuid.get_version(), Some(Version::MD5));
        assert_eq!(uuid.get_variant(), Some(Variant::RFC));
    }
}

#[test]
fn test_v3_deterministic() {
    for &namespace in &test_namespaces() {
        for &test_str in &TEST_STRINGS {
            let uuid1 = UUID::v3(test_str, namespace);
            let uuid2 = UUID::v3(test_str, namespace);
            assert_eq!(uuid1, uuid2, "v3 UUIDs should be deterministic");
        }
    }
}

#[test]
fn test_v5_basic() {
    for &namespace in &test_namespaces() {
        let uuid = UUID::v5("any", namespace);
        assert_eq!(uuid.get_version(), Some(Version::SHA1));
        assert_eq!(uuid.get_variant(), Some(Variant::RFC));
    }
}

#[test]
fn test_v5_deterministic() {
    for &namespace in &test_namespaces() {
        for &test_str in &TEST_STRINGS {
            let uuid1 = UUID::v5(test_str, namespace);
            let uuid2 = UUID::v5(test_str, namespace);
            assert_eq!(uuid1, uuid2, "v5 UUIDs should be deterministic");
        }
    }
}

#[test]
fn test_v3_v5_different() {
    for &namespace in &test_namespaces() {
        for &test_str in &TEST_STRINGS {
            let v3_uuid = UUID::v3(test_str, namespace);
            let v5_uuid = UUID::v5(test_str, namespace);
            assert_ne!(v3_uuid, v5_uuid, "v3 and v5 UUIDs should differ");
        }
    }
}

#[test]
fn test_data_concatenation() {
    assert_eq!(
        UUID::data("x", UUID::namespace_dns()),
        "6ba7b810-9dad-11d1-80b4-00c04fd430c8x"
    );
}

#[test]
fn test_v3_known_value() {
    let uuid = UUID::v3("test", UUID::namespace_dns());
    assert_eq!(
        uuid.as_bytes().to_string(),
        "4db109b9-c40e-3570-106b-af077eb8645e"
    );
}

#[test]
fn test_v5_known_value() {
    let uuid = UUID::v5("test", UUID::namespace_dns());
    assert_eq!(
        uuid.as_bytes().to_string(),
        "2448bd95-00ca-564e-160f-3301a691b26c"
    );
}
