use canton_sequencer_client::protocol::{ProtocolVersion, LATEST_STABLE_VERSION};

#[test]
fn test_protocol_version_values() {
    assert_eq!(ProtocolVersion::V34.as_i32(), 34);
    assert_eq!(ProtocolVersion::V35.as_i32(), 35);
}

#[test]
fn test_latest_stable() {
    assert_eq!(LATEST_STABLE_VERSION, ProtocolVersion::V34);
    assert!(LATEST_STABLE_VERSION.is_stable());
}

#[test]
fn test_try_from() {
    assert_eq!(ProtocolVersion::try_from(34).unwrap(), ProtocolVersion::V34);
    assert_eq!(ProtocolVersion::try_from(35).unwrap(), ProtocolVersion::V35);
    assert!(ProtocolVersion::try_from(99).is_err());
}

#[test]
fn test_into_i32() {
    let v: i32 = ProtocolVersion::V34.into();
    assert_eq!(v, 34);
}

#[test]
fn test_stable_versions() {
    let stable = ProtocolVersion::stable_versions();
    assert_eq!(stable, &[ProtocolVersion::V34]);
}

#[test]
fn test_is_stable() {
    assert!(ProtocolVersion::V34.is_stable());
    assert!(!ProtocolVersion::V35.is_stable());
}

#[test]
fn test_is_alpha() {
    assert!(!ProtocolVersion::V34.is_alpha());
    assert!(ProtocolVersion::V35.is_alpha());
}
