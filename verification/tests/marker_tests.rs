use mavio::{
    IsVersioned, MavLinkVersion, MaybeVersioned, NotVersioned, VersionError, Versioned,
    Versionless, V1, V2,
};

fn expect_versioned<V: Versioned>(_: V, version: MavLinkVersion) -> Result<(), VersionError> {
    V::expect(version)
}

#[test]
fn marker_version_matching() {
    V1::expect(MavLinkVersion::V1).unwrap();
    V2::expect(MavLinkVersion::V2).unwrap();

    Versionless::expect(MavLinkVersion::V1).unwrap();
    Versionless::expect(MavLinkVersion::V2).unwrap();
    assert!(Versionless::matches(MavLinkVersion::V1));
    assert!(Versionless::matches(MavLinkVersion::V2));

    assert!(V1::matches(MavLinkVersion::V1));
    assert!(V2::matches(MavLinkVersion::V2));
    assert!(!V1::matches(MavLinkVersion::V2));
    assert!(!V2::matches(MavLinkVersion::V1));

    expect_versioned(V1, MavLinkVersion::V1).unwrap();
    expect_versioned(V2, MavLinkVersion::V2).unwrap();
    assert!(expect_versioned(V1, MavLinkVersion::V2).is_err());
    assert!(expect_versioned(V2, MavLinkVersion::V1).is_err());
}

#[test]
fn version_version_matching() {
    V1::expect(MavLinkVersion::V1).unwrap();
    V2::expect(MavLinkVersion::V2).unwrap();

    Versionless::expect(MavLinkVersion::V1).unwrap();
    Versionless::expect(MavLinkVersion::V2).unwrap();
    assert!(Versionless::matches(MavLinkVersion::V1));
    assert!(Versionless::matches(MavLinkVersion::V2));

    assert!(V1::matches(MavLinkVersion::V1));
    assert!(V2::matches(MavLinkVersion::V2));
    assert!(!V1::matches(MavLinkVersion::V2));
    assert!(!V2::matches(MavLinkVersion::V1));

    expect_versioned(V1, MavLinkVersion::V1).unwrap();
    expect_versioned(V2, MavLinkVersion::V2).unwrap();
    assert!(expect_versioned(V1, MavLinkVersion::V2).is_err());
    assert!(expect_versioned(V2, MavLinkVersion::V1).is_err());

    assert!(matches!(V1::version(), MavLinkVersion::V1));
    assert!(matches!(V2::version(), MavLinkVersion::V2));
    assert!(matches!(V1.ver(), MavLinkVersion::V1));
    assert!(matches!(V2::v().ver(), MavLinkVersion::V2));
}

#[test]
fn mavlink_version_is_versioned() {
    assert!(matches!(
        MavLinkVersion::V1.mavlink_version(),
        MavLinkVersion::V1
    ));
    assert!(matches!(
        MavLinkVersion::V2.mavlink_version(),
        MavLinkVersion::V2
    ));

    MavLinkVersion::V1.matches(MavLinkVersion::V1).unwrap();
    MavLinkVersion::V2.matches(MavLinkVersion::V2).unwrap();
    assert!(MavLinkVersion::V1.matches(MavLinkVersion::V2).is_err());
    assert!(MavLinkVersion::V2.matches(MavLinkVersion::V1).is_err());
}

#[test]
fn markers_version_matching() {
    V1::expect(MavLinkVersion::V1).unwrap();
    V2::expect(MavLinkVersion::V2).unwrap();

    NotVersioned().matches(MavLinkVersion::V1).unwrap();
    NotVersioned().matches(MavLinkVersion::V2).unwrap();

    fn match_version(
        versioned: impl IsVersioned,
        version: MavLinkVersion,
    ) -> Result<(), VersionError> {
        versioned.matches(version)
    }

    match_version(V1.ver(), MavLinkVersion::V1).unwrap();
    match_version(V2.ver(), MavLinkVersion::V2).unwrap();
    assert!(match_version(V1.ver(), MavLinkVersion::V2).is_err());
    assert!(match_version(V2.ver(), MavLinkVersion::V1).is_err());
}

#[test]
fn version_error_names_both_versions() {
    let err = V1::expect(MavLinkVersion::V2).unwrap_err();
    assert_eq!(err.expected, MavLinkVersion::V1);
    assert_eq!(err.actual, MavLinkVersion::V2);
    let err = V2::expect(MavLinkVersion::V1).unwrap_err();
    assert_eq!(err.expected, MavLinkVersion::V2);
    assert_eq!(err.actual, MavLinkVersion::V1);
}
