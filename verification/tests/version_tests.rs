use scrat::version::{BumpLevel, Version, next_version, parse_version, validate_explicit, version_string};

#[test]
fn bump_patch() {
    let v = Version::new(1, 2, 3);
    assert_eq!(next_version(&v, BumpLevel::Patch), Version::new(1, 2, 4));
}

#[test]
fn bump_minor() {
    let v = Version::new(1, 2, 3);
    assert_eq!(next_version(&v, BumpLevel::Minor), Version::new(1, 3, 0));
}

#[test]
fn bump_major() {
    let v = Version::new(1, 2, 3);
    assert_eq!(next_version(&v, BumpLevel::Major), Version::new(2, 0, 0));
}

#[test]
fn parse_with_v_prefix() {
    assert_eq!(parse_version("v1.2.3").unwrap(), Version::new(1, 2, 3));
}

#[test]
fn parse_without_v_prefix() {
    assert_eq!(parse_version("1.2.3").unwrap(), Version::new(1, 2, 3));
}

#[test]
fn parse_invalid() {
    assert!(parse_version("not-a-version").is_err());
}

#[test]
fn bump_from_zero() {
    let v = Version::new(0, 1, 0);
    assert_eq!(next_version(&v, BumpLevel::Patch), Version::new(0, 1, 1));
    assert_eq!(next_version(&v, BumpLevel::Minor), Version::new(0, 2, 0));
    assert_eq!(next_version(&v, BumpLevel::Major), Version::new(1, 0, 0));
}

#[test]
fn valid_explicit() {
    assert_eq!(validate_explicit("1.2.3").unwrap(), Version::new(1, 2, 3));
}

#[test]
fn valid_with_prefix() {
    assert_eq!(validate_explicit("v2.0.0").unwrap(), Version::new(2, 0, 0));
}

#[test]
fn invalid_explicit() {
    assert!(validate_explicit("not-semver").is_err());
}

#[test]
fn parse_accepts_prerelease() {
    let v = parse_version("3.0.0-rc.1").unwrap();
    assert_eq!(v, Version::new(3, 0, 0));
}

#[test]
fn bump_level_names() {
    assert_eq!(BumpLevel::Patch.as_str(), "patch");
    assert_eq!(BumpLevel::Minor.as_str(), "minor");
    assert_eq!(BumpLevel::Major.as_str(), "major");
}

#[test]
fn version_renders_as_triple() {
    assert_eq!(version_string(&Version::new(2, 5, 0)), "2.5.0");
    assert_eq!(version_string(&Version::new(0, 0, 0)), "0.0.0");
    assert_eq!(version_string(&Version::new(10, 123, 4)), "10.123.4");
}
