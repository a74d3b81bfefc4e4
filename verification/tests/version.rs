use sqlite_dist::error::ConfigurationError;
use sqlite_dist::version::{plain_version_string, semver_to_pip_version, Version};

fn version(major: u64, minor: u64, patch: u64, pre: &str, build: &str) -> Version {
    Version {
        major,
        minor,
        patch,
        pre: pre.to_string(),
        build: build.to_string(),
    }
}

#[test]
fn release_version_is_plain() {
    assert_eq!(semver_to_pip_version(&version(1, 2, 3, "", "")).unwrap(), "1.2.3");
    assert_eq!(semver_to_pip_version(&version(0, 0, 0, "", "")).unwrap(), "0.0.0");
    assert_eq!(semver_to_pip_version(&version(10, 20, 300, "", "")).unwrap(), "10.20.300");
}

#[test]
fn release_version_with_largest_numbers() {
    assert_eq!(
        semver_to_pip_version(&version(u64::MAX, 0, u64::MAX, "", "")).unwrap(),
        "18446744073709551615.0.18446744073709551615"
    );
}

#[test]
fn plain_version_joins_with_dots() {
    assert_eq!(plain_version_string(0, 1, 0), "0.1.0");
    assert_eq!(plain_version_string(4, 5, 6), "4.5.6");
}

#[test]
fn build_metadata_alone_is_dropped() {
    assert_eq!(semver_to_pip_version(&version(1, 2, 3, "", "build.5")).unwrap(), "1.2.3");
    assert_eq!(semver_to_pip_version(&version(0, 9, 1, "", "20240101")).unwrap(), "0.9.1");
}

#[test]
fn alpha_prerelease_becomes_a() {
    assert_eq!(semver_to_pip_version(&version(1, 2, 0, "alpha.3", "")).unwrap(), "1.2.0a3");
    assert_eq!(semver_to_pip_version(&version(0, 1, 7, "alpha.12", "")).unwrap(), "0.1.7a12");
}

#[test]
fn beta_prerelease_becomes_b() {
    assert_eq!(semver_to_pip_version(&version(1, 2, 3, "beta.1", "")).unwrap(), "1.2.3b1");
}

#[test]
fn rc_prerelease_stays_rc() {
    assert_eq!(semver_to_pip_version(&version(1, 2, 3, "rc.2", "")).unwrap(), "1.2.3rc2");
}

#[test]
fn prerelease_is_split_at_its_first_dot() {
    assert_eq!(semver_to_pip_version(&version(1, 0, 0, "alpha.3.4", "")).unwrap(), "1.0.0a3.4");
}

#[test]
fn prerelease_with_build_metadata_is_refused() {
    assert_eq!(
        semver_to_pip_version(&version(1, 2, 3, "alpha.3", "build.5")),
        Err(ConfigurationError::PrereleaseWithBuildMetadata)
    );
    assert_eq!(
        semver_to_pip_version(&version(1, 2, 3, "dev", "x")),
        Err(ConfigurationError::PrereleaseWithBuildMetadata)
    );
}

#[test]
fn unknown_prerelease_kind_is_refused() {
    assert_eq!(
        semver_to_pip_version(&version(1, 2, 3, "dev.1", "")),
        Err(ConfigurationError::UnsupportedPrerelease)
    );
    assert_eq!(
        semver_to_pip_version(&version(1, 2, 3, "Alpha.1", "")),
        Err(ConfigurationError::UnsupportedPrerelease)
    );
    assert_eq!(
        semver_to_pip_version(&version(1, 2, 3, ".1", "")),
        Err(ConfigurationError::UnsupportedPrerelease)
    );
}

#[test]
fn prerelease_without_dot_is_refused() {
    assert_eq!(
        semver_to_pip_version(&version(1, 2, 3, "alpha", "")),
        Err(ConfigurationError::UnsupportedPrerelease)
    );
    assert_eq!(
        semver_to_pip_version(&version(1, 2, 3, "rc1", "")),
        Err(ConfigurationError::UnsupportedPrerelease)
    );
}
