use sqlite_dist::error::ConfigurationError;
use sqlite_dist::pip::{platform_target_tag, wheel_target_tag};
use sqlite_dist::platform::{Cpu, Os};

#[test]
fn macos_x86_64_tag() {
    assert_eq!(platform_target_tag(&Os::Macos, &Cpu::X86_64).unwrap(), "macosx_10_6_x86_64");
}

#[test]
fn macos_aarch64_tag() {
    assert_eq!(platform_target_tag(&Os::Macos, &Cpu::Aarch64).unwrap(), "macosx_11_0_arm64");
}

#[test]
fn linux_x86_64_tag() {
    assert_eq!(
        platform_target_tag(&Os::Linux, &Cpu::X86_64).unwrap(),
        "manylinux_2_17_x86_64.manylinux2014_x86_64.manylinux1_x86_64"
    );
}

#[test]
fn linux_aarch64_tag() {
    assert_eq!(
        platform_target_tag(&Os::Linux, &Cpu::Aarch64).unwrap(),
        "manylinux_2_17_aarch64.manylinux2014_aarch64"
    );
}

#[test]
fn windows_x86_64_tag() {
    assert_eq!(platform_target_tag(&Os::Windows, &Cpu::X86_64).unwrap(), "win_amd64");
}

#[test]
fn windows_aarch64_has_no_tag() {
    assert_eq!(
        platform_target_tag(&Os::Windows, &Cpu::Aarch64),
        Err(ConfigurationError::UnsupportedPlatform)
    );
}

#[test]
fn wheel_without_platform_is_tagged_any() {
    assert_eq!(wheel_target_tag(None).unwrap(), "any");
}

#[test]
fn wheel_with_platform_takes_its_tag() {
    assert_eq!(wheel_target_tag(Some((&Os::Windows, &Cpu::X86_64))).unwrap(), "win_amd64");
    assert_eq!(
        wheel_target_tag(Some((&Os::Windows, &Cpu::Aarch64))),
        Err(ConfigurationError::UnsupportedPlatform)
    );
}
