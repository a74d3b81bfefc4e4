use std::io::Read;

use sqlite_dist::error::ConfigurationError;
use sqlite_dist::pip::{
    write_base_package, write_base_packages, write_datasette, write_sqlite_utils, PipBuildError,
    Wheel,
};
use sqlite_dist::platform::{Cpu, LoadableFile, Os, PlatformDirectory};
use sqlite_dist::version::Version;

fn version(major: u64, minor: u64, patch: u64, pre: &str, build: &str) -> Version {
    Version {
        major,
        minor,
        patch,
        pre: pre.to_string(),
        build: build.to_string(),
    }
}

fn loadable(stem: &str, name: &str, data: &[u8]) -> LoadableFile {
    LoadableFile {
        file_stem: stem.to_string(),
        name: name.to_string(),
        data: data.to_vec(),
    }
}

fn directory(os: Os, cpu: Cpu, files: Vec<LoadableFile>) -> PlatformDirectory {
    PlatformDirectory {
        os,
        cpu,
        loadable_files: files,
    }
}

fn read(wheel: &Wheel) -> Vec<(String, String)> {
    let mut archive = zip::ZipArchive::new(std::io::Cursor::new(wheel.data.clone())).unwrap();
    let mut found = Vec::new();
    for i in 0..archive.len() {
        let mut file = archive.by_index(i).unwrap();
        let mut data = Vec::new();
        file.read_to_end(&mut data).unwrap();
        found.push((file.name().to_string(), String::from_utf8_lossy(&data).into_owned()));
    }
    found
}

fn is_configuration(r: &Result<Vec<Wheel>, PipBuildError>, expected: ConfigurationError) -> bool {
    matches!(r, Err(PipBuildError::Configuration(e)) if *e == expected)
}

#[test]
fn base_package_of_one_platform() {
    let dir = directory(Os::Linux, Cpu::X86_64, vec![loadable("ext", "ext.so", b"hello")]);
    let wheel = write_base_package(&dir, "my-ext", &version(1, 2, 0, "alpha.3", "")).unwrap();
    assert_eq!(
        wheel.name,
        "my_ext-1.2.0a3-py3-none-manylinux_2_17_x86_64.manylinux2014_x86_64.manylinux1_x86_64.whl"
    );
    let found = read(&wheel);
    let names: Vec<&str> = found.iter().map(|m| m.0.as_str()).collect();
    assert_eq!(
        names,
        vec![
            "my_ext/__init__.py",
            "my_ext/ext.so",
            "my_ext-1.2.0a3.dist-info/METADATA",
            "my_ext-1.2.0a3.dist-info/WHEEL",
            "my_ext-1.2.0a3.dist-info/top_level.txt",
            "my_ext-1.2.0a3.dist-info/RECORD",
        ]
    );
    assert_eq!(
        found[0].1,
        "\nimport os\nimport sqlite3\n\n__version__ = \"1.2.0a3\"\n__version_info__ = tuple(__version__.split(\".\"))\n\ndef loadable_path():\n  loadable_path = os.path.join(os.path.dirname(__file__), \"ext\")\n  return os.path.normpath(loadable_path)\n\ndef load(conn: sqlite3.Connection)  -> None:\n  conn.load_extension(loadable_path())\n"
    );
    assert_eq!(found[1].1, "hello");
    assert_eq!(found[4].1, "my_ext\n");
    let init_hash = sqlite_dist::digest::content_hash_string(found[0].1.as_bytes());
    assert_eq!(
        found[5].1,
        format!(
            "my_ext/__init__.py,sha256={},{}\nmy_ext/ext.so,sha256=LPJNul-wow4m6DsqxbninhsWHlwfp0JecwQzYpOLmCQ,5\nmy_ext-1.2.0a3.dist-info/RECORD,,\n",
            init_hash,
            found[0].1.len()
        )
    );
}

#[test]
fn base_package_loads_its_first_file() {
    let dir = directory(
        Os::Macos,
        Cpu::Aarch64,
        vec![
            loadable("first0", "first0.dylib", b"one"),
            loadable("second0", "second0.dylib", b"two"),
        ],
    );
    let wheel = write_base_package(&dir, "pkg", &version(1, 0, 0, "", "")).unwrap();
    assert_eq!(wheel.name, "pkg-1.0.0-py3-none-macosx_11_0_arm64.whl");
    let found = read(&wheel);
    assert_eq!(found.len(), 7);
    assert!(found[0].1.contains("os.path.dirname(__file__), \"first0\")"));
    assert!(!found[0].1.contains("second0"));
    assert_eq!(found[1], ("pkg/first0.dylib".to_string(), "one".to_string()));
    assert_eq!(found[2], ("pkg/second0.dylib".to_string(), "two".to_string()));
    assert_eq!(found[6].1.lines().count(), 4);
}

#[test]
fn base_package_without_files_is_refused() {
    let dir = directory(Os::Linux, Cpu::X86_64, Vec::new());
    let built = write_base_package(&dir, "my-ext", &version(1, 0, 0, "", ""));
    assert!(matches!(
        built,
        Err(PipBuildError::Configuration(ConfigurationError::NoLoadableFiles))
    ));
}

#[test]
fn base_package_for_unsupported_platform_is_refused() {
    let dir = directory(Os::Windows, Cpu::Aarch64, vec![loadable("ext", "ext.dll", b"x")]);
    let built = write_base_package(&dir, "my-ext", &version(1, 0, 0, "", ""));
    assert!(matches!(
        built,
        Err(PipBuildError::Configuration(ConfigurationError::UnsupportedPlatform))
    ));
}

#[test]
fn base_package_looks_at_version_first() {
    let dir = directory(Os::Windows, Cpu::Aarch64, Vec::new());
    let built = write_base_package(&dir, "my-ext", &version(1, 0, 0, "dev", ""));
    assert!(matches!(
        built,
        Err(PipBuildError::Configuration(ConfigurationError::UnsupportedPrerelease))
    ));
    let built = write_base_package(&dir, "my-ext", &version(1, 0, 0, "", ""));
    assert!(matches!(
        built,
        Err(PipBuildError::Configuration(ConfigurationError::NoLoadableFiles))
    ));
}

#[test]
fn base_packages_for_every_platform() {
    let dirs = vec![
        directory(Os::Macos, Cpu::X86_64, vec![loadable("ext", "ext.dylib", b"mac")]),
        directory(Os::Linux, Cpu::Aarch64, vec![loadable("ext", "ext.so", b"linux")]),
        directory(Os::Windows, Cpu::X86_64, vec![loadable("ext", "ext.dll", b"windows")]),
    ];
    let wheels = write_base_packages(&dirs, "my-ext", &version(0, 3, 1, "", "")).unwrap();
    let names: Vec<&str> = wheels.iter().map(|w| w.name.as_str()).collect();
    assert_eq!(
        names,
        vec![
            "my_ext-0.3.1-py3-none-macosx_10_6_x86_64.whl",
            "my_ext-0.3.1-py3-none-manylinux_2_17_aarch64.manylinux2014_aarch64.whl",
            "my_ext-0.3.1-py3-none-win_amd64.whl",
        ]
    );
    assert_eq!(read(&wheels[0])[1], ("my_ext/ext.dylib".to_string(), "mac".to_string()));
    assert_eq!(read(&wheels[1])[1], ("my_ext/ext.so".to_string(), "linux".to_string()));
    assert_eq!(read(&wheels[2])[1], ("my_ext/ext.dll".to_string(), "windows".to_string()));
    assert_eq!(
        read(&wheels[2])[3].1,
        "Wheel-Version: 1.0\nGenerator: sqlite-dist 0.1.0\nRoot-Is-Purelib: false\nTag: py3-none-win_amd64"
    );
    for (dir, wheel) in dirs.iter().zip(wheels.iter()) {
        let alone = write_base_package(dir, "my-ext", &version(0, 3, 1, "", "")).unwrap();
        assert_eq!(alone.name, wheel.name);
        assert_eq!(alone.data, wheel.data);
    }
}

#[test]
fn base_packages_of_no_platform() {
    assert!(write_base_packages(&[], "my-ext", &version(1, 0, 0, "", "")).unwrap().is_empty());
    assert!(write_base_packages(&[], "my-ext", &version(1, 0, 0, "dev", "")).unwrap().is_empty());
}

#[test]
fn empty_payload_list_stops_all_base_packages() {
    let dirs = vec![
        directory(Os::Macos, Cpu::X86_64, vec![loadable("ext", "ext.dylib", b"mac")]),
        directory(Os::Linux, Cpu::X86_64, Vec::new()),
    ];
    let built = write_base_packages(&dirs, "my-ext", &version(1, 0, 0, "", ""));
    assert!(is_configuration(&built, ConfigurationError::NoLoadableFiles));
    let dirs = vec![directory(Os::Linux, Cpu::X86_64, Vec::new())];
    let built = write_base_packages(&dirs, "my-ext", &version(1, 0, 0, "", ""));
    assert!(is_configuration(&built, ConfigurationError::NoLoadableFiles));
}

#[test]
fn first_bad_platform_decides() {
    let dirs = vec![
        directory(Os::Macos, Cpu::X86_64, vec![loadable("ext", "ext.dylib", b"mac")]),
        directory(Os::Windows, Cpu::Aarch64, vec![loadable("ext", "ext.dll", b"arm")]),
        directory(Os::Linux, Cpu::X86_64, Vec::new()),
    ];
    let built = write_base_packages(&dirs, "my-ext", &version(1, 0, 0, "", ""));
    assert!(is_configuration(&built, ConfigurationError::UnsupportedPlatform));
    let built = write_base_packages(&dirs, "my-ext", &version(1, 0, 0, "alpha.1", "meta"));
    assert!(is_configuration(&built, ConfigurationError::PrereleaseWithBuildMetadata));
}

#[test]
fn datasette_plugin() {
    let wheel = write_datasette("my-ext", &version(1, 2, 3, "beta.1", "")).unwrap();
    assert_eq!(wheel.name, "datasette_my_ext-1.2.3b1-py3-none-any.whl");
    let found = read(&wheel);
    let names: Vec<&str> = found.iter().map(|m| m.0.as_str()).collect();
    assert_eq!(
        names,
        vec![
            "datasette_my_ext/__init__.py",
            "datasette_my_ext-1.2.3b1.dist-info/METADATA",
            "datasette_my_ext-1.2.3b1.dist-info/WHEEL",
            "datasette_my_ext-1.2.3b1.dist-info/top_level.txt",
            "datasette_my_ext-1.2.3b1.dist-info/RECORD",
        ]
    );
    assert_eq!(
        found[0].1,
        "\nfrom datasette import hookimpl\nimport my_ext\n\n__version__ = \"1.2.3b1\"\n__version_info__ = tuple(__version__.split(\".\"))\n\n@hookimpl\ndef prepare_connection(conn):\n  conn.enable_load_extension(True)\n  my_ext.load(conn)\n  conn.enable_load_extension(False)\n"
    );
    assert!(found[1].1.contains("\nName: datasette-my-ext\nVersion: 1.2.3b1\n"));
    assert!(found[2].1.ends_with("\nTag: py3-none-any"));
    assert_eq!(found[3].1, "datasette_my_ext\n");
    assert_eq!(found[4].1.lines().count(), 2);
}

#[test]
fn sqlite_utils_plugin() {
    let wheel = write_sqlite_utils("my-ext", &version(1, 2, 3, "", "")).unwrap();
    assert_eq!(wheel.name, "sqlite_utils_my_ext-1.2.3-py3-none-any.whl");
    let found = read(&wheel);
    let names: Vec<&str> = found.iter().map(|m| m.0.as_str()).collect();
    assert_eq!(
        names,
        vec![
            "sqlite_utils_my_ext/__init__.py",
            "sqlite_utils_my_ext-1.2.3.dist-info/METADATA",
            "sqlite_utils_my_ext-1.2.3.dist-info/WHEEL",
            "sqlite_utils_my_ext-1.2.3.dist-info/top_level.txt",
            "sqlite_utils_my_ext-1.2.3.dist-info/RECORD",
        ]
    );
    assert_eq!(
        found[0].1,
        "\nfrom sqlite_utils import hookimpl\nimport my_ext\n\n__version__ = \"1.2.3\"\n__version_info__ = tuple(__version__.split(\".\"))\n\n@hookimpl\ndef prepare_connection(conn):\n  conn.enable_load_extension(True)\n  my_ext.load(conn)\n  conn.enable_load_extension(False)\n"
    );
    assert!(found[1].1.contains("\nName: sqlite-utils-my-ext\nVersion: 1.2.3\n"));
    assert_eq!(found[3].1, "sqlite_utils_my_ext\n");
}

#[test]
fn plugins_refuse_bad_version() {
    assert!(matches!(
        write_datasette("my-ext", &version(1, 2, 3, "beta", "")),
        Err(PipBuildError::Configuration(ConfigurationError::UnsupportedPrerelease))
    ));
    assert!(matches!(
        write_sqlite_utils("my-ext", &version(1, 2, 3, "rc.1", "sha.abc")),
        Err(PipBuildError::Configuration(ConfigurationError::PrereleaseWithBuildMetadata))
    ));
}

#[test]
fn base_package_refuses_a_name_twice() {
    let dir = directory(
        Os::Linux,
        Cpu::X86_64,
        vec![
            loadable("ext", "ext.so", b"one"),
            loadable("other", "other.so", b"two"),
            loadable("ext", "ext.so", b"three"),
        ],
    );
    let built = write_base_package(&dir, "my-ext", &version(1, 0, 0, "", ""));
    assert!(matches!(built, Err(PipBuildError::ZipError(_))));
}

#[test]
fn base_package_refuses_a_second_initializer() {
    let dir = directory(
        Os::Linux,
        Cpu::X86_64,
        vec![loadable("ext", "ext.so", b"one"), loadable("__init__", "__init__.py", b"")],
    );
    let built = write_base_package(&dir, "my-ext", &version(1, 0, 0, "", ""));
    assert!(matches!(built, Err(PipBuildError::ZipError(_))));
}

#[test]
fn base_packages_stop_at_a_name_twice() {
    let dirs = vec![
        directory(Os::Macos, Cpu::X86_64, vec![loadable("ext", "ext.dylib", b"mac")]),
        directory(
            Os::Linux,
            Cpu::X86_64,
            vec![loadable("ext", "ext.so", b"a"), loadable("ext", "ext.so", b"b")],
        ),
    ];
    let built = write_base_packages(&dirs, "my-ext", &version(1, 0, 0, "", ""));
    assert!(matches!(built, Err(PipBuildError::ZipError(_))));
}

#[test]
fn base_package_takes_names_that_differ_in_case_or_directory() {
    let dir = directory(
        Os::Linux,
        Cpu::X86_64,
        vec![
            loadable("ext", "ext.so", b"one"),
            loadable("EXT", "EXT.so", b"two"),
            loadable("ext", "lib/ext.so", b"three"),
            loadable("init", "__init__.pyc", b"four"),
        ],
    );
    let wheel = write_base_package(&dir, "my-ext", &version(1, 0, 0, "", "")).unwrap();
    assert_eq!(read(&wheel).len(), 9);
}
