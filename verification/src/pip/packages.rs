//! The three packages: the base package of a platform, and the plugins
//! for Datasette and for sqlite-utils.

use vstd::prelude::*;
use vstd::utf8::encode_utf8;
use crate::archive::{files_fit, lemma_files_fit_concat, stored_archive, MAX_FILE_LEN};
use crate::error::ConfigurationError;
use crate::pip::templates::{
    base_init_py, base_init_text, datasette_init_py, datasette_init_text, sqlite_utils_init_py,
    sqlite_utils_init_text,
};
use crate::pip::{
    lemma_library_path_is_one_to_one, library_path, lists_path, package_with, paths_differ,
    platform_target_tag, wheel_file_name, PipBuildError, PipPackage,
};
use crate::platform::{platform_tag, LoadableFile, PlatformDirectory};
use crate::text::{dash_to_underscore, replace_dashes};
use crate::version::{pip_version, semver_to_pip_version, Version, VersionView};

verus! {

/// A finished wheel: the name of its file and the bytes of its archive.
#[derive(Debug)]
pub struct Wheel {
    pub name: String,
    pub data: Vec<u8>,
}

/// The files of the wheel of the distribution `name` at `version` with the
/// tag `tag` that holds `payload`.
pub open spec fn wheel_members(
    name: Seq<char>,
    version: Seq<char>,
    tag: Seq<char>,
    payload: Seq<(Seq<char>, Seq<u8>)>,
) -> Seq<(Seq<char>, Seq<u8>)> {
    package_with(name, version, payload).finished_members(tag)
}

/// Whether `wheel` is the wheel of the distribution `name` at `version`
/// with the tag `tag` that holds `payload`.
pub open spec fn is_wheel_of(
    wheel: Wheel,
    name: Seq<char>,
    version: Seq<char>,
    tag: Seq<char>,
    payload: Seq<(Seq<char>, Seq<u8>)>,
) -> bool {
    &&& wheel.name@ == wheel_file_name(dash_to_underscore(name), version, tag)
    &&& wheel.data@ == stored_archive(wheel_members(name, version, tag, payload))
}

/// The loadable files as files of the payload.
pub open spec fn loadable_members(import_name: Seq<char>, files: Seq<LoadableFile>) -> Seq<
    (Seq<char>, Seq<u8>),
> {
    files.map_values(|f: LoadableFile| (library_path(import_name, f.name@), f.data@))
}

/// The payload of a base package: the initializer, which loads the first
/// file, then the loadable files in their order.
pub open spec fn base_payload(name: Seq<char>, version: Seq<char>, files: Seq<LoadableFile>) -> Seq<
    (Seq<char>, Seq<u8>),
>
    recommends
        files.len() > 0,
{
    let import_name = dash_to_underscore(name);
    seq![
        (
            library_path(import_name, "__init__.py"@),
            encode_utf8(base_init_text(version, files[0].file_stem@)),
        ),
    ] + loadable_members(import_name, files)
}

/// Whether the loadable files can lie in one directory beside the
/// initializer: no two have the same name, and none is named
/// `__init__.py`.
pub open spec fn loadable_names_differ(files: Seq<LoadableFile>) -> bool {
    &&& forall|i: int| 0 <= i < files.len() ==> (#[trigger] files[i]).name@ != "__init__.py"@
    &&& forall|i: int, j: int|
        0 <= i < j < files.len() ==> (#[trigger] files[i]).name@ != (#[trigger] files[j]).name@
}

/// The paths of the payload of a base package differ exactly where the
/// names of the loadable files let them.
pub proof fn lemma_base_payload_paths(name: Seq<char>, version: Seq<char>, files: Seq<LoadableFile>)
    ensures
        paths_differ(base_payload(name, version, files)) <==> loadable_names_differ(files),
{
    let import_name = dash_to_underscore(name);
    let payload = base_payload(name, version, files);
    assert forall|k: int| 0 <= k < files.len() implies (#[trigger] payload[k + 1]).0
        == library_path(import_name, files[k].name@) by {}
    if paths_differ(payload) {
        assert forall|i: int| 0 <= i < files.len() implies (#[trigger] files[i]).name@
            != "__init__.py"@ by {
            lemma_library_path_is_one_to_one(import_name, "__init__.py"@, files[i].name@);
            assert(payload[0].0 != payload[i + 1].0);
        }
        assert forall|i: int, j: int| 0 <= i < j < files.len() implies (#[trigger] files[i]).name@
            != (#[trigger] files[j]).name@ by {
            lemma_library_path_is_one_to_one(import_name, files[i].name@, files[j].name@);
            assert(payload[i + 1].0 != payload[j + 1].0);
        }
    }
    if loadable_names_differ(files) {
        assert forall|i: int, j: int| 0 <= i < j < payload.len() implies (#[trigger] payload[i]).0
            != (#[trigger] payload[j]).0 by {
            if i == 0 {
                lemma_library_path_is_one_to_one(import_name, "__init__.py"@, files[j - 1].name@);
            } else {
                lemma_library_path_is_one_to_one(
                    import_name,
                    files[i - 1].name@,
                    files[j - 1].name@,
                );
            }
        }
    }
}

/// The payload of a plugin package: the initializer alone.
pub open spec fn plugin_payload(name: Seq<char>, init_text: Seq<char>) -> Seq<
    (Seq<char>, Seq<u8>),
> {
    seq![(library_path(dash_to_underscore(name), "__init__.py"@), encode_utf8(init_text))]
}

/// What is wrong with a platform, if anything: it has no loadable file, or
/// no wheel can be built for it.
pub open spec fn platform_error(dir: PlatformDirectory) -> Option<ConfigurationError> {
    if dir.loadable_files@.len() == 0 {
        Some(ConfigurationError::NoLoadableFiles)
    } else if platform_tag(dir.os, dir.cpu).is_none() {
        Some(ConfigurationError::UnsupportedPlatform)
    } else {
        None
    }
}

/// What stops the build of the base package of one platform before it
/// starts: the version, then the platform.
pub open spec fn base_package_error(dir: PlatformDirectory, version: VersionView) -> Option<
    ConfigurationError,
> {
    match pip_version(version) {
        Err(e) => Some(e),
        Ok(_) => platform_error(dir),
    }
}

/// The error of the first platform that has one.
pub open spec fn first_platform_error(dirs: Seq<PlatformDirectory>) -> Option<ConfigurationError>
    decreases dirs.len(),
{
    if dirs.len() == 0 {
        None
    } else {
        match platform_error(dirs[0]) {
            Some(e) => Some(e),
            None => first_platform_error(dirs.drop_first()),
        }
    }
}

/// What stops the build of the base packages before it starts. Without a
/// platform there is nothing to build and nothing to stop; else the version
/// is looked at first, then the platforms in their order.
pub open spec fn base_packages_error(dirs: Seq<PlatformDirectory>, version: VersionView) -> Option<
    ConfigurationError,
> {
    if dirs.len() == 0 {
        None
    } else {
        match pip_version(version) {
            Err(e) => Some(e),
            Ok(_) => first_platform_error(dirs),
        }
    }
}

/// The files of the base package of `name` at `version` for `dir`.
pub open spec fn base_wheel_members(
    name: Seq<char>,
    version: VersionView,
    dir: PlatformDirectory,
) -> Seq<(Seq<char>, Seq<u8>)>
    recommends
        base_package_error(dir, version).is_none(),
{
    wheel_members(
        name,
        pip_version(version).unwrap(),
        platform_tag(dir.os, dir.cpu).unwrap(),
        base_payload(name, pip_version(version).unwrap(), dir.loadable_files@),
    )
}

/// The files of a plugin package named `plugin_name` at `version` with the
/// initializer `init_text`.
pub open spec fn plugin_wheel_members(
    plugin_name: Seq<char>,
    version: Seq<char>,
    init_text: Seq<char>,
) -> Seq<(Seq<char>, Seq<u8>)> {
    wheel_members(plugin_name, version, "any"@, plugin_payload(plugin_name, init_text))
}

/// Whether the archive takes the base package of `name` at `version` for
/// `dir`: each file is small enough, and no path comes twice.
pub open spec fn base_package_fits(
    name: Seq<char>,
    version: VersionView,
    dir: PlatformDirectory,
) -> bool
    recommends
        base_package_error(dir, version).is_none(),
{
    &&& files_fit(base_wheel_members(name, version, dir))
    &&& loadable_names_differ(dir.loadable_files@)
}

/// Whether `wheel` is the base package of `name` at `version` for `dir`.
pub open spec fn is_base_wheel(
    wheel: Wheel,
    name: Seq<char>,
    version: VersionView,
    dir: PlatformDirectory,
) -> bool
    recommends
        base_package_error(dir, version).is_none(),
{
    is_wheel_of(
        wheel,
        name,
        pip_version(version).unwrap(),
        platform_tag(dir.os, dir.cpu).unwrap(),
        base_payload(name, pip_version(version).unwrap(), dir.loadable_files@),
    )
}

/// The first platform with an error decides, where those before it have
/// none.
pub proof fn lemma_first_platform_error(dirs: Seq<PlatformDirectory>, i: int)
    requires
        0 <= i <= dirs.len(),
        forall|j: int| 0 <= j < i ==> platform_error(#[trigger] dirs[j]).is_none(),
    ensures
        i < dirs.len() && platform_error(dirs[i]).is_some() ==> first_platform_error(dirs)
            == platform_error(dirs[i]),
        i == dirs.len() ==> first_platform_error(dirs).is_none(),
    decreases dirs.len(),
{
    if dirs.len() > 0 && i > 0 {
        lemma_first_platform_error(dirs.drop_first(), i - 1);
    }
}

/// The payload of a base package whose files can lie in one directory, and
/// that of a plugin package, make a well-formed package, so what holds of
/// every well-formed package holds of the wheels built here.
pub proof fn lemma_payloads_are_well_formed(
    name: Seq<char>,
    version: Seq<char>,
    files: Seq<LoadableFile>,
    init_text: Seq<char>,
)
    requires
        files.len() > 0,
        loadable_names_differ(files),
    ensures
        package_with(name, version, base_payload(name, version, files)).wf(),
        package_with(name, version, plugin_payload(name, init_text)).wf(),
        base_payload(name, version, files).len() == files.len() + 1,
        plugin_payload(name, init_text).len() == 1,
{
    lemma_base_payload_paths(name, version, files);
}

/// A platform without a loadable file stops the build of its base
/// package: with a version that can be spelled, that is the error.
pub proof fn lemma_no_loadable_files(dir: PlatformDirectory, version: VersionView)
    requires
        dir.loadable_files@.len() == 0,
    ensures
        base_package_error(dir, version).is_some(),
        pip_version(version) is Ok ==> base_package_error(dir, version) == Some(
            ConfigurationError::NoLoadableFiles,
        ),
{
}

/// One platform without a loadable file stops the build of all base
/// packages.
pub proof fn lemma_no_loadable_files_among(
    dirs: Seq<PlatformDirectory>,
    version: VersionView,
    i: int,
)
    requires
        0 <= i < dirs.len(),
        dirs[i].loadable_files@.len() == 0,
    ensures
        base_packages_error(dirs, version).is_some(),
{
    lemma_platform_error_is_found(dirs, i);
}

/// Where a platform has an error, there is a first one that has.
proof fn lemma_platform_error_is_found(dirs: Seq<PlatformDirectory>, i: int)
    requires
        0 <= i < dirs.len(),
        platform_error(dirs[i]).is_some(),
    ensures
        first_platform_error(dirs).is_some(),
    decreases dirs.len(),
{
    if i > 0 && platform_error(dirs[0]).is_none() {
        lemma_platform_error_is_found(dirs.drop_first(), i - 1);
    }
}

/// Looks for what is wrong with a platform.
fn check_platform(dir: &PlatformDirectory) -> (r: Result<(), ConfigurationError>)
    ensures
        match r {
            Ok(()) => platform_error(*dir).is_none(),
            Err(e) => platform_error(*dir) == Some(e),
        },
{
    if dir.loadable_files.len() == 0 {
        return Err(ConfigurationError::NoLoadableFiles);
    }
    match platform_target_tag(&dir.os, &dir.cpu) {
        Ok(_) => Ok(()),
        Err(e) => Err(e),
    }
}

/// Builds the base package of one platform: the initializer and the
/// loadable files, under the tag of the platform.
///
/// Where nothing is wrong with version and platform, the wheel is built if
/// and only if each of its files is no longer than [`MAX_FILE_LEN`] and the
/// loadable files can lie in one directory beside the initializer.
pub fn write_base_package(
    platform_dir: &PlatformDirectory,
    package_name: &str,
    package_version: &Version,
) -> (r: Result<Wheel, PipBuildError>)
    ensures
        match base_package_error(*platform_dir, package_version@) {
            Some(c) => r matches Err(PipBuildError::Configuration(e)) && e == c,
            None => {
                &&& match r {
                    Ok(wheel) => is_base_wheel(
                        wheel,
                        package_name@,
                        package_version@,
                        *platform_dir,
                    ),
                    Err(e) => e is ZipError,
                }
                &&& r is Ok <==> base_package_fits(
                    package_name@,
                    package_version@,
                    *platform_dir,
                )
            },
        },
{
    let mut pkg = match PipPackage::new(package_name, package_version) {
        Ok(pkg) => pkg,
        Err(e) => {
            return Err(PipBuildError::Configuration(e));
        },
    };
    match check_platform(platform_dir) {
        Ok(()) => {},
        Err(e) => {
            return Err(PipBuildError::Configuration(e));
        },
    }
    let platform = Some((&platform_dir.os, &platform_dir.cpu));
    let wheel_name = match pkg.wheel_name(platform) {
        Ok(name) => name,
        Err(e) => {
            return Err(PipBuildError::Configuration(e));
        },
    };
    let files = &platform_dir.loadable_files;
    let ghost import_name = dash_to_underscore(package_name@);
    let ghost version = pkg@.version;
    let ghost payload = base_payload(package_name@, version, files@);
    let ghost tag = platform_tag(platform_dir.os, platform_dir.cpu).unwrap();
    let ghost finished = base_wheel_members(package_name@, package_version@, *platform_dir);
    proof {
        lemma_files_fit_concat(
            payload,
            package_with(package_name@, version, payload).dist_info_members(tag),
        );
        lemma_base_payload_paths(package_name@, version, files@);
    }
    let entrypoint = files[0].file_stem.as_str();
    let init = base_init_py(pkg.package_version(), entrypoint);
    match pkg.write_library_file("__init__.py", init.as_str().as_bytes()) {
        Ok(()) => {},
        Err(e) => {
            return Err(PipBuildError::ZipError(e));
        },
    }
    let mut i: usize = 0;
    while i < files.len()
        invariant
            i <= files.len(),
            files.len() > 0,
            base_package_error(*platform_dir, package_version@).is_none(),
            import_name == dash_to_underscore(package_name@),
            payload == base_payload(package_name@, version, files@),
            finished == base_wheel_members(package_name@, package_version@, *platform_dir),
            files_fit(finished) ==> files_fit(payload),
            paths_differ(payload) <==> loadable_names_differ(platform_dir.loadable_files@),
            pkg@.name == package_name@,
            pkg@.import_name == import_name,
            pkg@.version == version,
            pkg@.wf(),
            pkg.is_open(),
            pkg@.members == payload.subrange(0, i + 1),
            files_fit(pkg@.members),
        decreases files.len() - i,
    {
        let file = &files[i];
        let ghost path = library_path(import_name, file.name@);
        let ghost listed = pkg@.manifest;
        match pkg.write_library_file(file.name.as_str(), file.data.as_slice()) {
            Ok(()) => {},
            Err(e) => {
                proof {
                    assert(payload[i + 1] == (path, file.data@));
                    if file.data@.len() <= MAX_FILE_LEN {
                        let k = choose|k: int|
                            0 <= k < listed.len() && (#[trigger] listed[k]).path == path;
                        assert(payload[k].0 == payload[i + 1].0);
                    }
                }
                return Err(PipBuildError::ZipError(e));
            },
        }
        i = i + 1;
    }
    assert(payload.subrange(0, i + 1) =~= payload);
    match pkg.end(platform) {
        Ok(data) => Ok(Wheel { name: wheel_name, data }),
        Err(e) => Err(e),
    }
}

/// Builds the base package of every platform.
///
/// Everything that can be known to be wrong beforehand is looked for before
/// the first archive is begun.
pub fn write_base_packages(
    platform_dirs: &[PlatformDirectory],
    package_name: &str,
    package_version: &Version,
) -> (r: Result<Vec<Wheel>, PipBuildError>)
    ensures
        platform_dirs@.len() == 0 ==> r is Ok,
        match base_packages_error(platform_dirs@, package_version@) {
            Some(c) => r matches Err(PipBuildError::Configuration(e)) && e == c,
            None => {
                &&& match r {
                    Ok(wheels) => {
                        &&& wheels@.len() == platform_dirs@.len()
                        &&& forall|i: int|
                            0 <= i < wheels@.len() ==> is_base_wheel(
                                #[trigger] wheels@[i],
                                package_name@,
                                package_version@,
                                platform_dirs@[i],
                            )
                    },
                    Err(e) => e is ZipError,
                }
                &&& r is Ok <==> forall|i: int|
                    0 <= i < platform_dirs@.len() ==> base_package_fits(
                        package_name@,
                        package_version@,
                        #[trigger] platform_dirs@[i],
                    )
            },
        },
{
    let mut wheels: Vec<Wheel> = Vec::new();
    if platform_dirs.len() == 0 {
        return Ok(wheels);
    }
    match semver_to_pip_version(package_version) {
        Ok(_) => {},
        Err(e) => {
            return Err(PipBuildError::Configuration(e));
        },
    }
    let mut i: usize = 0;
    while i < platform_dirs.len()
        invariant
            i <= platform_dirs.len(),
            pip_version(package_version@) is Ok,
            forall|j: int| 0 <= j < i ==> platform_error(#[trigger] platform_dirs@[j]).is_none(),
        decreases platform_dirs.len() - i,
    {
        match check_platform(&platform_dirs[i]) {
            Ok(()) => {},
            Err(e) => {
                proof {
                    lemma_first_platform_error(platform_dirs@, i as int);
                }
                return Err(PipBuildError::Configuration(e));
            },
        }
        i = i + 1;
    }
    proof {
        lemma_first_platform_error(platform_dirs@, i as int);
    }
    let mut k: usize = 0;
    while k < platform_dirs.len()
        invariant
            k <= platform_dirs.len(),
            pip_version(package_version@) is Ok,
            base_packages_error(platform_dirs@, package_version@).is_none(),
            forall|j: int|
                0 <= j < platform_dirs.len() ==> platform_error(#[trigger] platform_dirs@[j]).is_none(),
            wheels@.len() == k,
            forall|j: int|
                0 <= j < k ==> is_base_wheel(
                    #[trigger] wheels@[j],
                    package_name@,
                    package_version@,
                    platform_dirs@[j],
                ),
            forall|j: int|
                0 <= j < k ==> base_package_fits(
                    package_name@,
                    package_version@,
                    #[trigger] platform_dirs@[j],
                ),
        decreases platform_dirs.len() - k,
    {
        match write_base_package(&platform_dirs[k], package_name, package_version) {
            Ok(wheel) => {
                wheels.push(wheel);
            },
            Err(e) => {
                return Err(e);
            },
        }
        k = k + 1;
    }
    Ok(wheels)
}

/// Ends a plugin package, which holds only its initializer and is good for
/// any platform.
fn write_plugin(pkg: PipPackage, init: &str) -> (r: Result<Wheel, PipBuildError>)
    requires
        pkg@.wf(),
        pkg@.members.len() == 0,
        pkg.is_open(),
    ensures
        match r {
            Ok(wheel) => is_wheel_of(
                wheel,
                pkg@.name,
                pkg@.version,
                "any"@,
                plugin_payload(pkg@.name, init@),
            ),
            Err(e) => e is ZipError,
        },
        r is Ok <==> files_fit(plugin_wheel_members(pkg@.name, pkg@.version, init@)),
{
    let ghost payload = plugin_payload(pkg@.name, init@);
    proof {
        lemma_files_fit_concat(
            payload,
            package_with(pkg@.name, pkg@.version, payload).dist_info_members("any"@),
        );
    }
    let mut plugin = pkg;
    match plugin.write_library_file("__init__.py", init.as_bytes()) {
        Ok(()) => {},
        Err(e) => {
            return Err(PipBuildError::ZipError(e));
        },
    }
    assert(plugin@.members =~= plugin_payload(pkg@.name, init@));
    let wheel_name = match plugin.wheel_name(None) {
        Ok(name) => name,
        Err(e) => {
            return Err(PipBuildError::Configuration(e));
        },
    };
    match plugin.end(None) {
        Ok(data) => Ok(Wheel { name: wheel_name, data }),
        Err(e) => Err(e),
    }
}

/// Builds the Datasette plugin of the package `package_name`: a package
/// named `datasette-` and the package's name, whose initializer loads the
/// base package into every connection that Datasette prepares.
pub fn write_datasette(package_name: &str, package_version: &Version) -> (r: Result<
    Wheel,
    PipBuildError,
>)
    ensures
        match pip_version(package_version@) {
            Err(c) => r matches Err(PipBuildError::Configuration(e)) && e == c,
            Ok(version) => {
                &&& match r {
                    Ok(wheel) => is_wheel_of(
                        wheel,
                        "datasette-"@ + package_name@,
                        version,
                        "any"@,
                        plugin_payload(
                            "datasette-"@ + package_name@,
                            datasette_init_text(dash_to_underscore(package_name@), version),
                        ),
                    ),
                    Err(e) => e is ZipError,
                }
                &&& r is Ok <==> files_fit(
                    plugin_wheel_members(
                        "datasette-"@ + package_name@,
                        version,
                        datasette_init_text(dash_to_underscore(package_name@), version),
                    ),
                )
            },
        },
{
    let mut plugin_name = String::from_str("datasette-");
    plugin_name.append(package_name);
    let pkg = match PipPackage::new(plugin_name.as_str(), package_version) {
        Ok(pkg) => pkg,
        Err(e) => {
            return Err(PipBuildError::Configuration(e));
        },
    };
    let dep_library = replace_dashes(package_name);
    let init = datasette_init_py(dep_library.as_str(), pkg.package_version());
    write_plugin(pkg, init.as_str())
}

/// Builds the sqlite-utils plugin of the package `package_name`: a package
/// named `sqlite-utils-` and the package's name, whose initializer loads
/// the base package into every connection that sqlite-utils prepares.
pub fn write_sqlite_utils(package_name: &str, package_version: &Version) -> (r: Result<
    Wheel,
    PipBuildError,
>)
    ensures
        match pip_version(package_version@) {
            Err(c) => r matches Err(PipBuildError::Configuration(e)) && e == c,
            Ok(version) => {
                &&& match r {
                    Ok(wheel) => is_wheel_of(
                        wheel,
                        "sqlite-utils-"@ + package_name@,
                        version,
                        "any"@,
                        plugin_payload(
                            "sqlite-utils-"@ + package_name@,
                            sqlite_utils_init_text(dash_to_underscore(package_name@), version),
                        ),
                    ),
                    Err(e) => e is ZipError,
                }
                &&& r is Ok <==> files_fit(
                    plugin_wheel_members(
                        "sqlite-utils-"@ + package_name@,
                        version,
                        sqlite_utils_init_text(dash_to_underscore(package_name@), version),
                    ),
                )
            },
        },
{
    let mut plugin_name = String::from_str("sqlite-utils-");
    plugin_name.append(package_name);
    let pkg = match PipPackage::new(plugin_name.as_str(), package_version) {
        Ok(pkg) => pkg,
        Err(e) => {
            return Err(PipBuildError::Configuration(e));
        },
    };
    let dep_library = replace_dashes(package_name);
    let init = sqlite_utils_init_py(dep_library.as_str(), pkg.package_version());
    write_plugin(pkg, init.as_str())
}

} // verus!
