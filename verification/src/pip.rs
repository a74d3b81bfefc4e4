//! The wheel builder.
//!
//! A [`PipPackage`] is begun with [`PipPackage::new`], takes payload files
//! through [`PipPackage::write_library_file`], and is turned into the bytes
//! of the wheel by [`PipPackage::end`].

use vstd::prelude::*;
use vstd::utf8::encode_utf8;
use zip::result::ZipError;
use crate::archive::{
    archive_members, archive_open, duplicate_name_error, files_fit, finish_archive, new_archive,
    start_stored_file, stored_archive, write_to_last_file, Archive, MAX_FILE_LEN,
};
use crate::digest::{content_hash, content_hash_string, is_encoded_digest};
use crate::error::ConfigurationError;
use crate::pip::templates::{
    dist_info_metadata, dist_info_record, dist_info_top_level_txt, dist_info_wheel,
    metadata_text, record_lines, record_text, top_level_text, wheel_text,
};
use crate::platform::{platform_of, platform_tag, wheel_tag, Cpu, Os};
use crate::text::{dash_to_underscore, replace_dashes, same_text};
use crate::version::{pip_version, semver_to_pip_version, Version};

pub mod packages;
pub mod templates;

pub use self::packages::{
    write_base_package, write_base_packages, write_datasette, write_sqlite_utils, Wheel,
};

verus! {

/// Lets `std::io::Error` stand in [`PipBuildError`]. Nothing is known of a
/// value of it.
#[verifier::external_type_specification]
#[verifier::external_body]
pub struct ExIoError(std::io::Error);

/// Why a wheel could not be built.
#[derive(Debug)]
pub enum PipBuildError {
    /// The archive writer refused a file or could not finish the archive.
    ZipError(ZipError),
    /// Bytes could not be read or written.
    IOError(std::io::Error),
    /// The build was asked for something that no wheel can hold.
    Configuration(ConfigurationError),
}

/// What a `RECORD` line says of one file of the archive.
pub struct RecordEntry {
    pub path: Seq<char>,
    pub hash: Seq<char>,
    pub size: nat,
}

/// The entry of the file at `path` that holds `data`.
pub open spec fn record_entry(path: Seq<char>, data: Seq<u8>) -> RecordEntry {
    RecordEntry { path, hash: content_hash(data), size: data.len() }
}

/// Whether `manifest` has an entry for `path`.
pub open spec fn lists_path(manifest: Seq<RecordEntry>, path: Seq<char>) -> bool {
    exists|i: int| 0 <= i < manifest.len() && (#[trigger] manifest[i]).path == path
}

/// Whether no two of `members` have the same path.
pub open spec fn paths_differ(members: Seq<(Seq<char>, Seq<u8>)>) -> bool {
    forall|i: int, j: int|
        0 <= i < j < members.len() ==> (#[trigger] members[i]).0 != (#[trigger] members[j]).0
}

/// The entries of the files of an archive, in their order.
pub open spec fn manifest_of(members: Seq<(Seq<char>, Seq<u8>)>) -> Seq<RecordEntry> {
    members.map_values(|m: (Seq<char>, Seq<u8>)| record_entry(m.0, m.1))
}

/// One file written to the archive, as `RECORD` will list it.
pub struct PipPackageFile {
    path: String,
    hash: String,
    size: usize,
}

impl View for PipPackageFile {
    type V = RecordEntry;

    closed spec fn view(&self) -> RecordEntry {
        RecordEntry { path: self.path@, hash: self.hash@, size: self.size as nat }
    }
}

impl PipPackageFile {
    /// Describes the file at `path` that holds `data`.
    pub fn new(path: &str, data: &[u8]) -> (file: Self)
        ensures
            file@ == record_entry(path@, data@),
            is_encoded_digest(file@.hash),
    {
        let hash = content_hash_string(data);
        PipPackageFile { path: path.to_owned(), hash, size: data.len() }
    }

    /// Where the file stands in the archive.
    pub fn path(&self) -> (path: &str)
        ensures
            path@ == self@.path,
    {
        self.path.as_str()
    }

    /// The SHA-256 digest of the file in unpadded URL-safe base64.
    pub fn hash(&self) -> (hash: &str)
        ensures
            hash@ == self@.hash,
    {
        self.hash.as_str()
    }

    /// How many bytes the file holds.
    pub fn size(&self) -> (size: usize)
        ensures
            size == self@.size,
    {
        self.size
    }
}

/// The compatibility tag for an operating system and a processor.
pub fn platform_target_tag(os: &Os, cpu: &Cpu) -> (r: Result<String, ConfigurationError>)
    ensures
        match r {
            Ok(tag) => platform_tag(*os, *cpu) == Some(tag@),
            Err(e) => platform_tag(*os, *cpu).is_none()
                && e == ConfigurationError::UnsupportedPlatform,
        },
{
    let tag = match (os, cpu) {
        (Os::Macos, Cpu::X86_64) => "macosx_10_6_x86_64",
        (Os::Macos, Cpu::Aarch64) => "macosx_11_0_arm64",
        (Os::Linux, Cpu::X86_64) => "manylinux_2_17_x86_64.manylinux2014_x86_64.manylinux1_x86_64",
        (Os::Linux, Cpu::Aarch64) => "manylinux_2_17_aarch64.manylinux2014_aarch64",
        (Os::Windows, Cpu::X86_64) => "win_amd64",
        (Os::Windows, Cpu::Aarch64) => {
            return Err(ConfigurationError::UnsupportedPlatform);
        },
    };
    Ok(tag.to_owned())
}

/// The tag of a wheel of the given platform, `any` without one.
pub fn wheel_target_tag(platform: Option<(&Os, &Cpu)>) -> (r: Result<String, ConfigurationError>)
    ensures
        match r {
            Ok(tag) => wheel_tag(platform_of(platform)) == Some(tag@),
            Err(e) => wheel_tag(platform_of(platform)).is_none()
                && e == ConfigurationError::UnsupportedPlatform,
        },
{
    match platform {
        Some((os, cpu)) => platform_target_tag(os, cpu),
        None => Ok("any".to_owned()),
    }
}

/// The directory of the payload, with the `/` that ends it.
pub open spec fn library_dir(import_name: Seq<char>) -> Seq<char> {
    import_name + "/"@
}

/// Where a payload file stands in the archive.
pub open spec fn library_path(import_name: Seq<char>, path: Seq<char>) -> Seq<char> {
    library_dir(import_name) + path
}

/// The directory of the metadata, with the `/` that ends it.
pub open spec fn dist_info_dir(import_name: Seq<char>, version: Seq<char>) -> Seq<char> {
    import_name + "-"@ + version + ".dist-info/"@
}

/// Where a metadata file stands in the archive.
pub open spec fn dist_info_path(import_name: Seq<char>, version: Seq<char>, file: Seq<char>) -> Seq<
    char,
> {
    dist_info_dir(import_name, version) + file
}

/// The file name of a wheel.
pub open spec fn wheel_file_name(import_name: Seq<char>, version: Seq<char>, tag: Seq<char>) -> Seq<
    char,
> {
    import_name + "-"@ + version + "-py3-none-"@ + tag + ".whl"@
}

/// A wheel under construction: the archive, the names it is built under,
/// and the manifest of what was written.
pub struct PipPackage {
    zipfile: Archive,
    package_name: String,
    python_package_name: String,
    package_version: String,
    written_files: Vec<PipPackageFile>,
}

/// What a [`PipPackage`] holds.
pub struct PipPackageView {
    /// The distribution name, as it was given.
    pub name: Seq<char>,
    /// The name of the directory that holds the payload.
    pub import_name: Seq<char>,
    /// The version string of the wheel.
    pub version: Seq<char>,
    /// One entry for each payload file written, in the order of writing.
    pub manifest: Seq<RecordEntry>,
    /// The files of the archive: the path and the bytes of each.
    pub members: Seq<(Seq<char>, Seq<u8>)>,
}

impl PipPackageView {
    /// The import name is the distribution name with `_` for `-`, the
    /// manifest lists the files of the archive, each of them lies under the
    /// import name, and no two of them have the same path.
    pub open spec fn wf(self) -> bool {
        &&& self.import_name == dash_to_underscore(self.name)
        &&& self.manifest == manifest_of(self.members)
        &&& forall|i: int|
            0 <= i < self.members.len() ==> library_dir(self.import_name).is_prefix_of(
                #[trigger] self.members[i].0,
            )
        &&& paths_differ(self.members)
    }

    /// Where `RECORD` stands in the archive.
    pub open spec fn record_path(self) -> Seq<char> {
        dist_info_path(self.import_name, self.version, "RECORD"@)
    }

    /// The four metadata files of a wheel with the tag `tag`: `METADATA`,
    /// `WHEEL`, `top_level.txt` and `RECORD`, which lists the manifest.
    pub open spec fn dist_info_members(self, tag: Seq<char>) -> Seq<(Seq<char>, Seq<u8>)> {
        seq![
            (
                dist_info_path(self.import_name, self.version, "METADATA"@),
                encode_utf8(metadata_text(self.name, self.version)),
            ),
            (dist_info_path(self.import_name, self.version, "WHEEL"@), encode_utf8(wheel_text(tag))),
            (
                dist_info_path(self.import_name, self.version, "top_level.txt"@),
                encode_utf8(top_level_text(self.import_name)),
            ),
            (self.record_path(), encode_utf8(record_text(self.manifest, self.record_path()))),
        ]
    }

    /// The files of the finished wheel: what was written, then the four
    /// metadata files.
    pub open spec fn finished_members(self, tag: Seq<char>) -> Seq<(Seq<char>, Seq<u8>)> {
        self.members + self.dist_info_members(tag)
    }
}

impl View for PipPackage {
    type V = PipPackageView;

    closed spec fn view(&self) -> PipPackageView {
        PipPackageView {
            name: self.package_name@,
            import_name: self.python_package_name@,
            version: self.package_version@,
            manifest: self.written_files@.map_values(|f: PipPackageFile| f@),
            members: archive_members(self.zipfile),
        }
    }
}

impl PipPackage {
    /// Whether the package still takes files. A new package does, and goes
    /// on to until its archive refuses one.
    pub closed spec fn is_open(&self) -> bool {
        archive_open(self.zipfile)
    }

    /// Starts a wheel for the distribution `package_name` at
    /// `package_version`. Fails where the version has no wheel spelling.
    pub fn new(package_name: &str, package_version: &Version) -> (r: Result<
        PipPackage,
        ConfigurationError,
    >)
        ensures
            match r {
                Ok(pkg) => {
                    &&& pip_version(package_version@) == Ok::<Seq<char>, ConfigurationError>(
                        pkg@.version,
                    )
                    &&& pkg@.name == package_name@
                    &&& pkg@.import_name == dash_to_underscore(package_name@)
                    &&& pkg@.manifest == Seq::<RecordEntry>::empty()
                    &&& pkg@.members == Seq::<(Seq<char>, Seq<u8>)>::empty()
                    &&& pkg@ == package_after(package_name@, pkg@.version, Seq::empty())
                    &&& pkg@.wf()
                    &&& pkg.is_open()
                },
                Err(e) => pip_version(package_version@) == Err::<Seq<char>, ConfigurationError>(e),
            },
    {
        let version = match semver_to_pip_version(package_version) {
            Ok(version) => version,
            Err(e) => {
                return Err(e);
            },
        };
        let pkg = PipPackage {
            zipfile: new_archive(),
            package_name: package_name.to_owned(),
            python_package_name: replace_dashes(package_name),
            package_version: version,
            written_files: Vec::new(),
        };
        proof {
            let after = package_after(package_name@, pkg@.version, Seq::empty());
            assert(after.members =~= pkg@.members);
            assert(after.manifest =~= pkg@.manifest);
        }
        Ok(pkg)
    }

    /// The distribution name, as it was given.
    pub fn package_name(&self) -> (name: &str)
        ensures
            name@ == self@.name,
    {
        self.package_name.as_str()
    }

    /// The name under which the package is imported.
    pub fn python_package_name(&self) -> (name: &str)
        ensures
            name@ == self@.import_name,
    {
        self.python_package_name.as_str()
    }

    /// The version string of the wheel.
    pub fn package_version(&self) -> (version: &str)
        ensures
            version@ == self@.version,
    {
        self.package_version.as_str()
    }

    /// The file name of the wheel for the given platform, or for any
    /// platform.
    pub fn wheel_name(&self, platform: Option<(&Os, &Cpu)>) -> (r: Result<
        String,
        ConfigurationError,
    >)
        ensures
            match r {
                Ok(name) => match wheel_tag(platform_of(platform)) {
                    Some(tag) => name@ == wheel_file_name(self@.import_name, self@.version, tag),
                    None => false,
                },
                Err(e) => wheel_tag(platform_of(platform)).is_none()
                    && e == ConfigurationError::UnsupportedPlatform,
            },
    {
        let platform_tag = match wheel_target_tag(platform) {
            Ok(tag) => tag,
            Err(e) => {
                return Err(e);
            },
        };
        let mut name = self.python_package_name.clone();
        name.append("-");
        name.append(self.package_version.as_str());
        name.append("-py3-none-");
        name.append(platform_tag.as_str());
        name.append(".whl");
        Ok(name)
    }

    /// Stores `data` at `path` in the archive. The manifest is left as it
    /// is. An open package takes the file if and only if it is no longer
    /// than [`MAX_FILE_LEN`], and then stays open.
    fn store_file(&mut self, path: &str, data: &[u8]) -> (r: Result<(), ZipError>)
        ensures
            final(self)@.name == old(self)@.name,
            final(self)@.import_name == old(self)@.import_name,
            final(self)@.version == old(self)@.version,
            final(self)@.manifest == old(self)@.manifest,
            r is Ok ==> final(self)@.members == old(self)@.members.push((path@, data@)),
            old(self).is_open() ==> (r is Ok <==> data@.len() <= MAX_FILE_LEN),
            old(self).is_open() && r is Ok ==> final(self).is_open(),
    {
        let started = start_stored_file(&mut self.zipfile, path);
        self.fill_started_file(data, started)
    }

    /// What follows the archive's answer to the start of a file. A refusal
    /// is handed on as it came, and the archive is not touched again. Else
    /// `data` is written to the file that was started, and the archive's
    /// answer to that is the result.
    fn fill_started_file(&mut self, data: &[u8], started: Result<(), ZipError>) -> (r: Result<
        (),
        ZipError,
    >)
        ensures
            final(self)@.name == old(self)@.name,
            final(self)@.import_name == old(self)@.import_name,
            final(self)@.version == old(self)@.version,
            final(self)@.manifest == old(self)@.manifest,
            started is Err ==> r == started && final(self)@.members == old(self)@.members,
            started is Ok && r is Ok && old(self)@.members.len() > 0 ==> final(self)@.members
                == old(self)@.members.drop_last().push(
                (old(self)@.members.last().0, old(self)@.members.last().1 + data@),
            ),
            started is Ok && old(self).is_open() && old(self)@.members.len() > 0 ==> (r is Ok
                <==> old(self)@.members.last().1.len() + data@.len() <= MAX_FILE_LEN),
            started is Ok && old(self).is_open() && r is Ok && old(self)@.members.len() > 0
                ==> final(self).is_open(),
    {
        match started {
            Ok(()) => write_to_last_file(&mut self.zipfile, data),
            Err(e) => Err(e),
        }
    }

    /// What follows the archive's answer to a file: where it took the file,
    /// the file's entry is added to the manifest; where it refused, the
    /// manifest is left as it is. Either way the answer is handed on as it
    /// came.
    fn note_stored(&mut self, path: &str, data: &[u8], stored: Result<(), ZipError>) -> (r: Result<
        (),
        ZipError,
    >)
        ensures
            r == stored,
            final(self)@.name == old(self)@.name,
            final(self)@.import_name == old(self)@.import_name,
            final(self)@.version == old(self)@.version,
            final(self)@.members == old(self)@.members,
            final(self).is_open() == old(self).is_open(),
            stored is Ok ==> final(self)@.manifest == old(self)@.manifest.push(
                record_entry(path@, data@),
            ),
            stored is Err ==> final(self)@.manifest == old(self)@.manifest,
    {
        if stored.is_ok() {
            self.written_files.push(PipPackageFile::new(path, data));
        }
        stored
    }

    /// Stores `data` at `path` and adds its entry to the manifest. An open
    /// package takes the file if and only if it is no longer than
    /// [`MAX_FILE_LEN`], and then stays open.
    fn write_file(&mut self, path: &str, data: &[u8]) -> (r: Result<(), ZipError>)
        ensures
            final(self)@.name == old(self)@.name,
            final(self)@.import_name == old(self)@.import_name,
            final(self)@.version == old(self)@.version,
            r is Ok ==> final(self)@.members == old(self)@.members.push((path@, data@)),
            r is Ok ==> final(self)@.manifest == old(self)@.manifest.push(
                record_entry(path@, data@),
            ),
            r is Err ==> final(self)@.manifest == old(self)@.manifest,
            old(self).is_open() ==> (r is Ok <==> data@.len() <= MAX_FILE_LEN),
            old(self).is_open() && r is Ok ==> final(self).is_open(),
    {
        let stored = self.store_file(path, data);
        self.note_stored(path, data, stored)
    }

    /// Stores a payload file: `data` at `path` under the import name.
    ///
    /// A path that the manifest lists already is refused before the archive
    /// is touched, and the package is left as it was. Else an open package
    /// takes the file if and only if it is no longer than [`MAX_FILE_LEN`],
    /// and then stays open. Where the archive refuses the file, the manifest
    /// is as before, and the package is good for nothing more.
    pub fn write_library_file(&mut self, path: &str, data: &[u8]) -> (r: Result<(), ZipError>)
        ensures
            final(self)@.name == old(self)@.name,
            final(self)@.import_name == old(self)@.import_name,
            final(self)@.version == old(self)@.version,
            r is Ok ==> final(self)@.members == old(self)@.members.push(
                (library_path(old(self)@.import_name, path@), data@),
            ),
            r is Ok ==> final(self)@.manifest == old(self)@.manifest.push(
                record_entry(library_path(old(self)@.import_name, path@), data@),
            ),
            r is Ok && old(self)@.wf() ==> final(self)@.wf(),
            r is Ok ==> forall|written: Seq<(Seq<char>, Seq<u8>)>|
                old(self)@ == #[trigger] package_after(
                    old(self)@.name,
                    old(self)@.version,
                    written,
                ) ==> final(self)@ == package_after(
                    old(self)@.name,
                    old(self)@.version,
                    written.push((path@, data@)),
                ),
            r is Err ==> final(self)@.manifest == old(self)@.manifest,
            lists_path(old(self)@.manifest, library_path(old(self)@.import_name, path@)) ==> {
                &&& r is Err
                &&& final(self)@ == old(self)@
                &&& final(self).is_open() == old(self).is_open()
            },
            old(self).is_open() ==> (r is Ok <==> data@.len() <= MAX_FILE_LEN && !lists_path(
                old(self)@.manifest,
                library_path(old(self)@.import_name, path@),
            )),
            old(self).is_open() && r is Ok ==> final(self).is_open(),
    {
        let full_path = self.library_file(path);
        if self.has_written(full_path.as_str()) {
            return Err(duplicate_name_error());
        }
        let r = self.write_file(full_path.as_str(), data);
        proof {
            if r is Ok {
                assert forall|written: Seq<(Seq<char>, Seq<u8>)>|
                    old(self)@ == #[trigger] package_after(
                        old(self)@.name,
                        old(self)@.version,
                        written,
                    ) implies self@ == package_after(
                    old(self)@.name,
                    old(self)@.version,
                    written.push((path@, data@)),
                ) by {
                    lemma_package_after_one_more(
                        old(self)@.name,
                        old(self)@.version,
                        written,
                        path@,
                        data@,
                    );
                }
            }
            if r is Ok && old(self)@.wf() {
                assert(self@.manifest =~= manifest_of(self@.members));
                assert forall|i: int| 0 <= i < old(self)@.members.len() implies (
                #[trigger] old(self)@.members[i]).0 != full_path@ by {
                    assert(old(self)@.manifest[i].path == old(self)@.members[i].0);
                }
            }
        }
        r
    }

    /// Whether the manifest lists `path`.
    fn has_written(&self, path: &str) -> (found: bool)
        ensures
            found == lists_path(self@.manifest, path@),
    {
        let mut i: usize = 0;
        while i < self.written_files.len()
            invariant
                i <= self.written_files.len(),
                forall|j: int| 0 <= j < i ==> (#[trigger] self@.manifest[j]).path != path@,
            decreases self.written_files.len() - i,
        {
            if same_text(self.written_files[i].path(), path) {
                assert(self@.manifest[i as int].path == path@);
                return true;
            }
            i = i + 1;
        }
        false
    }

    /// Where a payload file stands in the archive.
    fn library_file(&self, file: &str) -> (path: String)
        ensures
            path@ == library_path(self@.import_name, file@),
    {
        let mut path = self.python_package_name.clone();
        path.append("/");
        path.append(file);
        path
    }

    /// Where a metadata file stands in the archive.
    fn dist_info_file(&self, file: &str) -> (path: String)
        ensures
            path@ == dist_info_path(self@.import_name, self@.version, file@),
    {
        let mut path = self.python_package_name.clone();
        path.append("-");
        path.append(self.package_version.as_str());
        path.append(".dist-info/");
        path.append(file);
        path
    }

    /// Writes `METADATA`.
    fn write_dist_info_metadata(&mut self) -> (r: Result<(), ZipError>)
        ensures
            final(self)@.name == old(self)@.name,
            final(self)@.import_name == old(self)@.import_name,
            final(self)@.version == old(self)@.version,
            final(self)@.manifest == old(self)@.manifest,
            r is Ok ==> final(self)@.members == old(self)@.members.push(
                (
                    dist_info_path(old(self)@.import_name, old(self)@.version, "METADATA"@),
                    encode_utf8(metadata_text(old(self)@.name, old(self)@.version)),
                ),
            ),
            old(self).is_open() ==> (r is Ok <==> encode_utf8(
                metadata_text(old(self)@.name, old(self)@.version),
            ).len() <= MAX_FILE_LEN),
            old(self).is_open() && r is Ok ==> final(self).is_open(),
    {
        let path = self.dist_info_file("METADATA");
        let text = dist_info_metadata(self.package_name.as_str(), self.package_version.as_str());
        self.store_file(path.as_str(), text.as_str().as_bytes())
    }

    /// Writes `WHEEL`.
    fn write_dist_info_wheel(&mut self, platform: Option<(&Os, &Cpu)>) -> (r: Result<
        (),
        PipBuildError,
    >)
        ensures
            final(self)@.name == old(self)@.name,
            final(self)@.import_name == old(self)@.import_name,
            final(self)@.version == old(self)@.version,
            final(self)@.manifest == old(self)@.manifest,
            match wheel_tag(platform_of(platform)) {
                Some(tag) => {
                    &&& match r {
                        Ok(()) => final(self)@.members == old(self)@.members.push(
                            (
                                dist_info_path(
                                    old(self)@.import_name,
                                    old(self)@.version,
                                    "WHEEL"@,
                                ),
                                encode_utf8(wheel_text(tag)),
                            ),
                        ),
                        Err(e) => e is ZipError,
                    }
                    &&& old(self).is_open() ==> (r is Ok <==> encode_utf8(wheel_text(tag)).len()
                        <= MAX_FILE_LEN)
                    &&& old(self).is_open() && r is Ok ==> final(self).is_open()
                },
                None => r matches Err(PipBuildError::Configuration(e)) && e
                    == ConfigurationError::UnsupportedPlatform,
            },
    {
        let text = match dist_info_wheel(platform) {
            Ok(text) => text,
            Err(e) => {
                return Err(PipBuildError::Configuration(e));
            },
        };
        let path = self.dist_info_file("WHEEL");
        match self.store_file(path.as_str(), text.as_str().as_bytes()) {
            Ok(()) => Ok(()),
            Err(e) => Err(PipBuildError::ZipError(e)),
        }
    }

    /// Writes `top_level.txt`.
    fn write_dist_info_top_level_txt(&mut self) -> (r: Result<(), ZipError>)
        ensures
            final(self)@.name == old(self)@.name,
            final(self)@.import_name == old(self)@.import_name,
            final(self)@.version == old(self)@.version,
            final(self)@.manifest == old(self)@.manifest,
            r is Ok ==> final(self)@.members == old(self)@.members.push(
                (
                    dist_info_path(old(self)@.import_name, old(self)@.version, "top_level.txt"@),
                    encode_utf8(top_level_text(old(self)@.import_name)),
                ),
            ),
            old(self).is_open() ==> (r is Ok <==> encode_utf8(
                top_level_text(old(self)@.import_name),
            ).len() <= MAX_FILE_LEN),
            old(self).is_open() && r is Ok ==> final(self).is_open(),
    {
        let path = self.dist_info_file("top_level.txt");
        let text = dist_info_top_level_txt(self.python_package_name.as_str());
        self.store_file(path.as_str(), text.as_str().as_bytes())
    }

    /// Writes `RECORD`, which lists the manifest and then itself.
    fn write_dist_info_record(&mut self) -> (r: Result<(), ZipError>)
        ensures
            final(self)@.name == old(self)@.name,
            final(self)@.import_name == old(self)@.import_name,
            final(self)@.version == old(self)@.version,
            final(self)@.manifest == old(self)@.manifest,
            r is Ok ==> final(self)@.members == old(self)@.members.push(
                (
                    old(self)@.record_path(),
                    encode_utf8(record_text(old(self)@.manifest, old(self)@.record_path())),
                ),
            ),
            old(self).is_open() ==> (r is Ok <==> encode_utf8(
                record_text(old(self)@.manifest, old(self)@.record_path()),
            ).len() <= MAX_FILE_LEN),
            old(self).is_open() && r is Ok ==> final(self).is_open(),
    {
        let record_path = self.dist_info_file("RECORD");
        let text = dist_info_record(&self.written_files, record_path.as_str());
        self.store_file(record_path.as_str(), text.as_str().as_bytes())
    }

    /// Ends the build: writes `METADATA`, `WHEEL`, `top_level.txt` and
    /// `RECORD`, in this order, closes the archive and returns its bytes.
    /// `RECORD` lists the manifest, that is the payload, and itself; the
    /// three files written just before it are not in the manifest.
    ///
    /// A platform without a tag stops the build before anything is written.
    /// Else an open package is ended if and only if each of the four files
    /// is no longer than [`MAX_FILE_LEN`].
    pub fn end(self, platform: Option<(&Os, &Cpu)>) -> (r: Result<Vec<u8>, PipBuildError>)
        ensures
            match wheel_tag(platform_of(platform)) {
                Some(tag) => {
                    &&& match r {
                        Ok(bytes) => bytes@ == stored_archive(self@.finished_members(tag)),
                        Err(e) => e is ZipError,
                    }
                    &&& self.is_open() ==> (r is Ok <==> files_fit(self@.dist_info_members(tag)))
                },
                None => r matches Err(PipBuildError::Configuration(e)) && e
                    == ConfigurationError::UnsupportedPlatform,
            },
    {
        match wheel_target_tag(platform) {
            Ok(_) => {},
            Err(e) => {
                return Err(PipBuildError::Configuration(e));
            },
        }
        let ghost tag = wheel_tag(platform_of(platform)).unwrap();
        let mut pkg = self;
        match pkg.write_dist_info_metadata() {
            Ok(()) => {},
            Err(e) => {
                return Err(PipBuildError::ZipError(e));
            },
        }
        match pkg.write_dist_info_wheel(platform) {
            Ok(()) => {},
            Err(e) => {
                return Err(e);
            },
        }
        match pkg.write_dist_info_top_level_txt() {
            Ok(()) => {},
            Err(e) => {
                return Err(PipBuildError::ZipError(e));
            },
        }
        match pkg.write_dist_info_record() {
            Ok(()) => {},
            Err(e) => {
                return Err(PipBuildError::ZipError(e));
            },
        }
        assert(pkg@.members =~= self@.finished_members(tag));
        match finish_archive(pkg.zipfile) {
            Ok(bytes) => Ok(bytes),
            Err(e) => Err(PipBuildError::ZipError(e)),
        }
    }
}

/// A package that holds `payload` and nothing else.
pub open spec fn package_with(
    name: Seq<char>,
    version: Seq<char>,
    payload: Seq<(Seq<char>, Seq<u8>)>,
) -> PipPackageView {
    PipPackageView {
        name,
        import_name: dash_to_underscore(name),
        version,
        manifest: manifest_of(payload),
        members: payload,
    }
}

/// The files that lie in the archive after `written` was handed to
/// [`PipPackage::write_library_file`], file by file: each at its path under
/// the import name.
pub open spec fn written_members(import_name: Seq<char>, written: Seq<(Seq<char>, Seq<u8>)>) -> Seq<
    (Seq<char>, Seq<u8>),
> {
    written.map_values(|f: (Seq<char>, Seq<u8>)| (library_path(import_name, f.0), f.1))
}

/// The package of `name` at `version` after the files of `written`, each a
/// path and its bytes, were written to it in their order.
pub open spec fn package_after(
    name: Seq<char>,
    version: Seq<char>,
    written: Seq<(Seq<char>, Seq<u8>)>,
) -> PipPackageView {
    package_with(name, version, written_members(dash_to_underscore(name), written))
}

/// Two files lie at one path only where they have one name.
pub proof fn lemma_library_path_is_one_to_one(
    import_name: Seq<char>,
    first: Seq<char>,
    second: Seq<char>,
)
    ensures
        library_path(import_name, first) == library_path(import_name, second) <==> first
            == second,
{
    let dir = library_dir(import_name);
    assert(library_path(import_name, first).subrange(
        dir.len() as int,
        (dir.len() + first.len()) as int,
    ) =~= first);
    assert(library_path(import_name, second).subrange(
        dir.len() as int,
        (dir.len() + second.len()) as int,
    ) =~= second);
}

/// A new package is the package after no file, and a file that was taken
/// makes the package after `written` the package after one file more. The
/// manifest lists a path exactly where a file of that path was written.
pub proof fn lemma_package_after_one_more(
    name: Seq<char>,
    version: Seq<char>,
    written: Seq<(Seq<char>, Seq<u8>)>,
    path: Seq<char>,
    data: Seq<u8>,
)
    ensures
        package_after(name, version, Seq::empty()).members == Seq::<(Seq<char>, Seq<u8>)>::empty(),
        package_after(name, version, Seq::empty()).manifest == Seq::<RecordEntry>::empty(),
        ({
            let before = package_after(name, version, written);
            let after = package_after(name, version, written.push((path, data)));
            let full_path = library_path(before.import_name, path);
            &&& after.members == before.members.push((full_path, data))
            &&& after.manifest == before.manifest.push(record_entry(full_path, data))
            &&& lists_path(before.manifest, full_path) <==> exists|i: int|
                0 <= i < written.len() && (#[trigger] written[i]).0 == path
        }),
{
    let before = package_after(name, version, written);
    let full_path = library_path(before.import_name, path);
    if lists_path(before.manifest, full_path) {
        let i = choose|i: int|
            0 <= i < before.manifest.len() && (#[trigger] before.manifest[i]).path == full_path;
        lemma_library_path_is_one_to_one(before.import_name, written[i].0, path);
    }
    if exists|i: int| 0 <= i < written.len() && (#[trigger] written[i]).0 == path {
        let i = choose|i: int| 0 <= i < written.len() && (#[trigger] written[i]).0 == path;
        assert(before.manifest[i].path == full_path);
    }
}

/// After `n` files of pairwise different paths were written to a new
/// package, the package is well formed, and its wheel holds these `n`
/// files, each under the import name with the bytes that were written, and
/// then the four metadata files. `RECORD`, the last of them, has `n + 1`
/// lines: one for each file written, with the SHA-256 of its bytes in
/// unpadded URL-safe base64 and the number of its bytes, and the line of
/// `RECORD` itself.
pub proof fn lemma_wheel_of_written_files(
    name: Seq<char>,
    version: Seq<char>,
    written: Seq<(Seq<char>, Seq<u8>)>,
    tag: Seq<char>,
)
    requires
        paths_differ(written),
    ensures
        ({
            let pkg = package_after(name, version, written);
            let finished = pkg.finished_members(tag);
            let lines = record_lines(pkg.manifest, pkg.record_path());
            &&& pkg.wf()
            &&& finished.len() == written.len() + 4
            &&& forall|i: int|
                0 <= i < written.len() ==> #[trigger] finished[i] == (
                    pkg.import_name + "/"@ + written[i].0,
                    written[i].1,
                )
            &&& finished.last() == (pkg.record_path(), encode_utf8(lines.flatten()))
            &&& lines.len() == written.len() + 1
            &&& forall|i: int|
                0 <= i < written.len() ==> #[trigger] lines[i] == pkg.import_name + "/"@
                    + written[i].0 + ",sha256="@ + crate::digest::base64_url_no_pad(
                    crate::digest::sha256(written[i].1),
                ) + ","@ + crate::text::decimal(written[i].1.len()) + "\n"@
            &&& lines.last() == pkg.record_path() + ",,\n"@
        }),
{
    let pkg = package_after(name, version, written);
    assert forall|i: int, j: int| 0 <= i < j < pkg.members.len() implies (#[trigger] pkg.members[i]).0
        != (#[trigger] pkg.members[j]).0 by {
        lemma_library_path_is_one_to_one(pkg.import_name, written[i].0, written[j].0);
    }
    lemma_record_of_payload(pkg, tag);
}

/// `RECORD` has one line for each file of the manifest, in the order of
/// the manifest, each with the path, the hash and the size of its file, and
/// one more line for `RECORD` itself, which gives neither hash nor size.
pub proof fn lemma_record_lines(manifest: Seq<RecordEntry>, record_path: Seq<char>)
    ensures
        record_lines(manifest, record_path).len() == manifest.len() + 1,
        forall|i: int|
            0 <= i < manifest.len() ==> #[trigger] record_lines(manifest, record_path)[i]
                == manifest[i].path + ",sha256="@ + manifest[i].hash + ","@ + crate::text::decimal(
                manifest[i].size,
            ) + "\n"@,
        record_lines(manifest, record_path).last() == record_path + ",,\n"@,
        record_text(manifest, record_path) == record_lines(manifest, record_path).flatten(),
{
}

/// After `n` payload files, the `RECORD` of the finished wheel has `n + 1`
/// lines: the line of each payload file, with the SHA-256 of its bytes in
/// unpadded URL-safe base64 and the number of its bytes, and the line of
/// `RECORD` itself.
pub proof fn lemma_record_of_payload(pkg: PipPackageView, tag: Seq<char>)
    requires
        pkg.wf(),
    ensures
        ({
            let lines = record_lines(pkg.manifest, pkg.record_path());
            &&& pkg.finished_members(tag).last() == (pkg.record_path(), encode_utf8(lines.flatten()))
            &&& lines.len() == pkg.members.len() + 1
            &&& forall|i: int|
                0 <= i < pkg.members.len() ==> #[trigger] lines[i] == pkg.members[i].0
                    + ",sha256="@ + crate::digest::base64_url_no_pad(
                    crate::digest::sha256(pkg.members[i].1),
                ) + ","@ + crate::text::decimal(pkg.members[i].1.len()) + "\n"@
            &&& lines.last() == pkg.record_path() + ",,\n"@
        }),
{
}

/// The manifest has one entry for each payload file written, and the
/// metadata files add none.
pub proof fn lemma_manifest_length(pkg: PipPackageView, tag: Seq<char>)
    requires
        pkg.wf(),
    ensures
        pkg.manifest.len() == pkg.members.len(),
        pkg.finished_members(tag).len() == pkg.manifest.len() + 4,
{
}

/// A finished wheel holds the payload, each file of it under the import
/// name, and then `METADATA`, `WHEEL`, `top_level.txt` and `RECORD`, in this
/// order, under the directory named by import name and version.
pub proof fn lemma_finished_layout(pkg: PipPackageView, tag: Seq<char>)
    requires
        pkg.wf(),
    ensures
        ({
            let finished = pkg.finished_members(tag);
            let payload = pkg.members.len() as int;
            let dir = pkg.import_name + "-"@ + pkg.version + ".dist-info/"@;
            &&& finished.len() == payload + 4
            &&& forall|i: int|
                0 <= i < payload ==> #[trigger] finished[i] == pkg.members[i] && (pkg.import_name
                    + "/"@).is_prefix_of(finished[i].0)
            &&& forall|i: int| payload <= i < payload + 4 ==> dir.is_prefix_of(#[trigger] finished[i].0)
            &&& finished[payload].0 == dir + "METADATA"@
            &&& finished[payload + 1].0 == dir + "WHEEL"@
            &&& finished[payload + 2].0 == dir + "top_level.txt"@
            &&& finished[payload + 3].0 == dir + "RECORD"@
        }),
{
}

/// No two files of a finished wheel have the same path.
pub proof fn lemma_finished_paths_differ(pkg: PipPackageView, tag: Seq<char>)
    requires
        pkg.wf(),
    ensures
        paths_differ(pkg.finished_members(tag)),
{
    reveal_strlit("/");
    reveal_strlit("-");
    reveal_strlit("METADATA");
    reveal_strlit("WHEEL");
    reveal_strlit("top_level.txt");
    reveal_strlit("RECORD");
    let finished = pkg.finished_members(tag);
    let payload = pkg.members.len() as int;
    let at = pkg.import_name.len() as int;
    assert forall|i: int, j: int| 0 <= i < j < finished.len() implies (#[trigger] finished[i]).0
        != (#[trigger] finished[j]).0 by {
        if i < payload <= j {
            assert(finished[i].0[at] == library_dir(pkg.import_name)[at]);
        } else if payload <= i {
            assert(finished[i].0.len() != finished[j].0.len());
        }
    }
}

} // verus!
