//! The texts that the builder writes into a wheel.

use vstd::prelude::*;
use crate::error::ConfigurationError;
use crate::pip::{wheel_target_tag, PipPackageFile, RecordEntry};
use crate::platform::{platform_of, wheel_tag, Cpu, Os};
use crate::text::{decimal, decimal_string};

verus! {

/// The name under which this builder signs the wheels it makes.
pub const GENERATOR_NAME: &'static str = "sqlite-dist";

/// The version under which this builder signs the wheels it makes.
pub const GENERATOR_VERSION: &'static str = "0.1.0";

/// The text of `METADATA`.
pub open spec fn metadata_text(name: Seq<char>, version: Seq<char>) -> Seq<char> {
    "Metadata-Version: 2.1\nName: "@ + name + "\nVersion: "@ + version
        + "\nHome-page: https://TODO.com\nAuthor: TODO\nLicense: MIT License, Apache License, Version 2.0\nDescription-Content-Type: text/markdown\n\nTODO readme"@
}

/// The text of `WHEEL` for a compatibility tag.
pub open spec fn wheel_text(platform_tag: Seq<char>) -> Seq<char> {
    "Wheel-Version: 1.0\nGenerator: "@ + GENERATOR_NAME@ + " "@ + GENERATOR_VERSION@
        + "\nRoot-Is-Purelib: false\nTag: py3-none-"@ + platform_tag
}

/// The text of `top_level.txt`.
pub open spec fn top_level_text(import_name: Seq<char>) -> Seq<char> {
    import_name + "\n"@
}

/// The `RECORD` line of one file.
pub open spec fn record_line(entry: RecordEntry) -> Seq<char> {
    entry.path + ",sha256="@ + entry.hash + ","@ + decimal(entry.size) + "\n"@
}

/// The `RECORD` line of `RECORD` itself, which gives neither hash nor size.
pub open spec fn record_closing_line(record_path: Seq<char>) -> Seq<char> {
    record_path + ",,\n"@
}

/// The lines of `RECORD`: one for each file of the manifest, in its order,
/// then the line of `RECORD` itself.
pub open spec fn record_lines(manifest: Seq<RecordEntry>, record_path: Seq<char>) -> Seq<
    Seq<char>,
> {
    manifest.map_values(|entry: RecordEntry| record_line(entry)).push(
        record_closing_line(record_path),
    )
}

/// The text of `RECORD`.
pub open spec fn record_text(manifest: Seq<RecordEntry>, record_path: Seq<char>) -> Seq<char> {
    record_lines(manifest, record_path).flatten()
}

/// The text of the `__init__.py` of a base package, which loads the file
/// `entrypoint` that lies beside it.
pub open spec fn base_init_text(version: Seq<char>, entrypoint: Seq<char>) -> Seq<char> {
    "\nimport os\nimport sqlite3\n\n__version__ = \""@ + version
        + "\"\n__version_info__ = tuple(__version__.split(\".\"))\n\ndef loadable_path():\n  loadable_path = os.path.join(os.path.dirname(__file__), \""@
        + entrypoint
        + "\")\n  return os.path.normpath(loadable_path)\n\ndef load(conn: sqlite3.Connection)  -> None:\n  conn.load_extension(loadable_path())\n"@
}

/// What the two plugin initializers share after their first line.
pub open spec fn plugin_init_tail(dep_library: Seq<char>, version: Seq<char>) -> Seq<char> {
    " import hookimpl\nimport "@ + dep_library + "\n\n__version__ = \""@ + version
        + "\"\n__version_info__ = tuple(__version__.split(\".\"))\n\n@hookimpl\ndef prepare_connection(conn):\n  conn.enable_load_extension(True)\n  "@
        + dep_library + ".load(conn)\n  conn.enable_load_extension(False)\n"@
}

/// The text of the `__init__.py` of the sqlite-utils plugin for the base
/// package that is imported as `dep_library`.
pub open spec fn sqlite_utils_init_text(dep_library: Seq<char>, version: Seq<char>) -> Seq<
    char,
> {
    "\nfrom sqlite_utils"@ + plugin_init_tail(dep_library, version)
}

/// The text of the `__init__.py` of the Datasette plugin for the base
/// package that is imported as `dep_library`.
pub open spec fn datasette_init_text(dep_library: Seq<char>, version: Seq<char>) -> Seq<char> {
    "\nfrom datasette"@ + plugin_init_tail(dep_library, version)
}

/// Writes `METADATA`.
pub fn dist_info_metadata(name: &str, version: &str) -> (text: String)
    ensures
        text@ == metadata_text(name@, version@),
{
    let mut text = String::from_str("Metadata-Version: 2.1\nName: ");
    text.append(name);
    text.append("\nVersion: ");
    text.append(version);
    text.append(
        "\nHome-page: https://TODO.com\nAuthor: TODO\nLicense: MIT License, Apache License, Version 2.0\nDescription-Content-Type: text/markdown\n\nTODO readme",
    );
    text
}

/// Writes `WHEEL` for a wheel of the given platform, or of any platform.
pub fn dist_info_wheel(platform: Option<(&Os, &Cpu)>) -> (r: Result<String, ConfigurationError>)
    ensures
        match r {
            Ok(text) => match wheel_tag(platform_of(platform)) {
                Some(tag) => text@ == wheel_text(tag),
                None => false,
            },
            Err(e) => wheel_tag(platform_of(platform)).is_none()
                && e == ConfigurationError::UnsupportedPlatform,
        },
{
    let platform_tag = match wheel_target_tag(platform) {
        Ok(tag) => tag,
        Err(e) => {
            return Err(e);
        },
    };
    Ok(wheel_for_tag(platform_tag.as_str()))
}

/// Writes `WHEEL` for a compatibility tag.
pub fn wheel_for_tag(platform_tag: &str) -> (text: String)
    ensures
        text@ == wheel_text(platform_tag@),
{
    let mut text = String::from_str("Wheel-Version: 1.0\nGenerator: ");
    text.append(GENERATOR_NAME);
    text.append(" ");
    text.append(GENERATOR_VERSION);
    text.append("\nRoot-Is-Purelib: false\nTag: py3-none-");
    text.append(platform_tag);
    text
}

/// Writes `top_level.txt`.
pub fn dist_info_top_level_txt(import_name: &str) -> (text: String)
    ensures
        text@ == top_level_text(import_name@),
{
    let mut text = String::from_str(import_name);
    text.append("\n");
    text
}

/// Writes `RECORD` for the files written so far.
pub fn dist_info_record(written_files: &Vec<PipPackageFile>, record_path: &str) -> (text: String)
    ensures
        text@ == record_text(written_files@.map_values(|f: PipPackageFile| f@), record_path@),
{
    let ghost manifest = written_files@.map_values(|f: PipPackageFile| f@);
    let ghost lines = manifest.map_values(|entry: RecordEntry| record_line(entry));
    let mut record = String::new();
    let mut i: usize = 0;
    while i < written_files.len()
        invariant
            i <= written_files.len(),
            manifest == written_files@.map_values(|f: PipPackageFile| f@),
            lines == manifest.map_values(|entry: RecordEntry| record_line(entry)),
            record@ == lines.subrange(0, i as int).flatten(),
        decreases written_files.len() - i,
    {
        let file = &written_files[i];
        record.append(file.path());
        record.append(",sha256=");
        record.append(file.hash());
        record.append(",");
        record.append(decimal_string(file.size() as u64).as_str());
        record.append("\n");
        proof {
            assert(lines.subrange(0, i + 1) =~= lines.subrange(0, i as int).push(lines[i as int]));
            lines.subrange(0, i as int).lemma_flatten_push(lines[i as int]);
        }
        i = i + 1;
    }
    record.append(record_path);
    record.append(",,\n");
    proof {
        assert(lines.subrange(0, i as int) =~= lines);
        lines.lemma_flatten_push(record_closing_line(record_path@));
    }
    record
}

/// Writes the `__init__.py` of a base package.
pub fn base_init_py(version: &str, entrypoint: &str) -> (text: String)
    ensures
        text@ == base_init_text(version@, entrypoint@),
{
    let mut text = String::from_str("\nimport os\nimport sqlite3\n\n__version__ = \"");
    text.append(version);
    text.append(
        "\"\n__version_info__ = tuple(__version__.split(\".\"))\n\ndef loadable_path():\n  loadable_path = os.path.join(os.path.dirname(__file__), \"",
    );
    text.append(entrypoint);
    text.append(
        "\")\n  return os.path.normpath(loadable_path)\n\ndef load(conn: sqlite3.Connection)  -> None:\n  conn.load_extension(loadable_path())\n",
    );
    text
}

/// Adds to `text` what the two plugin initializers share after their first
/// line.
fn append_plugin_init_tail(text: &mut String, dep_library: &str, version: &str)
    ensures
        final(text)@ == old(text)@ + plugin_init_tail(dep_library@, version@),
{
    text.append(" import hookimpl\nimport ");
    text.append(dep_library);
    text.append("\n\n__version__ = \"");
    text.append(version);
    text.append(
        "\"\n__version_info__ = tuple(__version__.split(\".\"))\n\n@hookimpl\ndef prepare_connection(conn):\n  conn.enable_load_extension(True)\n  ",
    );
    text.append(dep_library);
    text.append(".load(conn)\n  conn.enable_load_extension(False)\n");
}

/// Writes the `__init__.py` of the sqlite-utils plugin.
pub fn sqlite_utils_init_py(dep_library: &str, version: &str) -> (text: String)
    ensures
        text@ == sqlite_utils_init_text(dep_library@, version@),
{
    let mut text = String::from_str("\nfrom sqlite_utils");
    append_plugin_init_tail(&mut text, dep_library, version);
    text
}

/// Writes the `__init__.py` of the Datasette plugin.
pub fn datasette_init_py(dep_library: &str, version: &str) -> (text: String)
    ensures
        text@ == datasette_init_text(dep_library@, version@),
{
    let mut text = String::from_str("\nfrom datasette");
    append_plugin_init_tail(&mut text, dep_library, version);
    text
}

} // verus!
