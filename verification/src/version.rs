//! Semantic versions, and how a wheel spells them.

use vstd::prelude::*;
use crate::error::ConfigurationError;
use crate::text::{
    decimal, decimal_string, find_char, first_index, lemma_decimal, lemma_first_index, same_text,
    split_once,
};

verus! {

/// A semantic version. `pre` and `build` are empty where the version has
/// no pre-release or no build metadata. What else a semantic version asks
/// of them is [`VersionView::wf`]; the functions here take any text.
#[derive(Clone, Debug)]
pub struct Version {
    pub major: u64,
    pub minor: u64,
    pub patch: u64,
    pub pre: String,
    pub build: String,
}

/// What a [`Version`] holds.
pub struct VersionView {
    pub major: nat,
    pub minor: nat,
    pub patch: nat,
    pub pre: Seq<char>,
    pub build: Seq<char>,
}

impl View for Version {
    type V = VersionView;

    open spec fn view(&self) -> VersionView {
        VersionView {
            major: self.major as nat,
            minor: self.minor as nat,
            patch: self.patch as nat,
            pre: self.pre@,
            build: self.build@,
        }
    }
}

/// Whether `c` may stand in an identifier of a semantic version: an ASCII
/// letter, a digit or `-`.
pub open spec fn is_identifier_char(c: char) -> bool {
    ||| 'A' <= c <= 'Z'
    ||| 'a' <= c <= 'z'
    ||| '0' <= c <= '9'
    ||| c == '-'
}

/// Whether `text` holds nothing but identifier characters and dots.
pub open spec fn is_dotted_text(text: Seq<char>) -> bool {
    forall|i: int|
        0 <= i < text.len() ==> is_identifier_char(#[trigger] text[i]) || text[i] == '.'
}

/// Whether `text` is made of identifiers parted by dots, none of them
/// empty.
pub open spec fn is_dotted_identifiers(text: Seq<char>) -> bool {
    &&& text.len() > 0
    &&& is_dotted_text(text)
    &&& text[0] != '.'
    &&& text[text.len() - 1] != '.'
    &&& forall|i: int| 0 <= i < text.len() - 1 ==> !(#[trigger] text[i] == '.' && text[i + 1] == '.')
}

impl VersionView {
    /// What a semantic version gives of its texts: pre-release and build
    /// metadata, where there are any, are identifiers parted by dots. That
    /// a number in a pre-release has no leading zero is not part of this.
    pub open spec fn wf(self) -> bool {
        &&& self.pre.len() == 0 || is_dotted_identifiers(self.pre)
        &&& self.build.len() == 0 || is_dotted_identifiers(self.build)
    }
}

/// `major.minor.patch` in decimal.
pub open spec fn plain_version(major: nat, minor: nat, patch: nat) -> Seq<char> {
    decimal(major) + "."@ + decimal(minor) + "."@ + decimal(patch)
}

/// The letters a wheel version uses for a kind of pre-release.
pub open spec fn prerelease_code(kind: Seq<char>) -> Option<Seq<char>> {
    if kind == "alpha"@ {
        Some("a"@)
    } else if kind == "beta"@ {
        Some("b"@)
    } else if kind == "rc"@ {
        Some("rc"@)
    } else {
        None
    }
}

/// The version string of a wheel.
///
/// Without a pre-release it is `major.minor.patch`. Build metadata has no
/// part in it: a wheel version has a place for it, the local version, but
/// nothing is written there yet. A pre-release `kind.N` adds the code of
/// `kind` and `N`, where `N` is all that follows the first `.`. Any other
/// pre-release, and a pre-release together with build metadata, is an
/// error.
pub open spec fn pip_version(v: VersionView) -> Result<Seq<char>, ConfigurationError> {
    let plain = plain_version(v.major, v.minor, v.patch);
    if v.pre.len() == 0 {
        Ok(plain)
    } else if v.build.len() > 0 {
        Err(ConfigurationError::PrereleaseWithBuildMetadata)
    } else {
        match split_once(v.pre, '.') {
            None => Err(ConfigurationError::UnsupportedPrerelease),
            Some((kind, number)) => match prerelease_code(kind) {
                Some(code) => Ok(plain + code + number),
                None => Err(ConfigurationError::UnsupportedPrerelease),
            },
        }
    }
}

/// A version without pre-release and without build metadata is spelled
/// `major.minor.patch`.
pub proof fn lemma_release_is_plain(v: VersionView)
    requires
        v.pre.len() == 0,
        v.build.len() == 0,
    ensures
        pip_version(v) == Ok::<Seq<char>, ConfigurationError>(
            decimal(v.major) + seq!['.'] + decimal(v.minor) + seq!['.'] + decimal(v.patch),
        ),
{
    reveal_strlit(".");
    assert("."@ =~= seq!['.']);
}

/// Build metadata alone leaves the version string as it is without it.
pub proof fn lemma_build_metadata_is_dropped(v: VersionView)
    requires
        v.pre.len() == 0,
    ensures
        pip_version(v) == pip_version(VersionView { build: Seq::empty(), ..v }),
{
}

/// The pre-releases `alpha.3`, `beta.1` and `rc.2` add `a3`, `b1` and `rc2`
/// to `major.minor.patch`.
pub proof fn lemma_prerelease_examples(major: nat, minor: nat, patch: nat)
    ensures
        pip_version(
            VersionView { major, minor, patch, pre: "alpha.3"@, build: Seq::empty() },
        ) == Ok::<Seq<char>, ConfigurationError>(plain_version(major, minor, patch) + "a3"@),
        pip_version(
            VersionView { major, minor, patch, pre: "beta.1"@, build: Seq::empty() },
        ) == Ok::<Seq<char>, ConfigurationError>(plain_version(major, minor, patch) + "b1"@),
        pip_version(
            VersionView { major, minor, patch, pre: "rc.2"@, build: Seq::empty() },
        ) == Ok::<Seq<char>, ConfigurationError>(plain_version(major, minor, patch) + "rc2"@),
{
    reveal_strlit("alpha.3");
    reveal_strlit("beta.1");
    reveal_strlit("rc.2");
    reveal_strlit("alpha");
    reveal_strlit("beta");
    reveal_strlit("rc");
    reveal_strlit("a");
    reveal_strlit("b");
    reveal_strlit("a3");
    reveal_strlit("b1");
    reveal_strlit("rc2");
    let plain = plain_version(major, minor, patch);
    lemma_first_index("alpha.3"@, '.', 5);
    assert("alpha.3"@.subrange(0, 5) =~= "alpha"@);
    assert(plain + "a"@ + "alpha.3"@.subrange(6, 7) =~= plain + "a3"@);
    lemma_first_index("beta.1"@, '.', 4);
    assert("beta.1"@.subrange(0, 4) =~= "beta"@);
    assert(plain + "b"@ + "beta.1"@.subrange(5, 6) =~= plain + "b1"@);
    lemma_first_index("rc.2"@, '.', 2);
    assert("rc.2"@.subrange(0, 2) =~= "rc"@);
    assert(plain + "rc"@ + "rc.2"@.subrange(3, 4) =~= plain + "rc2"@);
}

/// A version with both a pre-release and build metadata has no version
/// string.
pub proof fn lemma_prerelease_with_build_fails(v: VersionView)
    requires
        v.pre.len() > 0,
        v.build.len() > 0,
    ensures
        pip_version(v) == Err::<Seq<char>, ConfigurationError>(
            ConfigurationError::PrereleaseWithBuildMetadata,
        ),
{
}

/// The version string of a semantic version holds nothing but identifier
/// characters and dots, is longer than `major.minor.patch` where there is a
/// pre-release, and does not end in a dot.
pub proof fn lemma_version_string_chars(v: VersionView)
    requires
        v.wf(),
        pip_version(v) is Ok,
    ensures
        is_dotted_text(pip_version(v).unwrap()),
        pip_version(v).unwrap().last() != '.',
        v.pre.len() > 0 ==> pip_version(v).unwrap().len() > plain_version(
            v.major,
            v.minor,
            v.patch,
        ).len() + 1,
{
    reveal_strlit(".");
    reveal_strlit("alpha");
    reveal_strlit("beta");
    reveal_strlit("rc");
    reveal_strlit("a");
    reveal_strlit("b");
    lemma_decimal(v.major);
    lemma_decimal(v.minor);
    lemma_decimal(v.patch);
    if v.pre.len() > 0 {
        lemma_first_index_is_first(v.pre, '.');
        let dot = first_index(v.pre, '.');
        assert(is_dotted_text(v.pre.subrange(dot + 1, v.pre.len() as int)));
    }
}

/// `first_index` is within the text where the text holds the character, and
/// is at the character.
proof fn lemma_first_index_is_first(s: Seq<char>, c: char)
    ensures
        0 <= first_index(s, c) <= s.len(),
        first_index(s, c) < s.len() ==> s[first_index(s, c)] == c,
    decreases s.len(),
{
    if s.len() > 0 && s[0] != c {
        lemma_first_index_is_first(s.drop_first(), c);
    }
}

/// A pre-release without a `.` has no version string.
pub proof fn lemma_prerelease_without_dot_fails(v: VersionView)
    requires
        v.pre.len() > 0,
        !v.pre.contains('.'),
    ensures
        pip_version(v) is Err,
{
    if v.build.len() == 0 {
        lemma_first_index(v.pre, '.', v.pre.len() as int);
    }
}

/// Writes `major.minor.patch`.
pub fn plain_version_string(major: u64, minor: u64, patch: u64) -> (s: String)
    ensures
        s@ == plain_version(major as nat, minor as nat, patch as nat),
{
    let mut s = decimal_string(major);
    s.append(".");
    s.append(decimal_string(minor).as_str());
    s.append(".");
    s.append(decimal_string(patch).as_str());
    s
}

/// Turns a semantic version into the version string of a wheel.
pub fn semver_to_pip_version(v: &Version) -> (r: Result<String, ConfigurationError>)
    ensures
        match r {
            Ok(s) => pip_version(v@) == Ok::<Seq<char>, ConfigurationError>(s@),
            Err(e) => pip_version(v@) == Err::<Seq<char>, ConfigurationError>(e),
        },
{
    let mut s = plain_version_string(v.major, v.minor, v.patch);
    let pre = v.pre.as_str();
    if pre.unicode_len() == 0 {
        return Ok(s);
    }
    if v.build.as_str().unicode_len() > 0 {
        return Err(ConfigurationError::PrereleaseWithBuildMetadata);
    }
    let dot = match find_char(pre, '.') {
        Some(i) => i,
        None => {
            return Err(ConfigurationError::UnsupportedPrerelease);
        },
    };
    let kind = pre.substring_char(0, dot);
    let number = pre.substring_char(dot + 1, pre.unicode_len());
    let code = if same_text(kind, "alpha") {
        "a"
    } else if same_text(kind, "beta") {
        "b"
    } else if same_text(kind, "rc") {
        "rc"
    } else {
        return Err(ConfigurationError::UnsupportedPrerelease);
    };
    s.append(code);
    s.append(number);
    Ok(s)
}

} // verus!
