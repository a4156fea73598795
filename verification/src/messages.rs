//! The launcher's diagnostic texts: the version-mismatch warning, the
//! locale-setup warning, and the fatal import diagnostic.
//!
//! Each builder's contract pins the produced text exactly, character for
//! character, as the launcher writes it to the error stream.

use vstd::prelude::*;
use vstd::string::*;
use crate::decimal::{decimal, decimal_string};
use crate::version::NativeVersion;

verus! {

/// `needle` occurs contiguously somewhere inside `haystack`.
pub open spec fn contains_seq(haystack: Seq<char>, needle: Seq<char>) -> bool {
    exists|i: int|
        0 <= i && i + needle.len() <= haystack.len() && #[trigger] haystack.subrange(
            i,
            i + needle.len(),
        ) == needle
}

/// The launcher's own version rendered as `major.minor.patch`.
pub open spec fn native_version_text(native: NativeVersion) -> Seq<char> {
    decimal(native.major as nat) + "."@ + decimal(native.minor as nat) + "."@ + decimal(
        native.patch as nat,
    )
}

/// Renders the launcher's version as `major.minor.patch`.
pub fn native_version_string(native: &NativeVersion) -> (r: String)
    ensures
        r@ == native_version_text(*native),
{
    let mut r = decimal_string(native.major);
    r.append(".");
    let minor = decimal_string(native.minor);
    r.append(minor.as_str());
    r.append(".");
    let patch = decimal_string(native.patch);
    r.append(patch.as_str());
    proof {
        assert(r@ =~= native_version_text(*native));
    }
    r
}

/// Opening of the version-mismatch warning, up to the hosted version.
pub open spec fn version_warning_head() -> Seq<char> {
    "brz: WARNING: breezy version doesn't match the brz program.\n  This may indicate an installation problem.\n  breezy version is "@
}

/// Middle of the version-mismatch warning, up to the launcher's version.
pub open spec fn version_warning_mid() -> Seq<char> {
    "\n  brz version is "@
}

/// The full version-mismatch warning, as written to the error stream: it
/// quotes the hosted application's display string and the launcher's own
/// `major.minor.patch`.
pub open spec fn version_warning_text(hosted_display: Seq<char>, native: NativeVersion) -> Seq<
    char,
> {
    version_warning_head() + hosted_display + version_warning_mid() + native_version_text(native)
        + "\n\n"@
}

/// Builds the version-mismatch warning around the hosted application's own
/// rendering of its version.
pub fn version_warning(native: &NativeVersion, hosted_display: &String) -> (r: String)
    ensures
        r@ == version_warning_text(hosted_display@, *native),
{
    let mut r = String::from_str(
        "brz: WARNING: breezy version doesn't match the brz program.\n  This may indicate an installation problem.\n  breezy version is ",
    );
    r.append(hosted_display.as_str());
    r.append("\n  brz version is ");
    let native_text = native_version_string(native);
    r.append(native_text.as_str());
    r.append("\n\n");
    proof {
        assert(r@ =~= version_warning_text(hosted_display@, *native));
    }
    r
}

/// The version-mismatch warning always quotes both versions: the hosted
/// application's display string and the launcher's `major.minor.patch`.
pub proof fn lemma_version_warning_mentions_both(hosted_display: Seq<char>, native: NativeVersion)
    ensures
        contains_seq(version_warning_text(hosted_display, native), hosted_display),
        contains_seq(version_warning_text(hosted_display, native), native_version_text(native)),
{
    let w = version_warning_text(hosted_display, native);
    let i: int = version_warning_head().len() as int;
    assert(w.subrange(i, i + hosted_display.len()) =~= hosted_display);
    let j: int = i + hosted_display.len() + version_warning_mid().len();
    assert(w.subrange(j, j + native_version_text(native).len()) =~= native_version_text(native));
}

/// Opening of the locale warning, up to the underlying error's text.
pub open spec fn locale_warning_head() -> Seq<char> {
    "brz: WARNING: "@
}

/// Remainder of the locale warning after the underlying error's text.
pub open spec fn locale_warning_tail() -> Seq<char> {
    "\n  Could not set the application locale.\n  Although this should be no problem for bzr itself, it might\n  cause problems with some plugins. To investigate the issue,\n  look at the output of the locale(1p) tool.\n\n"@
}

/// The full locale warning, as written to the error stream; `error` is the
/// text of the failure the locale call reported.
pub open spec fn locale_warning_text(error: Seq<char>) -> Seq<char> {
    locale_warning_head() + error + locale_warning_tail()
}

/// Builds the warning for a failed locale setup around the reported error.
pub fn locale_warning(error: &String) -> (r: String)
    ensures
        r@ == locale_warning_text(error@),
{
    let mut r = String::from_str("brz: WARNING: ");
    r.append(error.as_str());
    r.append(
        "\n  Could not set the application locale.\n  Although this should be no problem for bzr itself, it might\n  cause problems with some plugins. To investigate the issue,\n  look at the output of the locale(1p) tool.\n\n",
    );
    proof {
        assert(r@ =~= locale_warning_text(error@));
    }
    r
}

/// The fatal diagnostic for a hosted application that cannot be imported.
pub open spec fn import_failure_text() -> Seq<char> {
    "brz: ERROR: Couldn't import breezy and dependencies.\nPlease check the directory containing breezy is on your PYTHONPATH.\n\n"@
}

/// Builds the fatal diagnostic for a hosted application that cannot be
/// imported: the hosted modules' location is not discoverable.
pub fn import_failure_message() -> (r: String)
    ensures
        r@ == import_failure_text(),
{
    String::from_str(
        "brz: ERROR: Couldn't import breezy and dependencies.\nPlease check the directory containing breezy is on your PYTHONPATH.\n\n",
    )
}

} // verus!
