//! The data-model corner of the package-publishing workflow: the prepared
//! package's display name, the permission descriptor sent when requesting
//! authorization, and the check for a license file among a package's
//! published specifiers. The workflow around these — graphs, tarballs,
//! registry traffic — is an external collaborator and stays outside.

use vstd::prelude::*;
use vstd::string::StrSliceExecFns;
use vstd::string::StringExecFns;

verus! {

/// A package prepared for publishing, reduced to the plain values the
/// rules here read: its coordinates, its configuration file name, and its
/// export mapping.
#[derive(Debug, Clone, PartialEq, Eq)]
pub struct PreparedPublishPackage {
    pub scope: String,
    pub package: String,
    pub version: String,
    pub config: String,
    pub exports: Vec<(String, String)>,
}

impl PreparedPublishPackage {
    /// The name a package is shown under: `@scope/package@version`.
    pub fn display_name(&self) -> (r: String)
        ensures
            r@ == "@"@ + self.scope@ + "/"@ + self.package@ + "@"@ + self.version@,
    {
        let mut out = String::from_str("@");
        out.append(self.scope.as_str());
        out.append("/");
        out.append(self.package.as_str());
        out.append("@");
        out.append(self.version.as_str());
        out
    }
}

/// A permission the publish flow asks the registry to grant.
#[derive(Debug, Clone, PartialEq, Eq)]
pub enum Permission {
    /// Permission to publish one version of one package, pinned to the
    /// exact tarball by its hash.
    VersionPublish { scope: String, package: String, version: String, tarball_hash: String },
}

/// The code point of `c` with an upper-case ASCII letter folded to lower
/// case; other characters are untouched.
pub open spec fn ascii_lower(c: char) -> u32 {
    if 65 <= c as u32 && c as u32 <= 90 {
        (c as u32 + 32) as u32
    } else {
        c as u32
    }
}

/// Character-wise equality up to ASCII letter case.
pub open spec fn seq_eq_ignore_ascii_case(a: Seq<char>, b: Seq<char>) -> bool {
    a.len() == b.len() && (forall|i: int|
        0 <= i < a.len() ==> ascii_lower(a[i]) == ascii_lower(#[trigger] b[i]))
}

/// Whether `name` is one of the recognized license file names, compared
/// without regard to ASCII letter case.
pub open spec fn is_license_file_name(name: Seq<char>) -> bool {
    ||| seq_eq_ignore_ascii_case(name, "license"@)
    ||| seq_eq_ignore_ascii_case(name, "license.md"@)
    ||| seq_eq_ignore_ascii_case(name, "license.txt"@)
    ||| seq_eq_ignore_ascii_case(name, "licence"@)
    ||| seq_eq_ignore_ascii_case(name, "licence.md"@)
    ||| seq_eq_ignore_ascii_case(name, "licence.txt"@)
}

/// Whether the final segment of `path` — what follows its last slash — is a
/// recognized license file name. A path without a slash names no file.
pub open spec fn path_names_license_file(path: Seq<char>) -> bool {
    exists|i: int|
        0 <= i < path.len() && path[i] == '/' && (forall|j: int|
            i < j < path.len() ==> path[j] != '/') && is_license_file_name(
            path.subrange(i + 1, path.len() as int),
        )
}

fn ascii_lower_exec(c: char) -> (r: u32)
    ensures
        r == ascii_lower(c),
{
    let u = c as u32;
    if 65 <= u && u <= 90 {
        u + 32
    } else {
        u
    }
}

/// Compares two strings for equality up to ASCII letter case.
pub fn str_eq_ignore_ascii_case(a: &str, b: &str) -> (r: bool)
    ensures
        r == seq_eq_ignore_ascii_case(a@, b@),
{
    let n = a.unicode_len();
    let m = b.unicode_len();
    if n != m {
        return false;
    }
    let mut i: usize = 0;
    while i < n
        invariant
            0 <= i <= n,
            n as nat == a@.len(),
            n as nat == b@.len(),
            forall|k: int| 0 <= k < i ==> ascii_lower(a@[k]) == ascii_lower(#[trigger] b@[k]),
        decreases n - i,
    {
        let ca = ascii_lower_exec(a.get_char(i));
        let cb = ascii_lower_exec(b.get_char(i));
        if ca != cb {
            return false;
        }
        i += 1;
    }
    true
}

fn is_license_file_name_exec(name: &str) -> (r: bool)
    ensures
        r == is_license_file_name(name@),
{
    str_eq_ignore_ascii_case(name, "license") || str_eq_ignore_ascii_case(name, "license.md")
        || str_eq_ignore_ascii_case(name, "license.txt") || str_eq_ignore_ascii_case(
        name,
        "licence",
    ) || str_eq_ignore_ascii_case(name, "licence.md") || str_eq_ignore_ascii_case(
        name,
        "licence.txt",
    )
}

fn last_slash_index(path: &str) -> (r: Option<usize>)
    ensures
        match r {
            Some(i) => i < path@.len() && path@[i as int] == '/' && (forall|j: int|
                i < j < path@.len() ==> path@[j] != '/'),
            None => forall|j: int| 0 <= j < path@.len() ==> path@[j] != '/',
        },
{
    let len = path.unicode_len();
    let mut k: usize = len;
    while k > 0
        invariant
            k <= len,
            len as nat == path@.len(),
            forall|j: int| k <= j < len ==> path@[j] != '/',
        decreases k,
    {
        if path.get_char(k - 1) == '/' {
            return Some(k - 1);
        }
        k = k - 1;
    }
    None
}

/// Whether the file this specifier path ends in is a recognized license
/// file name.
pub fn path_has_license_file_name(path: &str) -> (r: bool)
    ensures
        r == path_names_license_file(path@),
{
    match last_slash_index(path) {
        None => false,
        Some(i) => {
            let len = path.unicode_len();
            let segment = path.substring_char(i + 1, len);
            let r = is_license_file_name_exec(segment);
            proof {
                if r {
                    assert(path_names_license_file(path@));
                } else {
                    assert forall|i2: int|
                        0 <= i2 < path@.len() && path@[i2] == '/' && (forall|j: int|
                            i2 < j < path@.len() ==> path@[j] != '/') implies !is_license_file_name(
                        path@.subrange(i2 + 1, path@.len() as int),
                    ) by {
                        assert(i2 == i as int);
                    }
                }
            }
            r
        },
    }
}

/// Whether any of the given specifier paths points at a license file.
pub fn has_license_file(specifier_paths: &Vec<String>) -> (r: bool)
    ensures
        r == exists|i: int|
            0 <= i < specifier_paths@.len() && path_names_license_file(
                #[trigger] specifier_paths@[i]@,
            ),
{
    let n = specifier_paths.len();
    let mut i: usize = 0;
    while i < n
        invariant
            0 <= i <= n,
            n == specifier_paths@.len(),
            forall|k: int|
                0 <= k < i ==> !path_names_license_file(#[trigger] specifier_paths@[k]@),
        decreases n - i,
    {
        if path_has_license_file_name(specifier_paths[i].as_str()) {
            return true;
        }
        i += 1;
    }
    false
}

} // verus!
