//! Splitting a URL into its scheme and the rest, and telling the schemes apart.

use vstd::prelude::*;

verus! {

/// A C0 control character or a space: what is trimmed from both ends of a URL.
pub open spec fn is_c0_or_space(c: char) -> bool {
    c <= ' '
}

/// `s` without its leading C0 control characters and spaces.
pub open spec fn trim_start(s: Seq<char>) -> Seq<char>
    decreases s.len(),
{
    if s.len() > 0 && is_c0_or_space(s.first()) {
        trim_start(s.drop_first())
    } else {
        s
    }
}

/// `s` without its trailing C0 control characters and spaces.
pub open spec fn trim_end(s: Seq<char>) -> Seq<char>
    decreases s.len(),
{
    if s.len() > 0 && is_c0_or_space(s.last()) {
        trim_end(s.drop_last())
    } else {
        s
    }
}

/// An ASCII letter.
pub open spec fn is_ascii_alpha(c: char) -> bool {
    ('a' <= c && c <= 'z') || ('A' <= c && c <= 'Z')
}

/// A character that may stand in a scheme: an ASCII letter or digit, `+`, `-` or `.`.
pub open spec fn is_scheme_char(c: char) -> bool {
    is_ascii_alpha(c) || ('0' <= c && c <= '9') || c == '+' || c == '-' || c == '.'
}

/// How many scheme characters `s` begins with.
pub open spec fn scheme_run(s: Seq<char>) -> nat
    decreases s.len(),
{
    if s.len() > 0 && is_scheme_char(s.first()) {
        1 + scheme_run(s.drop_first())
    } else {
        0
    }
}

/// The scheme of a URL and what follows its colon.
///
/// The text is trimmed first. It has a scheme when it begins with an ASCII
/// letter and the first character that cannot stand in a scheme is a colon.
pub open spec fn split_scheme_spec(s: Seq<char>) -> Option<(Seq<char>, Seq<char>)> {
    let t = trim_end(trim_start(s));
    let n = scheme_run(t) as int;
    if t.len() > 0 && is_ascii_alpha(t.first()) && n < t.len() && t[n] == ':' {
        Some((t.subrange(0, n), t.subrange(n + 1, t.len() as int)))
    } else {
        None
    }
}

/// What the rendering of a pin tells apart among the URL schemes.
#[derive(Clone, Copy, Debug, PartialEq, Eq)]
pub enum SchemeKind {
    /// `file`
    File,
    /// Any other scheme of a direct reference: `http`, `https`, and the
    /// transports of `git`, `bzr`, `hg` and `svn`.
    Other,
}

/// The schemes of direct references besides `file`.
pub open spec fn is_other_scheme(s: Seq<char>) -> bool {
    ||| s == "git+git"@
    ||| s == "git+http"@
    ||| s == "git+file"@
    ||| s == "git+ssh"@
    ||| s == "git+https"@
    ||| s == "bzr+http"@
    ||| s == "bzr+https"@
    ||| s == "bzr+ssh"@
    ||| s == "bzr+sftp"@
    ||| s == "bzr+ftp"@
    ||| s == "bzr+lp"@
    ||| s == "bzr+file"@
    ||| s == "hg+file"@
    ||| s == "hg+http"@
    ||| s == "hg+https"@
    ||| s == "hg+ssh"@
    ||| s == "hg+static-http"@
    ||| s == "svn+ssh"@
    ||| s == "svn+http"@
    ||| s == "svn+https"@
    ||| s == "svn+svn"@
    ||| s == "svn+file"@
    ||| s == "http"@
    ||| s == "https"@
}

/// The kind of a scheme, where it is one of a direct reference.
pub open spec fn scheme_kind(s: Seq<char>) -> Option<SchemeKind> {
    if s == "file"@ {
        Some(SchemeKind::File)
    } else if is_other_scheme(s) {
        Some(SchemeKind::Other)
    } else {
        None
    }
}

/// Calls `pep508_rs::split_scheme`. Trusted: the result is stated by
/// [`split_scheme_spec`], which follows that function's source: it trims C0
/// control characters and spaces, wants an ASCII letter first, and cuts at
/// the colon that ends the run of scheme characters.
#[verifier::external_body]
pub(crate) fn split_scheme<'a>(s: &'a str) -> (r: Option<(&'a str, &'a str)>)
    ensures
        r is Some <==> split_scheme_spec(s@) is Some,
        r matches Some(parts) ==> split_scheme_spec(s@) == Some((parts.0@, parts.1@)),
{
    pep508_rs::split_scheme(s)
}

/// Calls `pep508_rs::Scheme::parse`. Trusted: the names it knows are `file`
/// and those of [`is_other_scheme`], each matched letter for letter.
#[verifier::external_body]
pub(crate) fn parse_scheme(scheme: &str) -> (r: Option<SchemeKind>)
    ensures
        r == scheme_kind(scheme@),
{
    match pep508_rs::Scheme::parse(scheme) {
        Some(pep508_rs::Scheme::File) => Some(SchemeKind::File),
        Some(_) => Some(SchemeKind::Other),
        None => None,
    }
}

} // verus!
