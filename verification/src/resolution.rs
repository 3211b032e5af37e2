//! A resolved package pin and the requirement line that stands for it.

use vstd::prelude::*;
use vstd::string::*;
use crate::extras::{sort_dedup, sorted_unique, texts};
use crate::scheme::{parse_scheme, scheme_kind, split_scheme, split_scheme_spec, SchemeKind};
use crate::text::{starts_with, strip_prefix};

verus! {

/// What a pin is resolved to: a version of a registry, or a source URL.
#[derive(Clone, Debug, PartialEq, Eq)]
pub enum VersionOrUrl {
    /// The version, such as `3.0.3`.
    Version(String),
    /// The URL, letter for letter as the user wrote it.
    Url(String),
}

/// The texts of a [`VersionOrUrl`].
pub enum VersionOrUrlView {
    Version(Seq<char>),
    Url(Seq<char>),
}

impl View for VersionOrUrl {
    type V = VersionOrUrlView;

    open spec fn view(&self) -> VersionOrUrlView {
        match self {
            VersionOrUrl::Version(version) => VersionOrUrlView::Version(version@),
            VersionOrUrl::Url(url) => VersionOrUrlView::Url(url@),
        }
    }
}

/// The distribution that a pin refers to.
#[derive(Clone, Debug, PartialEq, Eq)]
pub struct ResolvedDist {
    /// The package's name.
    pub name: String,
    /// The version or the source URL.
    pub version_or_url: VersionOrUrl,
    /// Whether the distribution was found on the file system, not in a registry.
    pub local: bool,
    /// The whole reference as it was written; it is handed out unchanged.
    pub verbatim: String,
}

/// The texts of a [`ResolvedDist`].
pub struct ResolvedDistView {
    pub name: Seq<char>,
    pub version_or_url: VersionOrUrlView,
    pub local: bool,
    pub verbatim: Seq<char>,
}

impl View for ResolvedDist {
    type V = ResolvedDistView;

    open spec fn view(&self) -> ResolvedDistView {
        ResolvedDistView {
            name: self.name@,
            version_or_url: self.version_or_url@,
            local: self.local,
            verbatim: self.verbatim@,
        }
    }
}

/// The algorithm of a content hash.
#[derive(Clone, Copy, Debug, PartialEq, Eq)]
pub enum HashAlgorithm {
    Md5,
    Sha256,
    Sha384,
    Sha512,
}

/// A content hash of a distribution file.
#[derive(Clone, Debug, PartialEq, Eq)]
pub struct HashDigest {
    pub algorithm: HashAlgorithm,
    pub digest: String,
}

/// The core metadata of a package at one version.
#[derive(Clone, Debug, PartialEq, Eq)]
pub struct Metadata23 {
    pub name: String,
    pub version: String,
    pub requires_dist: Vec<String>,
    pub requires_python: Option<String>,
    pub provides_extras: Vec<String>,
}

/// A pinned package: the distribution it is resolved to, the extras that were
/// asked for, the hashes of its files, and its metadata.
#[derive(Clone, Debug, PartialEq, Eq)]
pub struct AnnotatedDist {
    pub dist: ResolvedDist,
    /// The extras, in any order; one may be listed more than once.
    pub extras: Vec<String>,
    pub hashes: Vec<HashDigest>,
    pub metadata: Metadata23,
}

/// What a requirement line is made from: the distribution and the extras.
pub struct AnnotatedDistView {
    pub dist: ResolvedDistView,
    pub extras: Seq<Seq<char>>,
}

impl View for AnnotatedDist {
    type V = AnnotatedDistView;

    open spec fn view(&self) -> AnnotatedDistView {
        AnnotatedDistView { dist: self.dist@, extras: texts(self.extras@) }
    }
}

/// The items with `sep` between each two of them.
pub open spec fn joined(items: Seq<Seq<char>>, sep: Seq<char>) -> Seq<char>
    decreases items.len(),
{
    if items.len() == 0 {
        Seq::empty()
    } else if items.len() == 1 {
        items[0]
    } else {
        joined(items.drop_last(), sep) + sep + items.last()
    }
}

/// What follows the name in a requirement: `==` and the version, or ` @ `
/// and the URL.
pub open spec fn version_or_url_verbatim(v: VersionOrUrlView) -> Seq<char> {
    match v {
        VersionOrUrlView::Version(version) => "=="@ + version,
        VersionOrUrlView::Url(url) => " @ "@ + url,
    }
}

/// `s` behind `prefix`, where it begins with it.
pub open spec fn stripped(s: Seq<char>, prefix: Seq<char>) -> Option<Seq<char>> {
    if prefix.is_prefix_of(s) {
        Some(s.skip(prefix.len() as int))
    } else {
        None
    }
}

/// Whether what follows `file:` names the host `localhost` and then an
/// absolute path.
pub open spec fn is_localhost_absolute(rest: Seq<char>) -> bool {
    stripped(rest, "//localhost"@) matches Some(path) && "/"@.is_prefix_of(path)
}

/// What the URL of a local pin means for its line.
#[derive(Clone, Copy, Debug, PartialEq, Eq)]
pub enum UrlForm<'a> {
    /// The line is the URL as it was written: it has no scheme, an unknown
    /// one, or is a `file:` URL without authority, such as `file:./flask.whl`.
    AsWritten,
    /// The URL decides nothing, and the pin is rendered like any other: a
    /// scheme other than `file`, the host `localhost` before an absolute
    /// path, or a path that begins with the project root's placeholder.
    LikeAnyPin,
    /// A `file://` URL with this path behind the empty authority. The line
    /// is the path, unless the operating system takes it for rooted.
    BarePath(&'a str),
}

/// A [`UrlForm`], the path as text.
pub enum UrlFormView {
    AsWritten,
    LikeAnyPin,
    BarePath(Seq<char>),
}

impl<'a> View for UrlForm<'a> {
    type V = UrlFormView;

    open spec fn view(&self) -> UrlFormView {
        match self {
            UrlForm::AsWritten => UrlFormView::AsWritten,
            UrlForm::LikeAnyPin => UrlFormView::LikeAnyPin,
            UrlForm::BarePath(path) => UrlFormView::BarePath(path@),
        }
    }
}

/// The form of a URL, by its scheme and by what follows the scheme.
pub open spec fn url_form(given: Seq<char>) -> UrlFormView {
    match split_scheme_spec(given) {
        None => UrlFormView::AsWritten,
        Some((scheme, rest)) => match scheme_kind(scheme) {
            None => UrlFormView::AsWritten,
            Some(SchemeKind::Other) => UrlFormView::LikeAnyPin,
            Some(SchemeKind::File) => {
                if is_localhost_absolute(rest) {
                    UrlFormView::LikeAnyPin
                } else {
                    match stripped(rest, "//"@) {
                        Some(path) => if "${PROJECT_ROOT}"@.is_prefix_of(path) {
                            UrlFormView::LikeAnyPin
                        } else {
                            UrlFormView::BarePath(path)
                        },
                        None => UrlFormView::AsWritten,
                    }
                }
            },
        },
    }
}

/// The line that the URL of a local pin decides by itself, if it decides
/// it. `rooted` says whether the operating system takes the bare path for
/// rooted, and is read for no other form.
pub open spec fn local_url_line(given: Seq<char>, rooted: bool) -> Option<Seq<char>> {
    match url_form(given) {
        UrlFormView::AsWritten => Some(given),
        UrlFormView::LikeAnyPin => None,
        UrlFormView::BarePath(path) => if rooted {
            None
        } else {
            Some(path)
        },
    }
}

/// The path on whose rootedness the line of a pin depends, if it depends on
/// one: the bare path of the URL of a local pin.
pub open spec fn decisive_path(pin: AnnotatedDistView) -> Option<Seq<char>> {
    match pin.dist.version_or_url {
        VersionOrUrlView::Url(given) if pin.dist.local => match url_form(given) {
            UrlFormView::BarePath(path) => Some(path),
            _ => None,
        },
        _ => None,
    }
}

/// The line of a pin whose URL, if it has one, decides nothing: the
/// reference as written, or, where extras are to be shown and there are any,
/// the name, the extras in brackets, sorted and each once, and the version
/// or URL.
pub open spec fn generic_line(pin: AnnotatedDistView, include_extras: bool) -> Seq<char> {
    if pin.extras.len() == 0 || !include_extras {
        pin.dist.verbatim
    } else {
        pin.dist.name + "["@ + joined(sorted_unique(pin.extras), ", "@) + "]"@
            + version_or_url_verbatim(pin.dist.version_or_url)
    }
}

/// The requirement line of a pin, given whether the operating system takes
/// the bare path of its URL for rooted.
pub open spec fn requirement_line(pin: AnnotatedDistView, include_extras: bool, rooted: bool) -> Seq<
    char,
> {
    match pin.dist.version_or_url {
        VersionOrUrlView::Url(given) if pin.dist.local => match local_url_line(given, rooted) {
            Some(line) => line,
            None => generic_line(pin, include_extras),
        },
        _ => generic_line(pin, include_extras),
    }
}

/// Calls `itertools::Itertools::join` on the strings of `items`. Trusted:
/// the result is the items in their order with `sep` between each two, and
/// the empty string for no items.
#[verifier::external_body]
pub(crate) fn join(items: &Vec<String>, sep: &str) -> (r: String)
    ensures
        r@ == joined(texts(items@), sep@),
{
    itertools::Itertools::join(&mut items.iter(), sep)
}

/// Calls `std::path::Path::has_root`. Trusted: the answer is the platform's,
/// so only what holds on each is stated: a path that begins with `/` has a
/// root, the empty path has none.
#[verifier::external_body]
pub(crate) fn path_has_root(path: &str) -> (rooted: bool)
    ensures
        "/"@.is_prefix_of(path@) ==> rooted,
        path@.len() == 0 ==> !rooted,
{
    std::path::Path::new(path).has_root()
}

fn localhost_absolute(rest: &str) -> (r: bool)
    ensures
        r == is_localhost_absolute(rest@),
{
    match strip_prefix(rest, "//localhost") {
        Some(path) => starts_with(path, "/"),
        None => false,
    }
}

/// Finds the form of a URL.
pub fn classify_url<'a>(given: &'a str) -> (form: UrlForm<'a>)
    ensures
        form@ == url_form(given@),
{
    match split_scheme(given) {
        None => UrlForm::AsWritten,
        Some((scheme, rest)) => {
            match parse_scheme(scheme) {
                None => UrlForm::AsWritten,
                Some(SchemeKind::Other) => UrlForm::LikeAnyPin,
                Some(SchemeKind::File) => {
                    if localhost_absolute(rest) {
                        UrlForm::LikeAnyPin
                    } else {
                        match strip_prefix(rest, "//") {
                            Some(path) => {
                                if starts_with(path, "${PROJECT_ROOT}") {
                                    UrlForm::LikeAnyPin
                                } else {
                                    UrlForm::BarePath(path)
                                }
                            },
                            None => UrlForm::AsWritten,
                        }
                    }
                },
            }
        },
    }
}

impl VersionOrUrl {
    /// What follows the name in a requirement.
    pub fn verbatim(&self) -> (r: String)
        ensures
            r@ == version_or_url_verbatim(self@),
    {
        match self {
            VersionOrUrl::Version(version) => String::from_str("==").concat(version.as_str()),
            VersionOrUrl::Url(url) => String::from_str(" @ ").concat(url.as_str()),
        }
    }
}

impl AnnotatedDist {
    /// The package's name.
    pub fn name(&self) -> (r: &String)
        ensures
            r@ == self@.dist.name,
    {
        &self.dist.name
    }

    /// The version or source URL that the pin is resolved to.
    pub fn version_or_url(&self) -> (r: &VersionOrUrl)
        ensures
            r@ == self@.dist.version_or_url,
    {
        &self.dist.version_or_url
    }

    /// The pin as shown to a reader: the name, then the version or URL.
    pub fn display(&self) -> (r: String)
        ensures
            r@ == self@.dist.name + version_or_url_verbatim(self@.dist.version_or_url),
    {
        let tail = self.dist.version_or_url.verbatim();
        self.dist.name.clone().concat(tail.as_str())
    }

    fn generic(&self, include_extras: bool) -> (r: String)
        ensures
            r@ == generic_line(self@, include_extras),
    {
        if self.extras.len() == 0 || !include_extras {
            self.dist.verbatim.clone()
        } else {
            let extras = sort_dedup(&self.extras);
            let list = join(&extras, ", ");
            let tail = self.dist.version_or_url.verbatim();
            let mut line = self.dist.name.clone();
            line.append("[");
            line.append(list.as_str());
            line.append("]");
            line.append(tail.as_str());
            line
        }
    }

    /// The form of the URL, where the pin is local and has one.
    fn url_form(&self) -> (r: Option<(&String, UrlForm<'_>)>)
        ensures
            match r {
                Some((given, form)) => self@.dist.local && self@.dist.version_or_url
                    == VersionOrUrlView::Url(given@) && form@ == url_form(given@),
                None => !(self@.dist.local && self@.dist.version_or_url is Url),
            },
    {
        if self.dist.local {
            if let VersionOrUrl::Url(given) = &self.dist.version_or_url {
                return Some((given, classify_url(given.as_str())));
            }
        }
        None
    }

    /// The requirement line, given the operating system's answer on the bare
    /// path of the URL. The answer is read only where [`decisive_path`] is
    /// `Some`.
    pub fn render(&self, include_extras: bool, rooted: bool) -> (r: String)
        ensures
            r@ == requirement_line(self@, include_extras, rooted),
    {
        match self.url_form() {
            Some((given, UrlForm::AsWritten)) => given.clone(),
            Some((_, UrlForm::BarePath(path))) if !rooted => path.to_owned(),
            _ => self.generic(include_extras),
        }
    }

    /// The pin as one line of a requirements file, without a line end.
    ///
    /// A local pin whose URL has no scheme or an unknown one, or is a `file:`
    /// URL without authority, is written as its URL stands. A `file://` URL
    /// whose path the operating system does not take for rooted is written
    /// as that bare path. Every other pin is written as its reference
    /// stands, or with its extras in brackets between name and version.
    ///
    /// Whether a path is rooted is the platform's to say. What is sure is
    /// stated: a path that begins with `/` is rooted, the empty one is not.
    pub fn to_requirements_txt(&self, include_extras: bool) -> (r: String)
        ensures
            r@ == requirement_line(self@, include_extras, true) || r@ == requirement_line(
                self@,
                include_extras,
                false,
            ),
            decisive_path(self@) matches Some(path) && "/"@.is_prefix_of(path) ==> r@
                == requirement_line(self@, include_extras, true),
            decisive_path(self@) matches Some(path) && path.len() == 0 ==> r@ == requirement_line(
                self@,
                include_extras,
                false,
            ),
            decisive_path(self@) is None ==> r@ == requirement_line(self@, include_extras, false),
    {
        let rooted = match self.url_form() {
            Some((_, UrlForm::BarePath(path))) => path_has_root(path),
            _ => false,
        };
        self.render(include_extras, rooted)
    }
}

} // verus!
