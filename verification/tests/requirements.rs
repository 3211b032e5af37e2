use uv_core::resolution::{
    classify_url, AnnotatedDist, HashAlgorithm, HashDigest, Metadata23, ResolvedDist, UrlForm, VersionOrUrl,
};

fn metadata(name: &str, version: &str) -> Metadata23 {
    Metadata23 {
        name: name.to_string(),
        version: version.to_string(),
        requires_dist: Vec::new(),
        requires_python: None,
        provides_extras: Vec::new(),
    }
}

fn registry_pin(name: &str, version: &str, extras: &[&str]) -> AnnotatedDist {
    AnnotatedDist {
        dist: ResolvedDist {
            name: name.to_string(),
            version_or_url: VersionOrUrl::Version(version.to_string()),
            local: false,
            verbatim: format!("{name}=={version}"),
        },
        extras: extras.iter().map(|extra| extra.to_string()).collect(),
        hashes: vec![HashDigest { algorithm: HashAlgorithm::Sha256, digest: "abc123".to_string() }],
        metadata: metadata(name, version),
    }
}

fn url_pin(name: &str, url: &str, local: bool, verbatim: &str, extras: &[&str]) -> AnnotatedDist {
    AnnotatedDist {
        dist: ResolvedDist {
            name: name.to_string(),
            version_or_url: VersionOrUrl::Url(url.to_string()),
            local,
            verbatim: verbatim.to_string(),
        },
        extras: extras.iter().map(|extra| extra.to_string()).collect(),
        hashes: Vec::new(),
        metadata: metadata(name, "3.0.3"),
    }
}

#[test]
fn rooted_file_url_is_written_as_it_stands() {
    let url = "file:///home/user/flask-3.0.3-py3-none-any.whl";
    let pin = url_pin("flask", url, true, url, &[]);
    assert_eq!(pin.to_requirements_txt(true), url);
    assert_eq!(pin.to_requirements_txt(false), url);
    assert_eq!(pin.render(true, true), url);
}

#[test]
fn rooted_file_url_gives_the_reference_of_the_distribution() {
    let url = "file:///home/user/flask-3.0.3-py3-none-any.whl";
    let verbatim = "flask @ file:///home/user/flask-3.0.3-py3-none-any.whl";
    let pin = url_pin("flask", url, true, verbatim, &[]);
    assert_eq!(pin.to_requirements_txt(false), verbatim);
}

#[test]
fn file_url_with_bare_name_becomes_the_name() {
    let url = "file://flask-3.0.3-py3-none-any.whl";
    let pin = url_pin("flask", url, true, "flask @ file://flask-3.0.3-py3-none-any.whl", &[]);
    assert_eq!(pin.to_requirements_txt(true), "flask-3.0.3-py3-none-any.whl");
    assert_eq!(pin.to_requirements_txt(false), "flask-3.0.3-py3-none-any.whl");
}

#[test]
fn bare_name_wins_over_extras() {
    let url = "file://flask-3.0.3-py3-none-any.whl";
    let pin = url_pin("flask", url, true, "flask @ file://flask-3.0.3-py3-none-any.whl", &["async"]);
    assert_eq!(pin.to_requirements_txt(true), "flask-3.0.3-py3-none-any.whl");
}

#[test]
fn file_url_without_authority_is_written_as_it_stands() {
    let url = "file:./relative/flask.whl";
    let pin = url_pin("flask", url, true, "flask @ file:./relative/flask.whl", &["async"]);
    assert_eq!(pin.to_requirements_txt(true), url);
    assert_eq!(pin.to_requirements_txt(false), url);
}

#[test]
fn registry_pin_lists_its_extras() {
    let pin = registry_pin("flask", "3.0.3", &["async", "dotenv"]);
    assert_eq!(pin.to_requirements_txt(true), "flask[async, dotenv]==3.0.3");
}

#[test]
fn registry_pin_without_the_flag_has_no_extras() {
    let pin = registry_pin("flask", "3.0.3", &["async", "dotenv"]);
    assert_eq!(pin.to_requirements_txt(false), "flask==3.0.3");
}

#[test]
fn registry_pin_without_extras_is_its_reference() {
    let pin = registry_pin("flask", "3.0.3", &[]);
    assert_eq!(pin.to_requirements_txt(true), "flask==3.0.3");
    assert_eq!(pin.to_requirements_txt(false), "flask==3.0.3");
}

#[test]
fn extras_are_sorted_and_named_once() {
    let pin = registry_pin("flask", "3.0.3", &["dotenv", "async", "dotenv", "async"]);
    assert_eq!(pin.to_requirements_txt(true), "flask[async, dotenv]==3.0.3");
}

#[test]
fn a_single_extra_has_no_separator() {
    let pin = registry_pin("flask", "3.0.3", &["async"]);
    assert_eq!(pin.to_requirements_txt(true), "flask[async]==3.0.3");
}

#[test]
fn order_of_extras_does_not_matter() {
    let one = registry_pin("requests", "2.31.0", &["socks", "security", "use-chardet-on-py3"]);
    let other = registry_pin("requests", "2.31.0", &["use-chardet-on-py3", "socks", "security", "socks"]);
    assert_eq!(one.to_requirements_txt(true), other.to_requirements_txt(true));
    assert_eq!(one.to_requirements_txt(true), "requests[security, socks, use-chardet-on-py3]==2.31.0");
}

#[test]
fn repeated_calls_give_the_same_line() {
    let pin = registry_pin("flask", "3.0.3", &["dotenv", "async"]);
    let first = pin.to_requirements_txt(true);
    let second = pin.to_requirements_txt(true);
    assert_eq!(first, second);
    let local = url_pin("flask", "file://flask.whl", true, "flask @ file://flask.whl", &[]);
    assert_eq!(local.to_requirements_txt(true), local.to_requirements_txt(true));
}

#[test]
fn line_has_no_line_end() {
    let pin = registry_pin("flask", "3.0.3", &["async"]);
    let line = pin.to_requirements_txt(true);
    assert!(!line.contains('\n'));
    assert!(!line.contains('\r'));
}

#[test]
fn url_without_scheme_is_written_as_it_stands() {
    let pin = url_pin("flask", "flask-3.0.3-py3-none-any.whl", true, "flask @ flask-3.0.3-py3-none-any.whl", &["async"]);
    assert_eq!(pin.to_requirements_txt(true), "flask-3.0.3-py3-none-any.whl");
}

#[test]
fn url_with_unknown_scheme_is_written_as_it_stands() {
    let url = "C:\\Users\\user\\flask-3.0.3-py3-none-any.whl";
    let pin = url_pin("flask", url, true, "flask @ C:\\Users\\user\\flask-3.0.3-py3-none-any.whl", &["async"]);
    assert_eq!(pin.to_requirements_txt(true), url);
    let ftp = url_pin("flask", "ftp://host/flask.whl", true, "flask @ ftp://host/flask.whl", &[]);
    assert_eq!(ftp.to_requirements_txt(true), "ftp://host/flask.whl");
}

#[test]
fn url_with_other_known_scheme_is_rendered_like_any_pin() {
    let url = "https://example.com/flask-3.0.3-py3-none-any.whl";
    let verbatim = "flask @ https://example.com/flask-3.0.3-py3-none-any.whl";
    let pin = url_pin("flask", url, true, verbatim, &["async", "dotenv"]);
    assert_eq!(pin.to_requirements_txt(false), verbatim);
    assert_eq!(
        pin.to_requirements_txt(true),
        "flask[async, dotenv] @ https://example.com/flask-3.0.3-py3-none-any.whl"
    );
    let git = url_pin("flask", "git+https://example.com/flask", true, "flask @ git+https://example.com/flask", &[]);
    assert_eq!(git.to_requirements_txt(true), "flask @ git+https://example.com/flask");
}

#[test]
fn localhost_with_absolute_path_is_rendered_like_any_pin() {
    let url = "file://localhost/home/user/flask.whl";
    let verbatim = "flask @ file://localhost/home/user/flask.whl";
    let pin = url_pin("flask", url, true, verbatim, &["async"]);
    assert_eq!(pin.to_requirements_txt(false), verbatim);
    assert_eq!(pin.to_requirements_txt(true), "flask[async] @ file://localhost/home/user/flask.whl");
}

#[test]
fn localhost_without_path_is_a_bare_name() {
    let pin = url_pin("flask", "file://localhost", true, "flask @ file://localhost", &[]);
    assert_eq!(pin.to_requirements_txt(true), "localhost");
}

#[test]
fn project_root_placeholder_is_rendered_like_any_pin() {
    let url = "file://${PROJECT_ROOT}/flask.whl";
    let verbatim = "flask @ file://${PROJECT_ROOT}/flask.whl";
    let pin = url_pin("flask", url, true, verbatim, &[]);
    assert_eq!(pin.to_requirements_txt(true), verbatim);
}

#[test]
fn empty_path_behind_the_authority_marker_is_the_empty_line() {
    let pin = url_pin("flask", "file://", true, "flask @ file://", &[]);
    assert_eq!(pin.to_requirements_txt(true), "");
}

#[test]
fn url_of_a_pin_that_is_not_local_decides_nothing() {
    let url = "file://flask-3.0.3-py3-none-any.whl";
    let verbatim = "flask @ file://flask-3.0.3-py3-none-any.whl";
    let pin = url_pin("flask", url, false, verbatim, &["async"]);
    assert_eq!(pin.to_requirements_txt(false), verbatim);
    assert_eq!(pin.to_requirements_txt(true), "flask[async] @ file://flask-3.0.3-py3-none-any.whl");
}

#[test]
fn scheme_is_found_behind_leading_blanks() {
    let pin = url_pin("flask", "  file://flask.whl\n", true, "flask @ file://flask.whl", &[]);
    assert_eq!(pin.to_requirements_txt(true), "flask.whl");
}

#[test]
fn scheme_is_matched_letter_for_letter() {
    let url = "FILE://flask.whl";
    let pin = url_pin("flask", url, true, "flask @ FILE://flask.whl", &[]);
    assert_eq!(pin.to_requirements_txt(true), url);
}

#[test]
fn render_follows_the_answer_on_the_root() {
    let url = "file://flask.whl";
    let verbatim = "flask @ file://flask.whl";
    let pin = url_pin("flask", url, true, verbatim, &[]);
    assert_eq!(pin.render(true, false), "flask.whl");
    assert_eq!(pin.render(true, true), verbatim);
}

#[test]
fn name_and_version_are_those_of_the_distribution() {
    let pin = registry_pin("flask", "3.0.3", &["async"]);
    assert_eq!(pin.name(), "flask");
    assert_eq!(pin.version_or_url(), &VersionOrUrl::Version("3.0.3".to_string()));
    assert_eq!(pin.display(), "flask==3.0.3");
    let local = url_pin("flask", "file://flask.whl", true, "flask @ file://flask.whl", &[]);
    assert_eq!(local.display(), "flask @ file://flask.whl");
    assert_eq!(local.version_or_url().verbatim(), " @ file://flask.whl");
}

#[test]
fn url_without_scheme_or_with_an_unknown_one_stands_as_written() {
    assert_eq!(classify_url("flask-3.0.3-py3-none-any.whl"), UrlForm::AsWritten);
    assert_eq!(classify_url(""), UrlForm::AsWritten);
    assert_eq!(classify_url("   "), UrlForm::AsWritten);
    assert_eq!(classify_url("./flask.whl"), UrlForm::AsWritten);
    assert_eq!(classify_url("3file://flask.whl"), UrlForm::AsWritten);
    assert_eq!(classify_url("fi le://flask.whl"), UrlForm::AsWritten);
    assert_eq!(classify_url("C:\\Users\\flask.whl"), UrlForm::AsWritten);
    assert_eq!(classify_url("ftp://host/flask.whl"), UrlForm::AsWritten);
    assert_eq!(classify_url("File://flask.whl"), UrlForm::AsWritten);
    assert_eq!(classify_url("git://host/flask"), UrlForm::AsWritten);
}

#[test]
fn file_url_without_authority_stands_as_written() {
    assert_eq!(classify_url("file:./relative/flask.whl"), UrlForm::AsWritten);
    assert_eq!(classify_url("file:flask.whl"), UrlForm::AsWritten);
    assert_eq!(classify_url("file:/home/user/flask.whl"), UrlForm::AsWritten);
    assert_eq!(classify_url("file:"), UrlForm::AsWritten);
}

#[test]
fn known_schemes_other_than_file_decide_nothing() {
    let schemes = [
        "git+git", "git+http", "git+file", "git+ssh", "git+https", "bzr+http", "bzr+https", "bzr+ssh", "bzr+sftp",
        "bzr+ftp", "bzr+lp", "bzr+file", "hg+file", "hg+http", "hg+https", "hg+ssh", "hg+static-http", "svn+ssh",
        "svn+http", "svn+https", "svn+svn", "svn+file", "http", "https",
    ];
    for scheme in schemes {
        let url = format!("{scheme}://example.com/flask.whl");
        assert_eq!(classify_url(&url), UrlForm::LikeAnyPin, "{url}");
    }
}

#[test]
fn localhost_and_project_root_decide_nothing() {
    assert_eq!(classify_url("file://localhost/home/user/flask.whl"), UrlForm::LikeAnyPin);
    assert_eq!(classify_url("file://localhost/"), UrlForm::LikeAnyPin);
    assert_eq!(classify_url("file://${PROJECT_ROOT}/flask.whl"), UrlForm::LikeAnyPin);
    assert_eq!(classify_url("file://${PROJECT_ROOT}"), UrlForm::LikeAnyPin);
}

#[test]
fn file_url_with_empty_authority_has_a_bare_path() {
    assert_eq!(classify_url("file://flask.whl"), UrlForm::BarePath("flask.whl"));
    assert_eq!(classify_url("file:///home/user/flask.whl"), UrlForm::BarePath("/home/user/flask.whl"));
    assert_eq!(classify_url("file://"), UrlForm::BarePath(""));
    assert_eq!(classify_url("file://localhost"), UrlForm::BarePath("localhost"));
    assert_eq!(classify_url("file://localhostile/x"), UrlForm::BarePath("localhostile/x"));
    assert_eq!(classify_url("file://$PROJECT_ROOT/flask.whl"), UrlForm::BarePath("$PROJECT_ROOT/flask.whl"));
    assert_eq!(classify_url("\tfile://a b \n"), UrlForm::BarePath("a b"));
    assert_eq!(classify_url("file://è/日本.whl"), UrlForm::BarePath("è/日本.whl"));
}
