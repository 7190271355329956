//! Request targets and their resolution against a base URI.
//!
//! URIs are parsed by `hyper`; what it answers is named here and taken on
//! trust. The joining of a base and a relative path is this module's own.

use crate::error::{ClientError, ClientErrorView, ErrorKind};
use crate::text::{
    chars_of, drop_first_char, drop_last_char, ends_with_char, starts_with_char,
};
use core::str::FromStr;
use vstd::prelude::*;
use vstd::string::StrSliceExecFns;
use vstd::string::StringExecFns;

verus! {

/// `hyper::Uri`, a parsed request URI.
#[verifier::external_type_specification]
#[verifier::external_body]
pub struct ExUri(hyper::Uri);

/// `hyper::error::UriError`, the reason a string was refused as a URI.
#[verifier::external_type_specification]
#[verifier::external_body]
pub struct ExUriError(hyper::error::UriError);

/// What `hyper` makes of a string that is offered as a URI.
pub uninterp spec fn uri_parsed(text: Seq<char>) -> Result<hyper::Uri, hyper::error::UriError>;

/// The text that a `hyper::Uri` holds.
pub uninterp spec fn uri_source(uri: hyper::Uri) -> Seq<char>;

/// Whether a `hyper::Uri` is in absolute form, that is, has a scheme.
pub uninterp spec fn uri_absolute(uri: hyper::Uri) -> bool;

/// The scheme of a `hyper::Uri`, if it has one.
pub uninterp spec fn uri_scheme(uri: hyper::Uri) -> Option<Seq<char>>;

/// The authority of a `hyper::Uri`, if it has one.
pub uninterp spec fn uri_authority(uri: hyper::Uri) -> Option<Seq<char>>;

/// The words in which `hyper` describes a refusal.
pub uninterp spec fn uri_error_text(error: hyper::error::UriError) -> Seq<char>;

/// Whether `text` has the look of a URI in absolute form: it holds `://`
/// and does not begin with `/`.
pub open spec fn absolute_form(text: Seq<char>) -> bool {
    &&& text.len() > 0
    &&& text[0] != '/'
    &&& exists|i: int|
        0 <= i && i + 3 <= text.len() && #[trigger] text[i] == ':' && text[i + 1] == '/' && text[i
            + 2] == '/'
}

/// `Uri::from_str` is a function of the string alone: the same string is
/// parsed to the same URI, or refused for the same reason. A string that is
/// accepted gives a URI in absolute form where it holds `://` and does not
/// begin with `/`, and in no other case.
pub assume_specification[ <hyper::Uri as FromStr>::from_str ](s: &str) -> (parsed: Result<
    hyper::Uri,
    hyper::error::UriError,
>)
    ensures
        parsed == uri_parsed(s@),
        parsed matches Ok(uri) ==> uri_absolute(uri) == absolute_form(s@),
;

/// `Uri::as_ref` hands out the text that the URI holds.
pub assume_specification<'a>[ <hyper::Uri as AsRef<str>>::as_ref ](uri: &'a hyper::Uri) -> (text:
    &'a str)
    ensures
        text@ == uri_source(*uri),
;

/// `Uri::is_absolute` tells whether the URI has a scheme.
pub assume_specification[ hyper::Uri::is_absolute ](uri: &hyper::Uri) -> (absolute: bool)
    ensures
        absolute == uri_absolute(*uri),
;

/// `Uri::scheme` hands out the part of the text before its first colon,
/// where the URI is in absolute form.
pub assume_specification<'a>[ hyper::Uri::scheme ](uri: &'a hyper::Uri) -> (scheme: Option<&'a str>)
    ensures
        match scheme {
            Some(s) => uri_scheme(*uri) == Some(s@),
            None => uri_scheme(*uri) is None,
        },
;

/// `Uri::authority` cuts the authority out of the text. In absolute form the
/// cut begins three bytes after the first colon, which has to be the
/// beginning of a character: it is where two ASCII characters follow.
pub assume_specification<'a>[ hyper::Uri::authority ](uri: &'a hyper::Uri) -> (authority: Option<
    &'a str,
>)
    requires
        authority_readable(uri_source(*uri)),
    ensures
        match authority {
            Some(a) => uri_authority(*uri) == Some(a@),
            None => uri_authority(*uri) is None,
        },
;

/// The `Display` text of a `UriError`, which is its description.
#[verifier::external_body]
fn uri_error_description(error: &hyper::error::UriError) -> (text: String)
    ensures
        text@ == uri_error_text(*error),
{
    error.to_string()
}

/// A parsed URI in absolute form: it stands for itself and needs no base.
#[derive(Debug, PartialEq, Eq)]
pub struct AbsoluteUrl {
    uri: hyper::Uri,
}

/// Where a request goes: a path under the client's base URI, or a URL that
/// stands for itself.
#[derive(Debug, PartialEq, Eq)]
pub enum RequestTarget {
    /// A path to be joined onto the base URI.
    RelativePath(String),
    /// A URL that is used as it is, whatever the base URI.
    AbsoluteUrl(AbsoluteUrl),
}

/// A `RequestTarget` as contracts see it.
pub enum RequestTargetView {
    RelativePath(Seq<char>),
    AbsoluteUrl(AbsoluteUrl),
}

impl View for RequestTarget {
    type V = RequestTargetView;

    open spec fn view(&self) -> RequestTargetView {
        match self {
            RequestTarget::RelativePath(path) => RequestTargetView::RelativePath(path@),
            RequestTarget::AbsoluteUrl(url) => RequestTargetView::AbsoluteUrl(*url),
        }
    }
}

/// The text of the error for a relative path that holds nothing but its
/// leading separator.
pub open spec fn empty_target_text() -> Seq<char> {
    "relative target is empty"@
}

/// The text of the error for a URI without a scheme where an absolute one is
/// needed.
pub open spec fn not_absolute_text() -> Seq<char> {
    "URI is not in absolute form"@
}

/// The text of the error for a join in a direction that makes no URL.
pub open spec fn invalid_join_text() -> Seq<char> {
    "only a relative path can be joined onto an absolute URL"@
}

/// The text of the error for a base URI that has no origin to log in at.
pub open spec fn invalid_base_text() -> Seq<char> {
    "Invalid base URI"@
}

/// Whether the first colon of `text`, if it has one, stands at `at`.
pub open spec fn first_colon_at(text: Seq<char>, at: int) -> bool {
    &&& 0 <= at < text.len()
    &&& text[at] == ':'
    &&& forall|i: int| 0 <= i < at ==> text[i] != ':'
}

/// Whether the authority can be cut out of `text`: two ASCII characters
/// follow its first colon, or it has no colon.
pub open spec fn authority_readable(text: Seq<char>) -> bool {
    forall|at: int| #[trigger]
        first_colon_at(text, at) ==> at + 2 < text.len() && (text[at + 1] as u32) < 128 && (text[at
            + 2] as u32) < 128
}

/// `text` without the separator at its end, if it has one.
pub open spec fn without_trailing_slash(text: Seq<char>) -> Seq<char> {
    if text.len() > 0 && text.last() == '/' {
        text.drop_last()
    } else {
        text
    }
}

/// The origin of a URI, scheme and authority without what follows them:
/// `https://host:port`.
pub open spec fn origin_spec(uri: hyper::Uri) -> Result<Seq<char>, ClientErrorView> {
    if !authority_readable(uri_source(uri)) {
        Err(ClientErrorView { kind: ErrorKind::Configuration, message: invalid_base_text() })
    } else {
        match (uri_scheme(uri), uri_authority(uri)) {
            (Some(scheme), Some(authority)) => Ok(
                without_trailing_slash(scheme + "://"@ + authority),
            ),
            _ => Err(
                ClientErrorView { kind: ErrorKind::Configuration, message: invalid_base_text() },
            ),
        }
    }
}

/// `path` without its leading separator, if it has one. At most one is taken.
pub open spec fn without_leading_slash(path: Seq<char>) -> Seq<char> {
    if path.len() > 0 && path[0] == '/' {
        path.subrange(1, path.len() as int)
    } else {
        path
    }
}

/// `base` without the separators at its end, as many as there are.
pub open spec fn without_trailing_slashes(base: Seq<char>) -> Seq<char>
    decreases base.len(),
{
    if base.len() > 0 && base.last() == '/' {
        without_trailing_slashes(base.drop_last())
    } else {
        base
    }
}

/// `base` with exactly one separator at its end.
pub open spec fn with_trailing_slash(base: Seq<char>) -> Seq<char> {
    without_trailing_slashes(base).push('/')
}

/// The text of `path` joined onto `base`, with one separator between them.
pub open spec fn joined_text(base: Seq<char>, path: Seq<char>) -> Seq<char> {
    with_trailing_slash(base) + without_leading_slash(path)
}

/// What becomes of a parse result where an absolute URL is needed.
pub open spec fn absolute_of(parsed: Result<hyper::Uri, hyper::error::UriError>) -> Result<
    hyper::Uri,
    ClientErrorView,
> {
    match parsed {
        Ok(uri) => if uri_absolute(uri) {
            Ok(uri)
        } else {
            Err(ClientErrorView { kind: ErrorKind::Configuration, message: not_absolute_text() })
        },
        Err(e) => Err(
            ClientErrorView { kind: ErrorKind::Configuration, message: uri_error_text(e) },
        ),
    }
}

/// The URL for `path` under the base with text `base`.
pub open spec fn join_spec(base: Seq<char>, path: Seq<char>) -> Result<
    hyper::Uri,
    ClientErrorView,
> {
    if without_leading_slash(path).len() == 0 {
        Err(ClientErrorView { kind: ErrorKind::InvalidTarget, message: empty_target_text() })
    } else {
        absolute_of(uri_parsed(joined_text(base, path)))
    }
}

/// The URL that a request to `target` goes to, for a client whose base URI
/// has the text `base`.
pub open spec fn resolve_spec(base: Seq<char>, target: RequestTargetView) -> Result<
    hyper::Uri,
    ClientErrorView,
> {
    match target {
        RequestTargetView::AbsoluteUrl(url) => Ok(url.uri()),
        RequestTargetView::RelativePath(path) => join_spec(base, path),
    }
}

/// An exec result, with the URL by the URI it holds and the error by its view.
pub open spec fn url_outcome(r: Result<AbsoluteUrl, ClientError>) -> Result<
    hyper::Uri,
    ClientErrorView,
> {
    match r {
        Ok(url) => Ok(url.uri()),
        Err(e) => Err(e@),
    }
}

impl View for AbsoluteUrl {
    type V = Seq<char>;

    /// The text of the URL.
    open spec fn view(&self) -> Seq<char> {
        uri_source(self.uri())
    }
}

impl AbsoluteUrl {
    /// Every value of this type holds a URI in absolute form.
    #[verifier::type_invariant]
    spec fn absolute(self) -> bool {
        uri_absolute(self.uri)
    }

    /// The parsed URI that this URL holds.
    pub closed spec fn uri(&self) -> hyper::Uri {
        self.uri
    }

    /// Two URLs that hold the same URI are the same URL.
    pub proof fn lemma_same_uri(a: AbsoluteUrl, b: AbsoluteUrl)
        requires
            a.uri() == b.uri(),
        ensures
            a == b,
    {
    }

    /// Takes a parse result where an absolute URL is needed: a refusal and
    /// a URI without a scheme both are configuration errors.
    pub fn from_parsed(parsed: Result<hyper::Uri, hyper::error::UriError>) -> (r: Result<
        AbsoluteUrl,
        ClientError,
    >)
        ensures
            url_outcome(r) == absolute_of(parsed),
    {
        match parsed {
            Ok(uri) => {
                if uri.is_absolute() {
                    Ok(AbsoluteUrl { uri })
                } else {
                    Err(ClientError::new(ErrorKind::Configuration, "URI is not in absolute form"))
                }
            },
            Err(e) => Err(
                ClientError::with_text(ErrorKind::Configuration, uri_error_description(&e)),
            ),
        }
    }

    /// Parses `text` as an absolute URL. A text that `hyper` accepts is a
    /// URL where it holds `://` and does not begin with `/`, and in no other
    /// case.
    pub fn parse(text: &str) -> (r: Result<AbsoluteUrl, ClientError>)
        ensures
            url_outcome(r) == absolute_of(uri_parsed(text@)),
            r is Ok <==> uri_parsed(text@) is Ok && absolute_form(text@),
    {
        AbsoluteUrl::from_parsed(hyper::Uri::from_str(text))
    }

    /// The text of the URL.
    pub fn as_str(&self) -> (text: &str)
        ensures
            text@ == self@,
    {
        self.uri.as_ref()
    }

    /// The origin of the URL: its scheme and authority, without a path. A
    /// URL from which `hyper` cuts no scheme or no authority is refused.
    pub fn origin(&self) -> (r: Result<String, ClientError>)
        ensures
            match r {
                Ok(text) => origin_spec(self.uri()) == Ok::<Seq<char>, ClientErrorView>(text@),
                Err(e) => origin_spec(self.uri()) == Err::<Seq<char>, ClientErrorView>(e@),
            },
    {
        if !can_read_authority(self.as_str()) {
            return Err(ClientError::new(ErrorKind::Configuration, "Invalid base URI"));
        }
        let scheme: &str = match self.uri.scheme() {
            Some(s) => s,
            None => {
                return Err(ClientError::new(ErrorKind::Configuration, "Invalid base URI"));
            },
        };
        let authority: &str = match self.uri.authority() {
            Some(a) => a,
            None => {
                return Err(ClientError::new(ErrorKind::Configuration, "Invalid base URI"));
            },
        };
        let mut text: String = scheme.to_owned();
        text.append("://");
        text.append(authority);
        if ends_with_char(text.as_str(), '/') {
            let shorter: String = drop_last_char(text.as_str()).to_owned();
            Ok(shorter)
        } else {
            Ok(text)
        }
    }

    /// The parsed URI, for the transport that sends the request.
    pub fn as_uri(&self) -> (uri: &hyper::Uri)
        ensures
            *uri == self.uri(),
            uri_absolute(*uri),
    {
        proof {
            use_type_invariant(self);
        }
        &self.uri
    }
}

/// Whether two ASCII characters follow the first colon of `text`, or it has
/// no colon.
fn can_read_authority(text: &str) -> (b: bool)
    ensures
        b == authority_readable(text@),
{
    let chars: Vec<char> = chars_of(text);
    let mut i: usize = 0;
    while i < chars.len()
        invariant
            i <= chars.len(),
            chars@ == text@,
            forall|j: int| 0 <= j < i ==> chars@[j] != ':',
        decreases chars.len() - i,
    {
        if chars[i] == ':' {
            assert(first_colon_at(text@, i as int));
            let b: bool = chars.len() - i > 2 && (chars[i + 1] as u32) < 128 && (chars[i + 2] as u32)
                < 128;
            proof {
                if b {
                    assert forall|at: int| #[trigger] first_colon_at(text@, at) implies at + 2
                        < text@.len() && (text@[at + 1] as u32) < 128 && (text@[at + 2] as u32)
                        < 128 by {
                        assert(at == i);
                    }
                }
            }
            return b;
        }
        i += 1;
    }
    true
}

/// The target that a parsed URI stands for: itself where it is in absolute
/// form, else the path that its text gives.
pub closed spec fn target_of(uri: hyper::Uri) -> RequestTargetView {
    if uri_absolute(uri) {
        RequestTargetView::AbsoluteUrl(AbsoluteUrl { uri })
    } else {
        RequestTargetView::RelativePath(uri_source(uri))
    }
}

/// What `target_of` makes of a URI, said without the constructor of a URL.
pub proof fn lemma_target_of(uri: hyper::Uri)
    ensures
        uri_absolute(uri) ==> (target_of(uri) matches RequestTargetView::AbsoluteUrl(url)
            && url.uri() == uri),
        !uri_absolute(uri) ==> target_of(uri) == RequestTargetView::RelativePath(uri_source(uri)),
{
}

impl RequestTarget {
    /// The target that a parsed URI stands for: itself where it is in
    /// absolute form, else a path under the base URI.
    pub fn from_uri(uri: hyper::Uri) -> (target: RequestTarget)
        ensures
            target@ == target_of(uri),
    {
        if uri.is_absolute() {
            RequestTarget::AbsoluteUrl(AbsoluteUrl { uri })
        } else {
            let text: &str = uri.as_ref();
            RequestTarget::RelativePath(text.to_owned())
        }
    }

    /// Joins `other` onto `self`. Only a relative path can be joined, and
    /// only onto an absolute URL: every other pair is a configuration error.
    pub fn join(&self, other: &RequestTarget) -> (r: Result<AbsoluteUrl, ClientError>)
        ensures
            url_outcome(r) == (match (self@, other@) {
                (
                    RequestTargetView::AbsoluteUrl(base),
                    RequestTargetView::RelativePath(path),
                ) => join_spec(base@, path),
                _ => Err(
                    ClientErrorView {
                        kind: ErrorKind::Configuration,
                        message: invalid_join_text(),
                    },
                ),
            }),
    {
        match self {
            RequestTarget::AbsoluteUrl(base) => match other {
                RequestTarget::RelativePath(path) => join_path(base, path.as_str()),
                RequestTarget::AbsoluteUrl(_) => Err(
                    ClientError::new(
                        ErrorKind::Configuration,
                        "only a relative path can be joined onto an absolute URL",
                    ),
                ),
            },
            RequestTarget::RelativePath(_) => Err(
                ClientError::new(
                    ErrorKind::Configuration,
                    "only a relative path can be joined onto an absolute URL",
                ),
            ),
        }
    }
}

/// `base` without the separators at its end.
fn trim_trailing_slashes(base: &str) -> (rest: &str)
    ensures
        rest@ == without_trailing_slashes(base@),
{
    let chars: Vec<char> = chars_of(base);
    let mut end: usize = chars.len();
    assert(chars@.take(end as int) =~= chars@);
    while end > 0 && chars[end - 1] == '/'
        invariant
            end <= chars.len(),
            chars@ == base@,
            without_trailing_slashes(base@) == without_trailing_slashes(chars@.take(end as int)),
        decreases end,
    {
        assert(chars@.take(end as int).drop_last() =~= chars@.take(end - 1));
        end -= 1;
    }
    base.substring_char(0, end)
}

/// The text of `path` joined onto the text `base`: at most one leading
/// separator is taken from `path`, and `base` ends with exactly one. A path
/// with nothing left is refused.
pub fn join_text(base: &str, path: &str) -> (r: Result<String, ClientError>)
    ensures
        match r {
            Ok(text) => without_leading_slash(path@).len() > 0 && text@ == joined_text(
                base@,
                path@,
            ),
            Err(e) => without_leading_slash(path@).len() == 0 && e@ == (ClientErrorView {
                kind: ErrorKind::InvalidTarget,
                message: empty_target_text(),
            }),
        },
{
    let rest: &str = if starts_with_char(path, '/') {
        drop_first_char(path)
    } else {
        path
    };
    if rest.unicode_len() == 0 {
        return Err(ClientError::new(ErrorKind::InvalidTarget, "relative target is empty"));
    }
    let mut text: String = trim_trailing_slashes(base).to_owned();
    proof {
        reveal_strlit("/");
        assert("/"@ =~= seq!['/']);
    }
    text.append("/");
    text.append(rest);
    Ok(text)
}

/// The URL for the relative `path` under `base`. There is one where the
/// path is not empty and `hyper` accepts the joined text, which has to hold
/// `://` and must not begin with `/`.
pub fn join_path(base: &AbsoluteUrl, path: &str) -> (r: Result<AbsoluteUrl, ClientError>)
    ensures
        url_outcome(r) == join_spec(base@, path@),
        r is Ok <==> without_leading_slash(path@).len() > 0 && uri_parsed(
            joined_text(base@, path@),
        ) is Ok && absolute_form(joined_text(base@, path@)),
{
    match join_text(base.as_str(), path) {
        Ok(text) => AbsoluteUrl::parse(text.as_str()),
        Err(e) => Err(e),
    }
}

/// The URL that a request to `target` goes to, for a client with the base
/// URI `base`. An absolute target is handed back as it is; a relative one is
/// joined onto the base.
pub fn resolve(base: &AbsoluteUrl, target: RequestTarget) -> (r: Result<AbsoluteUrl, ClientError>)
    ensures
        url_outcome(r) == resolve_spec(base@, target@),
{
    match target {
        RequestTarget::AbsoluteUrl(url) => Ok(url),
        RequestTarget::RelativePath(path) => join_path(base, path.as_str()),
    }
}

/// A base resolves a target to the same URL whether or not the base ends
/// with a separator.
pub proof fn lemma_resolve_trailing_separator(base: Seq<char>, target: RequestTargetView)
    ensures
        resolve_spec(base, target) == resolve_spec(base.push('/'), target),
{
    assert(base.push('/').drop_last() =~= base);
}

/// A relative path resolves to the same URL with and without a separator at
/// its beginning.
pub proof fn lemma_resolve_leading_separator(base: Seq<char>, path: Seq<char>)
    requires
        path.len() == 0 || path[0] != '/',
    ensures
        resolve_spec(base, RequestTargetView::RelativePath(seq!['/'] + path)) == resolve_spec(
            base,
            RequestTargetView::RelativePath(path),
        ),
{
    assert((seq!['/'] + path).subrange(1, (seq!['/'] + path).len() as int) =~= path);
}

/// An absolute target resolves to itself, whatever the base.
pub proof fn lemma_resolve_absolute_ignores_base(
    base1: Seq<char>,
    base2: Seq<char>,
    url: AbsoluteUrl,
)
    ensures
        resolve_spec(base1, RequestTargetView::AbsoluteUrl(url)) == resolve_spec(
            base2,
            RequestTargetView::AbsoluteUrl(url),
        ),
        resolve_spec(base1, RequestTargetView::AbsoluteUrl(url)) == Ok::<
            hyper::Uri,
            ClientErrorView,
        >(url.uri()),
{
}

} // verus!
