use vstd::prelude::*;

verus! {

/// What `url::Url::parse` gives for `input`: the parsed URL's serialisation, or the display
/// text of the parse error.
pub uninterp spec fn url_parse_outcome(input: Seq<char>) -> Result<Seq<char>, Seq<char>>;

/// Serialisation of the URL serialised as `url` after `url::Url::set_path(path)`.
pub uninterp spec fn url_with_path(url: Seq<char>, path: Seq<char>) -> Seq<char>;

/// Declares `url::Url`, held by [`WebUrl`].
#[verifier::external_type_specification]
#[verifier::external_body]
pub struct ExUrl(url::Url);

/// An absolute URL together with its serialisation.
pub struct WebUrl {
    url: url::Url,
    text: String,
}

impl View for WebUrl {
    type V = Seq<char>;

    /// The URL's serialisation.
    closed spec fn view(&self) -> Seq<char> {
        self.text@
    }
}

/// Parses `input` with `url::Url::parse`. On success the result holds the parsed URL and its
/// serialisation (`url::Url::as_str`), which is `url_parse_outcome(input)`; on failure the
/// result is the display text of the parse error, also given by `url_parse_outcome(input)`.
#[verifier::external_body]
fn parse_url(input: &str) -> (res: Result<WebUrl, String>)
    ensures
        match (res, url_parse_outcome(input@)) {
            (Ok(u), Ok(s)) => u@ == s,
            (Err(m), Err(e)) => m@ == e,
            _ => false,
        },
{
    match url::Url::parse(input) {
        Ok(url) => Ok(WebUrl { text: url.as_str().to_owned(), url }),
        Err(err) => Err(err.to_string()),
    }
}

/// A copy of `base` whose path `url::Url::set_path` has replaced by `path`; its serialisation
/// is `url_with_path(base@, path@)`.
#[verifier::external_body]
fn set_url_path(base: &WebUrl, path: &str) -> (res: WebUrl)
    ensures
        res@ == url_with_path(base@, path@),
{
    let mut url = base.url.clone();
    url.set_path(path);
    WebUrl { text: url.as_str().to_owned(), url }
}

impl WebUrl {
    /// Parses `input` as an absolute URL; the error is the parse error's display text.
    pub fn parse(input: &str) -> (res: Result<WebUrl, String>)
        ensures
            match (res, url_parse_outcome(input@)) {
                (Ok(u), Ok(s)) => u@ == s,
                (Err(m), Err(e)) => m@ == e,
                _ => false,
            },
    {
        parse_url(input)
    }

    /// This URL with its path replaced by `path`.
    pub fn with_path(&self, path: &str) -> (res: WebUrl)
        ensures
            res@ == url_with_path(self@, path@),
    {
        set_url_path(self, path)
    }

    /// The URL's serialisation.
    pub fn as_str(&self) -> (res: &str)
        ensures
            res@ == self@,
    {
        self.text.as_str()
    }
}

/// A byte that `http::HeaderValue` accepts: a visible character, a space, a tab or any byte
/// of 128 and above.
pub open spec fn is_header_value_char(c: char) -> bool {
    (c as u32 >= 32 && c as u32 != 127) || c as u32 == 9
}

/// Text that `http::HeaderValue::from_str` accepts: every one of its bytes is accepted. A
/// character of 128 and above is encoded as bytes of 128 and above, so the test holds per
/// character.
pub open spec fn is_header_value(s: Seq<char>) -> bool {
    forall|i: int| 0 <= i < s.len() ==> #[trigger] is_header_value_char(s[i])
}

/// Whether `http::HeaderValue::from_str` accepts `s`: it accepts exactly the text whose bytes
/// are all visible ASCII, space, tab or 128 and above, as `is_header_value` states.
#[verifier::external_body]
pub(crate) fn header_value_is_valid(s: &str) -> (res: bool)
    ensures
        res == is_header_value(s@),
{
    http::HeaderValue::from_str(s).is_ok()
}

} // verus!
