//! Absolute addresses, as the `url` crate reads them.
//!
//! A parsed `url::Url` cannot be looked into by the verifier, so the library
//! keeps addresses as text and asks the `url` crate whenever a text has to be
//! read as an address. What the crate answers is named by the three
//! uninterpreted functions below; the contracts in this library are stated
//! over those names.

use vstd::prelude::*;
use url::ParseError;
use url::Url;

verus! {

/// Why a text was not accepted as an address.
#[derive(Clone, Copy, Debug, PartialEq, Eq, Structural)]
pub enum UrlRejection {
    /// The text has no scheme of its own: it can only be read against a base address.
    RelativeWithoutBase,
    /// The text is malformed in some other way.
    Malformed,
}

/// What `Url::parse` makes of `input`: the serialization of the address that
/// the text spells, or the reason why it spells none.
pub uninterp spec fn url_parse(input: Seq<char>) -> Result<Seq<char>, UrlRejection>;

/// What `Url::join` makes of `reference` when the base is the address that
/// `base` spells: the serialization of the joined address, or the reason why
/// there is none. Meaningful only where `url_parse(base)` is `Ok`.
pub uninterp spec fn url_join(base: Seq<char>, reference: Seq<char>) -> Result<
    Seq<char>,
    UrlRejection,
>;

/// What `Url::path_segments` gives for the address that `url` spells: the
/// `/`-separated segments of its path, or `None` for an address that cannot be
/// a base. Meaningful only where `url_parse(url)` is `Ok`.
pub uninterp spec fn url_path_segments(url: Seq<char>) -> Option<Seq<Seq<char>>>;

/// The view of an outcome that carries a text.
pub open spec fn text_outcome(outcome: Result<String, UrlRejection>) -> Result<
    Seq<char>,
    UrlRejection,
> {
    match outcome {
        Ok(text) => Ok(text@),
        Err(rejection) => Err(rejection),
    }
}

/// The views of a list of texts.
pub open spec fn texts(list: Seq<String>) -> Seq<Seq<char>> {
    list.map_values(|text: String| text@)
}

/// Calls `Url::parse` on `input`.
///
/// Trusted: the result is what `url_parse` names. The address is handed back
/// in its serialized form; of the crate's error only the distinction between a
/// relative reference and everything else is kept.
#[verifier::external_body]
pub(crate) fn parse_url(input: &str) -> (outcome: Result<String, UrlRejection>)
    ensures
        text_outcome(outcome) == url_parse(input@),
{
    match Url::parse(input) {
        Ok(url) => Ok(String::from(url)),
        Err(ParseError::RelativeUrlWithoutBase) => Err(UrlRejection::RelativeWithoutBase),
        Err(_) => Err(UrlRejection::Malformed),
    }
}

/// Calls `Url::join` with `reference` on the address that `base` spells.
///
/// Trusted: the result is what `url_join` names. The base is handed to the
/// crate as text and parsed there again, which `requires` says will succeed.
#[verifier::external_body]
pub(crate) fn join_url(base: &str, reference: &str) -> (outcome: Result<String, UrlRejection>)
    requires
        url_parse(base@) is Ok,
    ensures
        text_outcome(outcome) == url_join(base@, reference@),
{
    match Url::parse(base).and_then(|address| address.join(reference)) {
        Ok(url) => Ok(String::from(url)),
        Err(ParseError::RelativeUrlWithoutBase) => Err(UrlRejection::RelativeWithoutBase),
        Err(_) => Err(UrlRejection::Malformed),
    }
}

/// Calls `Url::path_segments` on the address that `url` spells.
///
/// Trusted: the result is what `url_path_segments` names, each segment copied
/// out as the crate gives it (percent-encoded).
#[verifier::external_body]
pub(crate) fn path_segments_of(url: &str) -> (segments: Option<Vec<String>>)
    requires
        url_parse(url@) is Ok,
    ensures
        match segments {
            Some(list) => url_path_segments(url@) == Some(texts(list@)),
            None => url_path_segments(url@) is None,
        },
{
    let address = Url::parse(url).ok()?;
    let segments = address.path_segments()?;
    Some(segments.map(String::from).collect())
}

/// The address of a page: a text that is known to spell an absolute address.
///
/// The view is the text as it was given. The serialized address, which may
/// differ from it in spelling, is `url_parse` of the view.
pub struct PageUrl {
    source: String,
    text: String,
}

impl View for PageUrl {
    type V = Seq<char>;

    closed spec fn view(&self) -> Seq<char> {
        self.source@
    }
}

impl PageUrl {
    #[verifier::type_invariant]
    spec fn well_formed(self) -> bool {
        url_parse(self.source@) == Ok::<Seq<char>, UrlRejection>(self.text@)
    }

    /// Reads `input` as an absolute address.
    pub fn parse(input: &str) -> (outcome: Result<PageUrl, UrlRejection>)
        ensures
            match outcome {
                Ok(page) => page@ == input@ && url_parse(input@) is Ok,
                Err(rejection) => url_parse(input@) == Err::<Seq<char>, UrlRejection>(rejection),
            },
    {
        match parse_url(input) {
            Ok(text) => Ok(PageUrl { source: input.to_owned(), text }),
            Err(rejection) => Err(rejection),
        }
    }

    /// The text that was given.
    pub fn source(&self) -> (text: &str)
        ensures
            text@ == self@,
    {
        self.source.as_str()
    }

    /// The address in its serialized form.
    pub fn as_str(&self) -> (text: &str)
        ensures
            url_parse(self@) == Ok::<Seq<char>, UrlRejection>(text@),
    {
        proof {
            use_type_invariant(self);
        }
        self.text.as_str()
    }

    /// Reads `reference` against this address.
    pub fn join(&self, reference: &str) -> (outcome: Result<String, UrlRejection>)
        ensures
            text_outcome(outcome) == url_join(self@, reference@),
    {
        proof {
            use_type_invariant(self);
        }
        join_url(self.source.as_str(), reference)
    }
}

} // verus!
