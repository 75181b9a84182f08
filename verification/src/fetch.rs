//! The request for a font package and the reading of its answer. The network
//! exchange itself is made by the caller; this module says what to ask for and
//! what the answer means.

use vstd::prelude::*;
use vstd::string::*;
use crate::text::{lowercase_of, to_lowercase};

verus! {

/// A request address of the `hyper` crate. Nothing of its inside is known
/// here.
#[verifier::external_type_specification]
#[verifier::external_body]
pub struct ExUri(hyper::Uri);

/// The error with which the `hyper` crate refuses a text as a request
/// address.
#[verifier::external_type_specification]
#[verifier::external_body]
pub struct ExUriError(hyper::error::UriError);

/// Why a font package could not be fetched.
#[derive(Debug)]
pub enum FetchError {
    /// The provider answered with a status other than success. `font_name` is
    /// the name as it was asked for, before any normalisation.
    NotFound { font_name: String },
    /// The exchange itself failed: name resolution, connection, or a request
    /// address that is none.
    Transport { detail: String },
}

/// `text` with every space replaced by a hyphen.
pub open spec fn hyphenated(text: Seq<char>) -> Seq<char> {
    Seq::new(text.len(), |i: int| if text[i] == ' ' { '-' } else { text[i] })
}

/// The form of a font name under which the provider lists it: lower case,
/// spaces replaced by hyphens.
pub open spec fn normalized(font_name: Seq<char>) -> Seq<char> {
    hyphenated(lowercase_of(font_name))
}

/// The part of the request address before the font name.
pub open spec fn uri_head() -> Seq<char> {
    "http://google-webfonts-helper.herokuapp.com/api/fonts/"@
}

/// The part of the request address after the font name: a zip package of the
/// regular TrueType variant.
pub open spec fn uri_tail() -> Seq<char> {
    "?download=zip&formats=ttf&variants=regular"@
}

/// The request address for a font whose name is already normalised.
pub open spec fn uri_of(normalized_name: Seq<char>) -> Seq<char> {
    uri_head() + normalized_name + uri_tail()
}

/// Whether the `hyper` crate accepts `text` as a request address.
pub uninterp spec fn is_request_address(text: Seq<char>) -> bool;

/// Whether a status code is one of success, 200 to 299.
pub open spec fn is_success(status: u16) -> bool {
    200 <= status <= 299
}

/// The message of the error for a font that the provider does not have.
pub open spec fn not_found_message(font_name: Seq<char>) -> Seq<char> {
    "Font "@ + font_name + " not found"@
}

impl FetchError {
    /// The text that describes this error to the user.
    pub open spec fn message_of(self) -> Seq<char> {
        match self {
            FetchError::NotFound { font_name } => not_found_message(font_name@),
            FetchError::Transport { detail } => detail@,
        }
    }

    /// The text that describes this error to the user. For a font that was
    /// not found it holds the font's name as it was asked for.
    pub fn message(&self) -> (text: String)
        ensures
            text@ == self.message_of(),
    {
        match self {
            FetchError::NotFound { font_name } => {
                let mut text = String::from_str("Font ");
                text.append(font_name.as_str());
                text.append(" not found");
                text
            },
            FetchError::Transport { detail } => detail.clone(),
        }
    }

    /// The error for an exchange that failed before any answer came.
    pub fn transport(detail: String) -> (error: FetchError)
        ensures
            error == (FetchError::Transport { detail }),
    {
        FetchError::Transport { detail }
    }
}

/// Replaces every space of `text` by a hyphen.
pub fn hyphenate(text: &str) -> (result: String)
    ensures
        result@ == hyphenated(text@),
{
    let n: usize = text.unicode_len();
    let mut result = String::new();
    let mut i: usize = 0;
    while i < n
        invariant
            i <= n,
            n == text@.len(),
            result@ == hyphenated(text@).take(i as int),
        decreases n - i,
    {
        let ghost before = result@;
        if text.get_char(i) == ' ' {
            proof {
                reveal_strlit("-");
            }
            result.append("-");
            assert(result@ =~= before.push('-'));
        } else {
            result.append(text.substring_char(i, i + 1));
            assert(result@ =~= before.push(text@[i as int]));
        }
        assert(hyphenated(text@).take(i as int + 1) =~= hyphenated(text@).take(i as int).push(
            hyphenated(text@)[i as int],
        ));
        i += 1;
    }
    assert(hyphenated(text@).take(n as int) =~= hyphenated(text@));
    result
}

/// The name under which the provider lists a font: `font_name` in lower case,
/// with its spaces replaced by hyphens.
pub fn normalize_font_name(font_name: &str) -> (result: String)
    ensures
        result@ == normalized(font_name@),
{
    let lowered = to_lowercase(font_name);
    hyphenate(lowered.as_str())
}

/// The address to ask for the package of a font whose name is already
/// normalised.
pub fn uri_for(normalized_name: &str) -> (uri: String)
    ensures
        uri@ == uri_of(normalized_name@),
{
    let mut uri = String::from_str("http://google-webfonts-helper.herokuapp.com/api/fonts/");
    uri.append(normalized_name);
    uri.append("?download=zip&formats=ttf&variants=regular");
    uri
}

/// The address to ask for the package of the font `font_name`.
pub fn request_uri(font_name: &str) -> (uri: String)
    ensures
        uri@ == uri_of(normalized(font_name@)),
{
    let name = normalize_font_name(font_name);
    uri_for(name.as_str())
}

/// Calls `<hyper::Uri as std::str::FromStr>::from_str`.
///
/// Trusted: whether the text is accepted depends on the text alone;
/// [`is_request_address`] names it.
#[verifier::external_body]
fn parse_address(text: &str) -> (result: Result<hyper::Uri, hyper::error::UriError>)
    ensures
        result is Ok <==> is_request_address(text@),
{
    <hyper::Uri as std::str::FromStr>::from_str(text)
}

/// The request for the package of the font `font_name`, ready to be sent.
///
/// Fails with [`FetchError::Transport`] exactly where the address for the
/// font is none that can be asked.
pub fn request_for(font_name: &str) -> (result: Result<hyper::Uri, FetchError>)
    ensures
        result is Ok <==> is_request_address(uri_of(normalized(font_name@))),
        result matches Err(error) ==> error is Transport,
{
    let uri = request_uri(font_name);
    match parse_address(uri.as_str()) {
        Ok(address) => Ok(address),
        Err(error) => Err(FetchError::Transport { detail: error.to_string() }),
    }
}

/// Whether `status` is a status code of success.
pub fn status_is_success(status: u16) -> (success: bool)
    ensures
        success == is_success(status),
{
    200 <= status && status <= 299
}

/// Reads the answer to the request for the font `font_name`.
///
/// With a status of success the body is the package and is returned as it
/// came. Any other status means that the provider does not have the font:
/// the error is [`FetchError::NotFound`] and carries `font_name` unchanged.
pub fn interpret_response(font_name: &str, status: u16, body: Vec<u8>) -> (result: Result<
    Vec<u8>,
    FetchError,
>)
    ensures
        match result {
            Ok(package) => is_success(status) && package == body,
            Err(error) => !is_success(status) && error is NotFound && error->font_name@
                == font_name@,
        },
{
    if status_is_success(status) {
        Ok(body)
    } else {
        Err(FetchError::NotFound { font_name: String::from_str(font_name) })
    }
}

/// The message of a font that was not found holds the font's name.
pub proof fn lemma_not_found_message_holds_name(font_name: Seq<char>)
    ensures
        not_found_message(font_name).subrange(5, 5 + font_name.len() as int) == font_name,
{
    reveal_strlit("Font ");
    reveal_strlit(" not found");
    assert(not_found_message(font_name).subrange(5, 5 + font_name.len() as int) =~= font_name);
}

/// A normalised name is as long as its lower-case form and holds no space.
pub proof fn lemma_hyphenated_has_no_space(text: Seq<char>)
    ensures
        hyphenated(text).len() == text.len(),
        forall|i: int| 0 <= i < text.len() ==> (#[trigger] hyphenated(text)[i]) != ' ',
        forall|i: int|
            0 <= i < text.len() && text[i] != ' ' ==> (#[trigger] hyphenated(text)[i]) == text[i],
{
}

} // verus!
