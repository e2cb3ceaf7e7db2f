//! Addresses with query parameters, made with the `url` crate.

use crate::error::{outcome, ErrorView, ZitadelCLIError};
use vstd::prelude::*;

verus! {

/// What `url::Url::parse_with_params` makes of an address and parameters: the
/// address with the parameters added to its query, or the message of its error
/// where the address is not an absolute URL.
pub uninterp spec fn url_with_query(base: Seq<char>, pairs: Seq<(Seq<char>, Seq<char>)>) -> Result<
    Seq<char>,
    Seq<char>,
>;

/// The message that a `url::ParseError` displays.
pub uninterp spec fn url_error_message(error: url::ParseError) -> Seq<char>;

/// `url::ParseError`, the error of reading an address.
#[verifier::external_type_specification]
#[verifier::external_body]
pub struct ExUrlParseError(url::ParseError);

/// Calls `url::Url::parse_with_params` and takes the URL as a text. The
/// contract names what is made: the address, or the message of the error.
#[verifier::external_body]
fn parse_with_params(base: &str, pairs: &Vec<(String, String)>) -> (r: Result<
    String,
    url::ParseError,
>)
    ensures
        url_with_query(base@, pairs.deep_view()) == (match r {
            Ok(address) => Ok::<Seq<char>, Seq<char>>(address@),
            Err(e) => Err(url_error_message(e)),
        }),
{
    url::Url::parse_with_params(base, pairs).map(String::from)
}

/// Calls `to_string` of a `url::ParseError`. The contract names the message.
#[verifier::external_body]
fn url_error_text(error: &url::ParseError) -> (message: String)
    ensures
        message@ == url_error_message(*error),
{
    error.to_string()
}

/// An address with parameters added to its query, or the error where the
/// address is not an absolute URL.
pub open spec fn address_with_query(
    base: Seq<char>,
    pairs: Seq<(Seq<char>, Seq<char>)>,
) -> Result<Seq<char>, ErrorView> {
    match url_with_query(base, pairs) {
        Ok(address) => Ok(address),
        Err(message) => Err(ErrorView::URLParse(message)),
    }
}

/// Adds parameters to the query of an address.
pub fn with_query(base: &str, pairs: &Vec<(String, String)>) -> (r: Result<
    String,
    ZitadelCLIError,
>)
    ensures
        outcome(r) == address_with_query(base@, pairs.deep_view()),
{
    match parse_with_params(base, pairs) {
        Ok(address) => Ok(address),
        Err(e) => Err(ZitadelCLIError::URLParse(url_error_text(&e))),
    }
}

} // verus!
