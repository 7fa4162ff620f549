//! The calls into outside crates, each behind a small trusted function.

use vstd::prelude::*;

verus! {

/// What `url::Url::parse` makes of a text: the serialization of the absolute
/// URL it parsed, or the description of the error it gave.
pub uninterp spec fn url_parse_outcome(input: Seq<char>) -> Result<Seq<char>, Seq<char>>;

/// Relies on `url::Url::parse`, which parses an absolute URL and depends on
/// its input alone. On success the URL is handed back in its serialized form
/// (`String::from(Url)`), on failure as the `ParseError`'s description.
#[verifier::external_body]
pub(crate) fn parse_url(input: &str) -> (r: Result<String, String>)
    ensures
        match r {
            Ok(url) => url_parse_outcome(input@) == Ok::<Seq<char>, Seq<char>>(url@),
            Err(reason) => url_parse_outcome(input@) == Err::<Seq<char>, Seq<char>>(reason@),
        },
{
    match url::Url::parse(input) {
        Ok(url) => Ok(String::from(url)),
        Err(e) => Err(e.to_string()),
    }
}

/// Relies on `dirs::home_dir`: the user's home directory, if the platform
/// can tell it. It reads the environment, so nothing is stated of the value.
#[verifier::external_body]
pub(crate) fn home_dir() -> (r: Option<String>) {
    dirs::home_dir().map(|p| p.to_string_lossy().into_owned())
}

/// Relies on `dirs::data_dir`: the platform's data directory for the user,
/// if it can tell it. It reads the environment, so nothing is stated of the value.
#[verifier::external_body]
pub(crate) fn data_dir() -> (r: Option<String>) {
    dirs::data_dir().map(|p| p.to_string_lossy().into_owned())
}

} // verus!
