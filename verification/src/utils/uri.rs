//! URI manipulation utilities.

use crate::error::Error;
use crate::utils::text::{texts, trim_end, trim_slashes, trimmed, trimmed_end};
use uri_template_system::{Template, Value, Values};
use url::Url;
use vstd::prelude::*;
use vstd::string::StringExecFns;

verus! {

/// What the library reads of a parsed URL.
#[derive(Debug, Clone, PartialEq)]
pub struct ParsedUrl {
    /// The scheme, in lower case, without the colon.
    pub scheme: String,
    /// The path.
    pub path: String,
    /// The segments of the path; `None` for a URL that cannot be a base.
    pub segments: Option<Vec<String>>,
    /// The URL written out.
    pub text: String,
}

/// The mathematical value of a [`ParsedUrl`].
pub struct ParsedUrlView {
    pub scheme: Seq<char>,
    pub path: Seq<char>,
    pub segments: Option<Seq<Seq<char>>>,
    pub text: Seq<char>,
}

impl View for ParsedUrl {
    type V = ParsedUrlView;

    open spec fn view(&self) -> ParsedUrlView {
        ParsedUrlView {
            scheme: self.scheme@,
            path: self.path@,
            segments: match self.segments {
                Some(s) => Some(texts(s@)),
                None => None,
            },
            text: self.text@,
        }
    }
}

/// The URL that a text denotes, if it denotes one.
pub uninterp spec fn url_of(input: Seq<char>) -> Option<ParsedUrlView>;

/// The text of the URL `base` with its path replaced by `path`, if `base`
/// denotes a URL.
pub uninterp spec fn url_with_path(base: Seq<char>, path: Seq<char>) -> Option<Seq<char>>;

/// Whether a text is a URI template.
pub uninterp spec fn is_template(template: Seq<char>) -> bool;

/// The expansion of a URI template under the given values, if the template
/// is one and expands.
pub uninterp spec fn expansion(template: Seq<char>, values: Map<Seq<char>, Seq<char>>) -> Option<Seq<char>>;

/// The values that a collection holds, by key.
pub uninterp spec fn values_of(values: Values) -> Map<Seq<char>, Seq<char>>;

#[verifier::external_type_specification]
#[verifier::external_body]
pub struct ExValues(Values);

/// `Url::parse`, with the scheme, the path, the path segments and the text
/// read off the result; the text of the error when the input is no URL.
#[verifier::external_body]
fn parse_url(input: &str) -> (r: Result<ParsedUrl, String>)
    ensures
        match r {
            Ok(url) => url_of(input@) == Some(url@),
            Err(_) => url_of(input@) is None,
        },
{
    let url = Url::parse(input).map_err(|e| e.to_string())?;
    let segments = url.path_segments().map(|parts| parts.map(|s| s.to_string()).collect());
    Ok(
        ParsedUrl {
            scheme: url.scheme().to_string(),
            path: url.path().to_string(),
            segments,
            text: url.to_string(),
        },
    )
}

/// `Url::parse`, `Url::set_path` and the text of the result.
#[verifier::external_body]
fn replace_path(base: &str, path: &str) -> (r: Option<String>)
    ensures
        match r {
            Some(text) => url_with_path(base@, path@) == Some(text@),
            None => url_with_path(base@, path@) is None,
        },
{
    let mut url = Url::parse(base).ok()?;
    url.set_path(path);
    Some(url.to_string())
}

/// `Template::parse`: whether the text is a URI template, with the text of
/// the error when it is not.
#[verifier::external_body]
fn check_template(template: &str) -> (r: Result<(), String>)
    ensures
        r is Ok == is_template(template@),
{
    Template::parse(template).map(|_| ()).map_err(|e| e.to_string())
}

/// `Values::default`: a collection without values.
#[verifier::external_body]
fn no_values() -> (values: Values)
    ensures
        values_of(values) =~= Map::empty(),
{
    Values::default()
}

/// `Values::add` with `Value::item`: the collection then holds the item
/// under the key, in place of what it held there.
#[verifier::external_body]
fn add_value(values: Values, key: &str, value: &str) -> (added: Values)
    ensures
        values_of(added) == values_of(values).insert(key@, value@),
{
    values.add(key, Value::item(value))
}

/// `Template::parse` and `Template::expand`: the expansion of the template
/// under the values, or the text of the error.
#[verifier::external_body]
fn expand(template: &str, values: &Values) -> (r: Result<String, String>)
    ensures
        match r {
            Ok(text) => expansion(template@, values_of(*values)) == Some(text@),
            Err(_) => expansion(template@, values_of(*values)) is None,
        },
{
    let parsed = Template::parse(template).map_err(|e| e.to_string())?;
    parsed.expand(values).map_err(|e| e.to_string())
}

/// A parse error whose message is `what` followed by the reason.
fn parse_failure(what: &str, reason: &str) -> (e: Error)
    ensures
        e matches Error::ParseError(m) && m@ == what@ + reason@,
{
    let mut message = what.to_owned();
    message.append(reason);
    Error::ParseError(message)
}

/// Reads a URL.
pub fn read_url(input: &str) -> (r: Result<ParsedUrl, String>)
    ensures
        match r {
            Ok(url) => url_of(input@) == Some(url@),
            Err(_) => url_of(input@) is None,
        },
{
    parse_url(input)
}

/// Check if a string is a valid URI.
pub fn is_valid_uri(uri: &str) -> (r: bool)
    ensures
        r == url_of(uri@) is Some,
{
    parse_url(uri).is_ok()
}

/// The map that a list of pairs denotes: a later pair replaces an earlier
/// one with the same key.
pub open spec fn pairs_map(pairs: Seq<(String, String)>) -> Map<Seq<char>, Seq<char>>
    decreases pairs.len(),
{
    if pairs.len() == 0 {
        Map::empty()
    } else {
        pairs_map(pairs.drop_last()).insert(pairs.last().0@, pairs.last().1@)
    }
}

/// Parse a URI template with parameters: the expansion of the template
/// under the parameters. A text that is no template, and a template that
/// does not expand, are refused with `ParseError`.
pub fn parse_uri_template(template: &str, params: &Vec<(String, String)>) -> (r: Result<
    String,
    Error,
>)
    ensures
        match r {
            Ok(text) => is_template(template@) && expansion(template@, pairs_map(params@))
                == Some(text@),
            Err(e) => e is ParseError && (!is_template(template@) || expansion(
                template@,
                pairs_map(params@),
            ) is None),
        },
{
    match check_template(template) {
        Ok(_) => {},
        Err(reason) => {
            return Err(parse_failure("Invalid URI template: ", reason.as_str()));
        },
    }
    let mut values = no_values();
    let mut i: usize = 0;
    assert(params@.subrange(0, 0) =~= Seq::<(String, String)>::empty());
    while i < params.len()
        invariant
            i <= params.len(),
            values_of(values) == pairs_map(params@.subrange(0, i as int)),
        decreases params.len() - i,
    {
        values = add_value(values, params[i].0.as_str(), params[i].1.as_str());
        assert(params@.subrange(0, i + 1).drop_last() =~= params@.subrange(0, i as int));
        i += 1;
    }
    assert(params@.subrange(0, i as int) =~= params@);
    match expand(template, &values) {
        Ok(text) => Ok(text),
        Err(reason) => Err(parse_failure("Failed to expand URI template: ", reason.as_str())),
    }
}

/// Extract path segments from a URI. A URI without path segments has none.
pub fn uri_path_segments(uri: &str) -> (r: Result<Vec<String>, Error>)
    ensures
        match r {
            Ok(segments) => url_of(uri@) matches Some(url) && texts(segments@) == (match url.segments {
                Some(s) => s,
                None => Seq::empty(),
            }),
            Err(e) => url_of(uri@) is None && e is ParseError,
        },
{
    match parse_url(uri) {
        Ok(url) => match url.segments {
            Some(segments) => Ok(segments),
            None => {
                let none: Vec<String> = Vec::new();
                assert(texts(none@) =~= Seq::empty());
                Ok(none)
            },
        },
        Err(reason) => Err(parse_failure("Invalid URI: ", reason.as_str())),
    }
}

/// The path under which `path` is joined to a base path: the base without
/// trailing slashes, one slash, and `path` without leading and trailing
/// slashes.
pub open spec fn joined_path(base_path: Seq<char>, path: Seq<char>) -> Seq<char> {
    trimmed_end(base_path, '/') + Seq::empty().push('/') + trimmed(path, '/')
}

/// Join path segments into a URI.
pub fn join_uri_paths(base: &str, path: &str) -> (r: Result<String, Error>)
    ensures
        match r {
            Ok(text) => url_of(base@) matches Some(url) && url_with_path(
                base@,
                joined_path(url.path, path@),
            ) == Some(text@),
            Err(e) => e is ParseError && (url_of(base@) matches Some(url) ==> url_with_path(
                base@,
                joined_path(url.path, path@),
            ) is None),
        },
{
    let url = match parse_url(base) {
        Ok(url) => url,
        Err(reason) => {
            return Err(parse_failure("Invalid base URI: ", reason.as_str()));
        },
    };
    let mut url_path = trim_end(url.path.as_str(), '/');
    url_path.append("/");
    proof {
        reveal_strlit("/");
        assert("/"@ =~= Seq::empty().push('/'));
    }
    url_path.append(trim_slashes(path).as_str());
    match replace_path(base, url_path.as_str()) {
        Some(text) => Ok(text),
        None => Err(Error::parse("Invalid base URI")),
    }
}

} // verus!
