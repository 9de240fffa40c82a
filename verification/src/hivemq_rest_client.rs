use vstd::prelude::*;

use crate::openapi::PaginationCursor;
use crate::styles::find_text;
use crate::text::{concat, string_of};

verus! {

/// Where and how the REST API of a HiveMQ broker is reached.
#[derive(Debug, Clone, PartialEq, Eq)]
pub struct Configuration {
    pub base_path: String,
    pub user_agent: Option<String>,
}

/// The user agent that requests carry unless configured otherwise.
pub open spec fn default_user_agent() -> Seq<char> {
    "OpenAPI-Generator/4.21.0/rust"@
}

/// The configuration that talks to the broker at `host`, with the default user agent.
pub fn build_rest_api_config(host: String) -> (configuration: Configuration)
    ensures
        configuration.base_path@ == host@,
        configuration.user_agent matches Some(a) && a@ == default_user_agent(),
{
    Configuration {
        base_path: host,
        user_agent: Some(String::from_str("OpenAPI-Generator/4.21.0/rust")),
    }
}

/// The value of the first `cursor=` query parameter of a URL: the characters after the
/// leftmost `cursor=` up to the next `&` or the end.
pub open spec fn cursor_parameter(url: Seq<char>) -> Option<Seq<char>> {
    match find_text(url, "cursor="@) {
        None => None,
        Some(i) => Some(up_to_ampersand(url.skip(i + 7int))),
    }
}

/// The characters of `s` before its first `&`.
pub open spec fn up_to_ampersand(s: Seq<char>) -> Seq<char>
    decreases s.len(),
{
    if s.len() == 0 || s[0] == '&' {
        Seq::empty()
    } else {
        seq![s[0]] + up_to_ampersand(s.drop_first())
    }
}

/// The pattern that finds the cursor in the link to the next page.
pub open spec fn cursor_pattern() -> Seq<char> {
    "cursor=([^&]*)"@
}

/// What the `regex` crate gives for the first capture group of the leftmost match of
/// `pattern` in `text`: `None` when the pattern does not compile, `Some(None)` when nothing
/// matches or the group takes no part in the match.
pub uninterp spec fn regex_first_group(pattern: Seq<char>, text: Seq<char>) -> Option<Option<Seq<char>>>;

pub open spec fn option_string_view(r: Option<Option<String>>) -> Option<Option<Seq<char>>> {
    match r {
        None => None,
        Some(None) => Some(None),
        Some(Some(s)) => Some(Some(s@)),
    }
}

/// Compiles `pattern` with `regex::Regex::new` and returns capture group 1 of its leftmost
/// match in `text` (`captures_iter(..).next()`, then `get(1)`). For the cursor pattern the
/// contract also states what the crate documents of such a match: it starts at the leftmost
/// `cursor=` and the group runs greedily over the characters other than `&`.
#[verifier::external_body]
fn regex_capture(pattern: &str, text: &str) -> (r: Option<Option<String>>)
    ensures
        option_string_view(r) == regex_first_group(pattern@, text@),
        pattern@ == cursor_pattern() ==> option_string_view(r) == Some(cursor_parameter(text@)),
{
    regex::Regex::new(pattern).ok().map(
        |re| re.captures_iter(text).next().and_then(|cap| cap.get(1)).map(|m| m.as_str().to_string()),
    )
}

/// The cursor of the next page, taken from the `_links` of a paginated result.
pub fn get_cursor(links: Option<Option<Box<PaginationCursor>>>) -> (cursor: Option<String>)
    ensures
        match links {
            Some(Some(c)) => match c.next {
                Some(next) => match cursor {
                    Some(v) => cursor_parameter(next@) == Some(v@),
                    None => cursor_parameter(next@) is None,
                },
                None => cursor is None,
            },
            _ => cursor is None,
        },
{
    let next = match links {
        Some(Some(c)) => match c.next {
            Some(next) => next,
            None => {
                return None;
            },
        },
        _ => {
            return None;
        },
    };
    let pattern = "cursor=([^&]*)";
    match regex_capture(pattern, next.as_str()) {
        Some(Some(v)) => Some(v),
        _ => None,
    }
}

/// The message that reports a failed request whose error reads `message`.
pub fn api_error_message(message: &str) -> (s: String)
    ensures
        s@ == "API request failed: "@ + message@,
{
    concat("API request failed: ", message)
}

} // verus!
