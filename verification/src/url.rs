//! Recovering the address of an uploaded image from what the uploader
//! printed: a plain address anywhere in the output, or one held in a JSON
//! document on either stream.

use crate::json::{first_text, json_document, member_of, parse_json, Json, JsonModel};
use crate::text::{joined, trim, trimmed};
use vstd::prelude::*;

verus! {

/// An `http` or `https` address: the scheme, then everything up to the next
/// white space, quote or angle bracket.
pub const URL_PATTERN: &'static str = "https?://[^\\s\"'<>]+";

/// The text of the leftmost match of the regular expression `pattern` in
/// `haystack`, as the `regex` crate finds it; none where nothing matches or
/// the pattern does not compile.
pub uninterp spec fn regex_first_match(pattern: Seq<char>, haystack: Seq<char>) -> Option<
    Seq<char>,
>;

/// `regex::Regex::new` on `pattern`, then `regex::Regex::find` on `haystack`
/// and `regex::Match::as_str` on what it found: the outcome is a function of
/// the two texts alone, and [`regex_first_match`] is its name.
#[verifier::external_body]
fn regex_find(pattern: &str, haystack: &str) -> (r: Option<String>)
    ensures
        match r {
            Some(found) => regex_first_match(pattern@, haystack@) == Some(found@),
            None => regex_first_match(pattern@, haystack@).is_none(),
        },
{
    match regex::Regex::new(pattern) {
        Ok(re) => re.find(haystack).map(|m| m.as_str().to_string()),
        Err(_) => None,
    }
}

/// The first plain address in `text`.
pub open spec fn plain_url(text: Seq<char>) -> Option<Seq<char>> {
    regex_first_match(URL_PATTERN@, text)
}

/// The address that the document `doc` holds: the first text in the list
/// that is its `result` member, else the text that is its `url` member.
pub open spec fn document_url(doc: JsonModel) -> Option<Seq<char>> {
    let listed = match member_of(doc, "result"@) {
        Some(JsonModel::List(items)) => first_text(items),
        _ => None,
    };
    match listed {
        Some(url) => Some(url),
        None => match member_of(doc, "url"@) {
            Some(JsonModel::Text(url)) => Some(url),
            _ => None,
        },
    }
}

/// The address held in `text` read as a JSON document.
pub open spec fn json_url(text: Seq<char>) -> Option<Seq<char>> {
    match json_document(text) {
        Some(doc) => document_url(doc),
        None => None,
    }
}

/// The two output streams as one text, standard output first.
pub open spec fn merged_output(stdout: Seq<char>, stderr: Seq<char>) -> Seq<char> {
    stdout + "\n"@ + stderr
}

/// The address that the output of an upload yields: a plain address
/// anywhere in the merged output; else the address in the JSON document on
/// standard output; else the one in the JSON document on standard error.
pub open spec fn extracted_url(stdout: Seq<char>, stderr: Seq<char>) -> Option<Seq<char>> {
    match plain_url(merged_output(stdout, stderr)) {
        Some(url) => Some(url),
        None => match json_url(trimmed(stdout)) {
            Some(url) => Some(url),
            None => json_url(trimmed(stderr)),
        },
    }
}

/// Whether `found` is the text `wanted`, or both are absent.
pub open spec fn same_text(found: Option<String>, wanted: Option<Seq<char>>) -> bool {
    match found {
        Some(text) => wanted == Some(text@),
        None => wanted.is_none(),
    }
}

/// The first plain address in `output`.
pub fn extract_first_url(output: &str) -> (r: Option<String>)
    ensures
        same_text(r, plain_url(output@)),
{
    regex_find(URL_PATTERN, output)
}

/// The address that a parsed document holds.
pub fn url_from_document(doc: &Json) -> (r: Option<String>)
    ensures
        same_text(r, document_url(doc@)),
{
    let listed: Option<&String> = match doc.member("result") {
        Some(result) => result.first_text_item(),
        None => None,
    };
    match listed {
        Some(url) => Some(url.clone()),
        None => match doc.member("url") {
            Some(value) => match value.as_text() {
                Some(url) => Some(url.clone()),
                None => None,
            },
            None => None,
        },
    }
}

/// The address held in `output` read as a JSON document.
pub fn extract_url_from_json_text(output: &str) -> (r: Option<String>)
    ensures
        same_text(r, json_url(output@)),
{
    match parse_json(output) {
        Some(doc) => url_from_document(&doc),
        None => None,
    }
}

/// The two output streams as one text.
pub fn merge_output(stdout: &str, stderr: &str) -> (r: String)
    ensures
        r@ == merged_output(stdout@, stderr@),
{
    let head = joined(stdout, "\n");
    joined(head.as_str(), stderr)
}

/// The address that the output of an upload yields.
pub fn extract_url(stdout: &str, stderr: &str) -> (r: Option<String>)
    ensures
        same_text(r, extracted_url(stdout@, stderr@)),
{
    let merged = merge_output(stdout, stderr);
    match extract_first_url(merged.as_str()) {
        Some(url) => Some(url),
        None => {
            let out = trim(stdout);
            match extract_url_from_json_text(out.as_str()) {
                Some(url) => Some(url),
                None => {
                    let err = trim(stderr);
                    extract_url_from_json_text(err.as_str())
                },
            }
        },
    }
}

} // verus!
