use crate::message::text_view;
use crate::tools::file::{path_view, sanitize_join_relative_path, sanitized};
use vstd::prelude::*;
use vstd::utf8::{decode_utf8, encode_utf8, is_char_boundary, valid_utf8};

verus! {

/// The longest search output, in bytes, that the search tool hands to the
/// model.
pub const OUTPUT_LIMIT: usize = 16384;

/// What `grep::regex::RegexMatcher::new_line_matcher` reports for a pattern:
/// nothing where it builds a matcher, and the error's text where it does not.
pub uninterp spec fn line_regex_error(pattern: Seq<char>) -> Option<Seq<char>>;

/// The text that `String::from_utf8_lossy` makes of the bytes.
pub uninterp spec fn lossy_text(bytes: Seq<u8>) -> Seq<char>;

/// Checks a regular expression for a search by lines.
///
/// Calls `grep::regex::RegexMatcher::new_line_matcher` and shows its error
/// with `to_string`. Trusted: whether a matcher is built, and the error's
/// text, depend on the pattern alone.
#[verifier::external_body]
fn regex_check(pattern: &str) -> (r: Option<String>)
    ensures
        text_view(r) == line_regex_error(pattern@),
{
    match ::grep::regex::RegexMatcher::new_line_matcher(pattern) {
        Ok(_) => None,
        Err(e) => Some(e.to_string()),
    }
}

/// Reads bytes as text, whatever they are.
///
/// Calls `String::from_utf8_lossy`. Trusted: the text depends on the bytes
/// alone, and valid UTF-8 is read as what it encodes.
#[verifier::external_body]
fn lossy(bytes: &Vec<u8>) -> (r: String)
    ensures
        r@ == lossy_text(bytes@),
        valid_utf8(bytes@) ==> r@ == decode_utf8(bytes@),
{
    String::from_utf8_lossy(bytes).into_owned()
}

/// Arguments of the tool that searches file contents.
#[derive(Debug)]
pub struct GrepToolArgs {
    pub directory: String,
    pub pattern: String,
}

/// Searches the files below a root directory for a regular expression.
#[derive(Debug, Clone)]
pub struct GrepTool {
    pub cwd: String,
}

/// The answer for a regular expression that is turned down.
pub open spec fn bad_regex(pattern: Seq<char>, reason: Seq<char>) -> Seq<char> {
    "regex "@ + pattern + " error with "@ + reason
}

/// The answer that turns the regular expression down, if it is.
pub open spec fn pattern_reply(pattern: Seq<char>) -> Option<Seq<char>> {
    match line_regex_error(pattern) {
        Some(reason) => Some(bad_regex(pattern, reason)),
        None => None,
    }
}

/// A text can be cut at the limit: it is within the limit, or the limit
/// falls between two of its characters.
pub open spec fn clippable(text: Seq<char>) -> bool {
    encode_utf8(text).len() > OUTPUT_LIMIT ==> is_char_boundary(
        encode_utf8(text),
        OUTPUT_LIMIT as int,
    )
}

/// The text cut to the first `OUTPUT_LIMIT` bytes of its encoding.
pub open spec fn clipped(text: Seq<char>) -> Seq<char> {
    if encode_utf8(text).len() > OUTPUT_LIMIT {
        decode_utf8(encode_utf8(text).subrange(0, OUTPUT_LIMIT as int))
    } else {
        text
    }
}

/// The text cut to the limit, where it can be cut there.
pub open spec fn try_clipped(text: Seq<char>) -> Option<Seq<char>> {
    if clippable(text) {
        Some(clipped(text))
    } else {
        None
    }
}

impl GrepTool {
    pub open spec fn spec_name() -> Seq<char> {
        "grep_files"@
    }

    pub open spec fn spec_description() -> Seq<char> {
        "Grep files in the given path with pattern. The path should be always relative path and '.' is allowed while '..' is not allowed. Note the pattern is in regex grammar not glob grammar."@
    }

    pub fn new(cwd: String) -> (r: Self)
        ensures
            r.cwd == cwd,
    {
        GrepTool { cwd }
    }

    /// The name the tool is registered under.
    pub fn name() -> (r: String)
        ensures
            r@ == Self::spec_name(),
    {
        String::from_str("grep_files")
    }

    /// What the tool tells the model about itself.
    pub fn description() -> (r: String)
        ensures
            r@ == Self::spec_description(),
    {
        String::from_str(
            "Grep files in the given path with pattern. The path should be always relative path and '.' is allowed while '..' is not allowed. Note the pattern is in regex grammar not glob grammar.",
        )
    }

    /// The directory that a request names, or the answer that turns the
    /// request down.
    pub fn target(&self, directory: &str) -> (r: Result<String, String>)
        ensures
            path_view(r) == sanitized(self.cwd@, directory@),
    {
        sanitize_join_relative_path(self.cwd.as_str(), directory)
    }

    /// Tells the model that its regular expression is turned down, and why.
    pub fn turn_down(pattern: &str, reason: &str) -> (r: String)
        ensures
            r@ == bad_regex(pattern@, reason@),
    {
        let mut reply = String::from_str("regex ");
        reply.append(pattern);
        reply.append(" error with ");
        reply.append(reason);
        reply
    }

    /// The answer that turns a regular expression down, where it cannot be
    /// searched for; `None` where it can.
    pub fn check_pattern(pattern: &str) -> (r: Option<String>)
        ensures
            text_view(r) == pattern_reply(pattern@),
    {
        match regex_check(pattern) {
            Some(reason) => Some(Self::turn_down(pattern, reason.as_str())),
            None => None,
        }
    }

    /// Cuts a text to the first `OUTPUT_LIMIT` bytes of its encoding.
    pub fn clip(resp: String) -> (r: String)
        requires
            clippable(resp@),
        ensures
            r@ == clipped(resp@),
    {
        if resp.as_str().as_bytes().len() > OUTPUT_LIMIT {
            let (head, _) = resp.as_str().split_at(OUTPUT_LIMIT);
            proof {
                vstd::utf8::encode_utf8_decode_utf8(head@);
            }
            head.to_owned()
        } else {
            resp
        }
    }

    /// Cuts a text to the first `OUTPUT_LIMIT` bytes of its encoding, where
    /// it can be cut there; `None` where the limit falls inside a character.
    pub fn try_clip(resp: String) -> (r: Option<String>)
        ensures
            text_view(r) == try_clipped(resp@),
    {
        if resp.as_str().as_bytes().len() <= OUTPUT_LIMIT || resp.as_str().is_char_boundary(
            OUTPUT_LIMIT,
        ) {
            Some(Self::clip(resp))
        } else {
            None
        }
    }

    /// Turns the printed matches into the tool's answer: read as text, and
    /// cut to `OUTPUT_LIMIT` bytes. `None` where the limit falls inside a
    /// character, so that the text cannot be cut there.
    pub fn grep(output: &Vec<u8>) -> (r: Option<String>)
        ensures
            text_view(r) == try_clipped(lossy_text(output@)),
    {
        Self::try_clip(lossy(output))
    }
}

} // verus!
