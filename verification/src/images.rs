//! Recognising image file names: a path names an image when it ends in
//! `<name>.<ext>`, where the name is a non-empty run of lowercase ASCII
//! letters and digits and the extension is `jpg`, `png` or `svg`.

use vstd::prelude::*;

verus! {

/// A character the name before the extension may consist of.
pub open spec fn is_name_char(c: char) -> bool {
    ('a' <= c && c <= 'z') || ('0' <= c && c <= '9')
}

/// An image extension this library recognises.
pub open spec fn is_image_ext(e: Seq<char>) -> bool {
    e == "jpg"@ || e == "png"@ || e == "svg"@
}

/// The path ends in a dot, a recognised extension of three characters, and
/// at least one name character right before the dot.
pub open spec fn image_match(p: Seq<char>) -> bool {
    &&& p.len() >= 5
    &&& is_image_ext(p.subrange(p.len() - 3, p.len() as int))
    &&& p[p.len() - 4] == '.'
    &&& is_name_char(p[p.len() - 5])
}

/// The start of the maximal run of name characters that ends right before
/// position `j`.
pub open spec fn name_run_start(p: Seq<char>, j: int) -> int
    recommends
        0 <= j <= p.len(),
    decreases j,
{
    if j > 0 && is_name_char(p[j - 1]) {
        name_run_start(p, j - 1)
    } else {
        j
    }
}

/// The name of a matching image path: the maximal run of name characters
/// right before the final dot.
pub open spec fn image_name(p: Seq<char>) -> Seq<char>
    recommends
        image_match(p),
{
    p.subrange(name_run_start(p, p.len() - 4), p.len() - 4)
}

/// The extension of a matching image path: its last three characters.
pub open spec fn image_ext(p: Seq<char>) -> Seq<char>
    recommends
        image_match(p),
{
    p.subrange(p.len() - 3, p.len() as int)
}

#[verifier::external_type_specification]
#[verifier::external_body]
pub struct ExRegexError(regex::Error);

/// Relies on `regex::Regex::new` and `regex::Regex::is_match` for the
/// pattern `([a-z0-9]+)\.(jpg|png|svg)$`: the pattern is valid, and a
/// haystack matches it exactly when it ends in a recognised extension after
/// a dot preceded by at least one name character.
#[verifier::external_body]
fn image_pattern_is_match(path: &str) -> (r: bool)
    ensures
        r == image_match(path@),
{
    let pattern = regex::Regex::new(r"([a-z0-9]+)\.(jpg|png|svg)$").expect("error");
    pattern.is_match(path)
}

/// Relies on `regex::Regex::new` and `regex::Regex::captures` for the
/// pattern `([a-z0-9]+)\.(jpg|png|svg)$`: on a matching haystack the first
/// capture group is the maximal run of name characters before the final dot
/// and the second is the extension; on any other haystack there is no
/// capture.
#[verifier::external_body]
fn image_pattern_captures(path: &str) -> (r: Option<(String, String)>)
    ensures
        match r {
            Some(groups) => image_match(path@) && groups.0@ == image_name(path@) && groups.1@
                == image_ext(path@),
            None => !image_match(path@),
        },
{
    let pattern = regex::Regex::new(r"([a-z0-9]+)\.(jpg|png|svg)$").expect("error");
    match pattern.captures(path) {
        Some(cap) => Some((cap[1].to_string(), cap[2].to_string())),
        None => None,
    }
}

/// Decides whether `path` names an image. The answer is always delivered:
/// the result is `Ok`, and it holds exactly [`image_match`] of the path.
pub fn is_image(path: &str) -> (r: Result<bool, regex::Error>)
    ensures
        r matches Ok(b) && b == image_match(path@),
{
    Ok(image_pattern_is_match(path))
}

/// Splits a matching image path into its name and extension; a path that
/// names no image yields nothing.
pub fn name_and_ex(path: &str) -> (r: Option<(String, String)>)
    ensures
        match r {
            Some(groups) => image_match(path@) && groups.0@ == image_name(path@) && groups.1@
                == image_ext(path@),
            None => !image_match(path@),
        },
{
    match is_image(path) {
        Ok(b) => {
            if b {
                match image_pattern_captures(path) {
                    Some(groups) => Some(groups),
                    None => None,
                }
            } else {
                None
            }
        },
        _ => None,
    }
}

} // verus!
