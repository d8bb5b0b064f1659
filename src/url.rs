use vstd::prelude::*;

verus! {

/// The shape a captured text must have to count as a link: a scheme, `://`, a
/// first character that is neither blank nor one of `/ $ . ? #`, and at least one
/// more character, none of them blank, up to the end of the text.
pub const URL_PATTERN: &'static str = r"^(https?|ftp)://[^\s/$.?#]\S+$";

/// Unicode's White_Space property, which `\s` stands for in the pattern.
pub open spec fn is_white_space(c: char) -> bool {
    let u = c as u32;
    (0x9 <= u && u <= 0xd) || u == 0x20 || u == 0x85 || u == 0xa0 || u == 0x1680 || (0x2000 <= u
        && u <= 0x200a) || u == 0x2028 || u == 0x2029 || u == 0x202f || u == 0x205f || u == 0x3000
}

/// A character that may open the part after `://`.
pub open spec fn is_host_start(c: char) -> bool {
    !is_white_space(c) && c != '/' && c != '$' && c != '.' && c != '?' && c != '#'
}

/// What follows `://`: a host-start character and one or more non-blank ones.
pub open spec fn is_url_rest(rest: Seq<char>) -> bool {
    &&& rest.len() >= 2
    &&& is_host_start(rest[0])
    &&& forall|i: int| 1 <= i < rest.len() ==> !is_white_space(#[trigger] rest[i])
}

/// The whole text is a link of scheme `http`, `https` or `ftp`.
pub open spec fn is_url_text(s: Seq<char>) -> bool {
    ||| (s.len() >= 7 && s.subrange(0, 7) == seq!['h', 't', 't', 'p', ':', '/', '/']
        && is_url_rest(s.subrange(7, s.len() as int)))
    ||| (s.len() >= 8 && s.subrange(0, 8) == seq!['h', 't', 't', 'p', 's', ':', '/', '/']
        && is_url_rest(s.subrange(8, s.len() as int)))
    ||| (s.len() >= 6 && s.subrange(0, 6) == seq!['f', 't', 'p', ':', '/', '/']
        && is_url_rest(s.subrange(6, s.len() as int)))
}

/// Relies on regex::Regex::new and regex::Regex::is_match: the link pattern
/// compiles, and a match of a pattern anchored by `^` and `$` covers the whole
/// text, with `\s` read as Unicode White_Space.
#[verifier::external_body]
fn regex_matches_url(pattern: &str, text: &str) -> (r: bool)
    requires
        pattern@ == URL_PATTERN@,
    ensures
        r == is_url_text(text@),
{
    match regex::Regex::new(pattern) {
        Ok(re) => re.is_match(text),
        Err(_) => false,
    }
}

/// Whether `text`, taken whole and as it is, is a link worth keeping.
pub fn is_url(text: &str) -> (r: bool)
    ensures
        r == is_url_text(text@),
{
    regex_matches_url(URL_PATTERN, text)
}

} // verus!
