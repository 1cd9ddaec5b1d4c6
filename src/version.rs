use vstd::prelude::*;

use crate::error::{fault_error, reports_fault, CubicErr, VersionFault};

verus! {

/// Longest version string accepted, in characters.
pub const MAX_VERSION_LEN: usize = 50;

/// Whether a character has the Unicode White_Space property.
pub uninterp spec fn white_space(c: char) -> bool;

/// Whether a character is in the Unicode general category Cc (control codes).
pub uninterp spec fn control_char(c: char) -> bool;

/// Relies on char::is_whitespace: true exactly for characters with the White_Space property.
#[verifier::external_body]
fn char_is_whitespace(c: char) -> (r: bool)
    ensures
        r == white_space(c),
{
    c.is_whitespace()
}

/// Relies on char::is_control: true exactly for characters of the category Cc.
#[verifier::external_body]
fn char_is_control(c: char) -> (r: bool)
    ensures
        r == control_char(c),
{
    c.is_control()
}

/// Every character is whitespace (so trimming leaves nothing); true of the empty string.
pub open spec fn blank(s: Seq<char>) -> bool {
    forall|i: int| 0 <= i < s.len() ==> white_space(#[trigger] s[i])
}

/// A character that may not stand in a version: line breaks and control codes.
pub open spec fn forbidden(c: char) -> bool {
    c == '\n' || c == '\r' || control_char(c)
}

/// The format fault of a version string: too long, then forbidden characters.
pub open spec fn format_fault(s: Seq<char>) -> Option<VersionFault> {
    if s.len() > MAX_VERSION_LEN {
        Some(VersionFault::TooLong)
    } else if exists|i: int| 0 <= i < s.len() && forbidden(#[trigger] s[i]) {
        Some(VersionFault::BadChars)
    } else {
        None
    }
}

/// Why a version string is refused, checks in order: blank, too long, forbidden
/// characters; `None` when it is accepted.
pub open spec fn version_fault(s: Seq<char>) -> Option<VersionFault> {
    if blank(s) {
        Some(VersionFault::Empty)
    } else {
        format_fault(s)
    }
}

/// Whether the string is empty or whitespace only.
pub fn is_blank(s: &str) -> (r: bool)
    ensures
        r == blank(s@),
{
    let mut all: bool = true;
    for c in it: s.chars()
        invariant
            it.seq() == s@,
            all == (forall|i: int| 0 <= i < it.index() ==> white_space(#[trigger] s@[i])),
    {
        all = all && char_is_whitespace(c);
    }
    all
}

/// Checks the length and the characters of a version string.
pub fn validate_version_format(version: &str) -> (r: Result<(), CubicErr>)
    ensures
        match format_fault(version@) {
            None => r is Ok,
            Some(f) => r matches Err(e) && reports_fault(e, f),
        },
{
    let mut count: usize = 0;
    let mut bad: bool = false;
    for c in it: version.chars()
        invariant
            it.seq() == version@,
            count <= MAX_VERSION_LEN + 1,
            count == (if it.index() <= MAX_VERSION_LEN + 1 {
                it.index() as int
            } else {
                MAX_VERSION_LEN + 1
            }),
            bad == (exists|i: int| 0 <= i < it.index() && forbidden(#[trigger] version@[i])),
    {
        if count <= MAX_VERSION_LEN {
            count = count + 1;
        }
        let is_bad = c == '\n' || c == '\r' || char_is_control(c);
        proof {
            if bad {
                let i = choose|i: int| 0 <= i < it.index() && forbidden(#[trigger] version@[i]);
                assert(0 <= i < it.index() + 1 && forbidden(version@[i]));
            }
            if is_bad {
                assert(forbidden(version@[it.index() as int]));
            }
        }
        bad = bad || is_bad;
    }
    if count > MAX_VERSION_LEN {
        return Err(fault_error(VersionFault::TooLong));
    }
    if bad {
        return Err(fault_error(VersionFault::BadChars));
    }
    Ok(())
}

/// Checks a version string in full: not blank, then its format.
pub fn validate_version(version: &str) -> (r: Result<(), CubicErr>)
    ensures
        match version_fault(version@) {
            None => r is Ok,
            Some(f) => r matches Err(e) && reports_fault(e, f),
        },
{
    if is_blank(version) {
        return Err(fault_error(VersionFault::Empty));
    }
    validate_version_format(version)
}

} // verus!
