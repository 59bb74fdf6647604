//! Boundary with the `fluent-syntax` parser.
//!
//! The grammar of Fluent Translation List text and the parser's error
//! recovery are owned by the `fluent-syntax` crate; this module gives the
//! parse call a contract that the rest of the crate is verified against,
//! and a verified scan for the one input shape that the parser's escape
//! scanner cannot survive.

use vstd::prelude::*;
use vstd::string::StrSliceExecFns;

verus! {

/// Declares `fluent_syntax::ast::Entry`, an opaque top-level node of the
/// parsed tree, so that it can stand in signatures and views.
#[verifier::external_type_specification]
#[verifier::external_body]
#[verifier::reject_recursive_types(S)]
pub struct ExEntry<S>(fluent_syntax::ast::Entry<S>);

/// Declares `fluent_syntax::parser::ParserError`, an opaque diagnostic
/// record carrying the location and kind of one recoverable syntax problem.
#[verifier::external_type_specification]
#[verifier::external_body]
pub struct ExParserError(fluent_syntax::parser::ParserError);

/// The outcome of parsing a text in runtime mode: the sequence of top-level
/// entries the parser emits (recovered `Junk` included) and the sequence of
/// diagnostics it reports, in order. `fluent_syntax::parser::parse_runtime`
/// computes both from the characters of its input alone.
pub uninterp spec fn ftl_parse(source: Seq<char>) -> (
    Seq<fluent_syntax::ast::Entry<String>>,
    Seq<fluent_syntax::parser::ParserError>,
);

/// A character the parser's escape scanner consumes as one hexadecimal
/// digit: an ASCII digit or an ASCII letter `a` through `f` in either case.
pub open spec fn is_ascii_hex_digit(c: char) -> bool {
    (48 <= (c as u32) && (c as u32) <= 57) || (97 <= (c as u32) && (c as u32) <= 102) || (65 <= (
    c as u32) && (c as u32) <= 70)
}

/// An ASCII character, which occupies a single byte of the text.
pub open spec fn is_ascii_char(c: char) -> bool {
    (c as u32) < 128
}

/// The characters of `s` at positions `start` up to `end` are all
/// hexadecimal digits.
pub open spec fn hex_run(s: Seq<char>, start: int, end: int) -> bool {
    forall|k: int| start <= k < end ==> is_ascii_hex_digit(#[trigger] s[k])
}

/// An escape scan that starts at character position `pos` and owes `digits`
/// hexadecimal digits stops on a non-ASCII character before the run is
/// complete.
pub open spec fn escape_run_hits_non_ascii(s: Seq<char>, pos: int, digits: int) -> bool {
    exists|j: int|
        pos <= j < pos + digits && j < s.len() && !is_ascii_char(#[trigger] s[j]) && hex_run(
            s,
            pos,
            j,
        )
}

/// A `\u` or `\U` escape opener stands at character position `i` of `s`
/// and its run of hexadecimal digits is cut short by a non-ASCII character.
pub open spec fn hazardous_opener_at(s: Seq<char>, i: int) -> bool {
    i + 1 < s.len() && s[i] == '\\' && ((s[i + 1] == 'u' && escape_run_hits_non_ascii(s, i + 2, 4))
        || (s[i + 1] == 'U' && escape_run_hits_non_ascii(s, i + 2, 6)))
}

/// The one input shape on which `fluent_syntax`'s runtime parser does not
/// return: somewhere in the text a `\u` or `\U` escape opener's run of
/// hexadecimal digits is cut short by a non-ASCII character. On such text
/// the parser's error path slices the source one byte past the offending
/// position, which is not a character boundary, and the slice panics; the
/// parse wrapper therefore leaves these texts out by `requires`. The shape
/// is matched anywhere in the text, which is slightly wider than the string
/// literals inside which the parser scans escapes.
pub open spec fn breaks_escape_scan(s: Seq<char>) -> bool {
    exists|i: int| 0 <= i && hazardous_opener_at(s, i)
}

/// Whether an escape scan starting at character position `pos` of `source`
/// and owing `digits` hexadecimal digits stops on a non-ASCII character.
fn escape_run_hits(source: &str, pos: usize, digits: usize) -> (b: bool)
    ensures
        b == escape_run_hits_non_ascii(source@, pos as int, digits as int),
{
    let n = source.unicode_len();
    if pos >= n {
        return false;
    }
    let avail = n - pos;
    let mut j: usize = 0;
    while j < digits
        invariant
            n == source@.len(),
            pos < n,
            avail == n - pos,
            j <= digits,
            forall|k: int|
                pos <= k < pos + j ==> k < n && is_ascii_hex_digit(#[trigger] source@[k]),
        decreases digits - j,
    {
        if j >= avail {
            assert(!escape_run_hits_non_ascii(source@, pos as int, digits as int)) by {
                assert forall|jj: int|
                    pos <= jj < pos + digits && jj < source@.len() && hex_run(
                        source@,
                        pos as int,
                        jj,
                    ) implies is_ascii_char(source@[jj]) by {
                    assert(is_ascii_hex_digit(source@[jj]));
                }
            }
            return false;
        }
        let c = source.get_char(pos + j);
        let v = c as u32;
        if v >= 128 {
            assert(escape_run_hits_non_ascii(source@, pos as int, digits as int)) by {
                assert(!is_ascii_char(source@[pos + j]));
                assert(hex_run(source@, pos as int, pos + j));
            }
            return true;
        }
        if !((48 <= v && v <= 57) || (97 <= v && v <= 102) || (65 <= v && v <= 70)) {
            assert(!escape_run_hits_non_ascii(source@, pos as int, digits as int)) by {
                assert forall|jj: int|
                    pos <= jj < pos + digits && jj < source@.len() && hex_run(
                        source@,
                        pos as int,
                        jj,
                    ) implies is_ascii_char(source@[jj]) by {
                    if jj > pos + j {
                        assert(is_ascii_hex_digit(source@[pos + j]));
                    } else if jj < pos + j {
                        assert(is_ascii_hex_digit(source@[jj]));
                    }
                }
            }
            return false;
        }
        j = j + 1;
    }
    assert(!escape_run_hits_non_ascii(source@, pos as int, digits as int)) by {
        assert forall|jj: int|
            pos <= jj < pos + digits && jj < source@.len() && hex_run(
                source@,
                pos as int,
                jj,
            ) implies is_ascii_char(source@[jj]) by {
            assert(is_ascii_hex_digit(source@[jj]));
        }
    }
    false
}

/// Reports whether `source` contains the escape shape described by
/// [`breaks_escape_scan`], so that a caller holding arbitrary text can
/// test it before handing the text to construction.
pub fn contains_escape_scan_break(source: &str) -> (b: bool)
    ensures
        b == breaks_escape_scan(source@),
{
    let n = source.unicode_len();
    let mut i: usize = 0;
    while i < n
        invariant
            n == source@.len(),
            i <= n,
            forall|ii: int| 0 <= ii < i ==> !hazardous_opener_at(source@, ii),
        decreases n - i,
    {
        let c = source.get_char(i);
        if c == '\\' && i + 1 < n {
            let m = source.get_char(i + 1);
            if m == 'u' {
                if escape_run_hits(source, i + 2, 4) {
                    assert(hazardous_opener_at(source@, i as int));
                    return true;
                }
            } else if m == 'U' {
                if escape_run_hits(source, i + 2, 6) {
                    assert(hazardous_opener_at(source@, i as int));
                    return true;
                }
            }
        }
        assert(!hazardous_opener_at(source@, i as int));
        i = i + 1;
    }
    assert(!breaks_escape_scan(source@)) by {
        assert forall|ii: int| 0 <= ii implies !hazardous_opener_at(source@, ii) by {
            if ii >= i {
                assert(ii + 1 >= source@.len());
            }
        }
    }
    false
}

/// Relies on `fluent_syntax::parser::parse_runtime`: away from the escape
/// shape excluded by `requires` it always returns a resource body, reports
/// malformed input through the diagnostic list instead of failing, returns
/// the `Err` variant exactly when that list is non-empty, and parses empty
/// input to an empty body with no diagnostics.
#[verifier::external_body]
pub(crate) fn parse_ftl(source: &str) -> (r: (
    Vec<fluent_syntax::ast::Entry<String>>,
    Option<Vec<fluent_syntax::parser::ParserError>>,
))
    requires
        !breaks_escape_scan(source@),
    ensures
        r.0@ == ftl_parse(source@).0,
        match r.1 {
            Some(errors) => errors@ == ftl_parse(source@).1 && errors@.len() > 0,
            None => ftl_parse(source@).1.len() == 0,
        },
        source@.len() == 0 ==> r.0@.len() == 0 && r.1 is None,
{
    match fluent_syntax::parser::parse_runtime(source.to_string()) {
        Ok(resource) => (resource.body, None),
        Err((resource, errors)) => (resource.body, Some(errors)),
    }
}

} // verus!
