//! Parsing of `key=value` configuration lines, with an optional regular
//! expression filter applied per line.

use vstd::prelude::*;

use crate::errors::SdcConfigError;
use crate::strmap::StrMap;
use vstd::string::StrSliceExecFns;
use vstd::string::StringExecFns;

verus! {

#[verifier::external_type_specification]
#[verifier::external_body]
pub struct ExRegex(regex::Regex);

#[verifier::external_type_specification]
#[verifier::external_body]
pub struct ExRegexError(regex::Error);

/// The pattern a compiled regular expression was built from.
pub uninterp spec fn regex_pattern(re: regex::Regex) -> Seq<char>;

/// Whether a pattern is a regular expression the regex crate compiles.
pub uninterp spec fn regex_valid(pattern: Seq<char>) -> bool;

/// Whether a text matches a pattern; a function of the two alone.
pub uninterp spec fn regex_accepts(pattern: Seq<char>, text: Seq<char>) -> bool;

/// Relies on regex::Regex::new: compilation succeeds exactly on valid
/// patterns, and a compiled expression stands for the pattern it was built
/// from.
#[verifier::external_body]
fn regex_new(pattern: &str) -> (r: Result<regex::Regex, regex::Error>)
    ensures
        r is Ok <==> regex_valid(pattern@),
        r matches Ok(re) ==> regex_pattern(re) == pattern@,
{
    regex::Regex::new(pattern)
}

/// Relies on regex::Regex::is_match: the result depends on the compiled
/// pattern and the text alone.
#[verifier::external_body]
fn regex_is_match(re: &regex::Regex, text: &str) -> (r: bool)
    ensures
        r == regex_accepts(regex_pattern(*re), text@),
{
    re.is_match(text)
}

/// What str::trim leaves of a string.
pub uninterp spec fn trimmed(s: Seq<char>) -> Seq<char>;

/// Relies on str::trim: removes leading and trailing whitespace; the result
/// depends on the characters alone.
#[verifier::external_body]
fn trim_str<'a>(s: &'a str) -> (r: &'a str)
    ensures
        r@ == trimmed(s@),
{
    s.trim()
}

/// The index of the first '=' in a line, if the line has one.
pub open spec fn spec_find_eq(t: Seq<char>) -> Option<int>
    decreases t.len(),
{
    if t.len() == 0 {
        None
    } else if t[0] == '=' {
        Some(0int)
    } else {
        match spec_find_eq(t.skip(1)) {
            Some(i) => Some(i + 1),
            None => None,
        }
    }
}

/// The first-'=' index is exactly the least index holding '='.
proof fn lemma_find_eq_characterization(t: Seq<char>)
    ensures
        match spec_find_eq(t) {
            Some(i) => 0 <= i < t.len() && t[i] == '=' && (forall|j: int| 0 <= j < i ==> t[j]
                != '='),
            None => forall|j: int| 0 <= j < t.len() ==> t[j] != '=',
        },
    decreases t.len(),
{
    if t.len() > 0 && t[0] != '=' {
        lemma_find_eq_characterization(t.skip(1));
        assert(forall|j: int| 1 <= j < t.len() ==> t[j] == t.skip(1)[j - 1]);
    }
}

/// Find the first '=' of a line.
fn find_eq(t: &str) -> (r: Option<usize>)
    ensures
        r is Some <==> spec_find_eq(t@) is Some,
        r matches Some(i) ==> i < t@.len() && t@[i as int] == '=' && spec_find_eq(t@) == Some(
            i as int,
        ),
{
    let n = t.unicode_len();
    let mut i: usize = 0;
    while i < n
        invariant
            i <= n,
            n == t@.len(),
            forall|j: int| 0 <= j < i ==> t@[j] != '=',
        decreases n - i,
    {
        let c = t.get_char(i);
        if c == '=' {
            proof {
                lemma_find_eq_characterization(t@);
            }
            return Some(i);
        }
        i = i + 1;
    }
    proof {
        lemma_find_eq_characterization(t@);
    }
    None
}

/// The views of an optional filter pattern.
pub open spec fn spec_filter_view(filter: Option<&str>) -> Option<Seq<char>> {
    match filter {
        Some(f) => Some(f@),
        None => None,
    }
}

/// The effect of one configuration line on the mapping: the line is
/// trimmed; a line the filter rejects changes nothing; otherwise the text
/// before the first '=' is bound to the text after it, and a line without
/// '=' changes nothing.
pub open spec fn spec_parse_line(
    m: Map<Seq<char>, Seq<char>>,
    line: Seq<char>,
    filter: Option<Seq<char>>,
) -> Map<Seq<char>, Seq<char>> {
    let t = trimmed(line);
    if filter matches Some(pattern) && !regex_accepts(pattern, t) {
        m
    } else {
        match spec_find_eq(t) {
            Some(i) => m.insert(t.take(i), t.skip(i + 1)),
            None => m,
        }
    }
}

/// The effect of a sequence of configuration lines, applied in order.
pub open spec fn spec_parse_lines(
    m: Map<Seq<char>, Seq<char>>,
    lines: Seq<Seq<char>>,
    filter: Option<Seq<char>>,
) -> Map<Seq<char>, Seq<char>>
    decreases lines.len(),
{
    if lines.len() == 0 {
        m
    } else {
        spec_parse_line(spec_parse_lines(m, lines.drop_last(), filter), lines.last(), filter)
    }
}

/// Parse configuration lines of the form `key=value` into the mapping,
/// keeping only the lines that match the optional filter expression; later
/// lines overwrite earlier bindings of the same key.  An unusable filter
/// expression is reported instead, with the mapping untouched.
pub fn parse_config_file(lines: &Vec<String>, filter: Option<&str>, map: &mut StrMap) -> (r: Result<
    (),
    SdcConfigError,
>)
    ensures
        r is Ok <==> (filter matches Some(f) ==> regex_valid(f@)),
        r is Ok ==> final(map)@ == spec_parse_lines(
            old(map)@,
            lines@.map_values(|l: String| l@),
            spec_filter_view(filter),
        ),
        r is Err ==> final(map)@ == old(map)@ && r == Result::<(), SdcConfigError>::Err(
            SdcConfigError::BadFilter,
        ),
{
    let compiled: Option<regex::Regex> = match filter {
        Some(f) => match regex_new(f) {
            Ok(re) => Some(re),
            Err(_) => {
                return Err(SdcConfigError::BadFilter);
            },
        },
        None => None,
    };
    let ghost lseq = lines@.map_values(|l: String| l@);
    let n = lines.len();
    let mut i: usize = 0;
    proof {
        assert(lseq.take(0) =~= Seq::empty());
    }
    while i < n
        invariant
            i <= n,
            n == lines.len(),
            lseq == lines@.map_values(|l: String| l@),
            map@ == spec_parse_lines(old(map)@, lseq.take(i as int), spec_filter_view(filter)),
            match (filter, compiled) {
                (Some(f), Some(re)) => regex_pattern(re) == f@,
                (None, None) => true,
                _ => false,
            },
        decreases n - i,
    {
        proof {
            assert(lseq.take(i as int + 1).drop_last() =~= lseq.take(i as int));
            assert(lseq.take(i as int + 1).last() == lines@[i as int]@);
        }
        let line: &String = &lines[i];
        let t = trim_str(line.as_str());
        let keep = match &compiled {
            Some(re) => regex_is_match(re, t),
            None => true,
        };
        if keep {
            if let Some(pos) = find_eq(t) {
                let t_len = t.unicode_len();
                let key = String::from_str(t.substring_char(0, pos));
                let value = String::from_str(t.substring_char(pos + 1, t_len));
                proof {
                    assert(key@ =~= trimmed(line@).take(pos as int));
                    assert(value@ =~= trimmed(line@).skip(pos as int + 1));
                }
                map.insert(key, value);
            }
        }
        i = i + 1;
    }
    proof {
        assert(lseq.take(n as int) =~= lseq);
    }
    Ok(())
}

} // verus!
