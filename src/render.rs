//! Helpers shared by the output formats: section numbers, punctuation that
//! takes no space before it, and simple comparisons and removals on text.
use crate::text::{
    chars_equal, chars_of, decimal, decimal_chars, is_digit, replace_all, replace_literal, replaced,
    string_of,
};
use vstd::prelude::*;

verus! {

/// The end of the run of decimal digits that starts at `i`.
pub open spec fn digit_run_end(s: Seq<char>, i: int) -> int
    decreases s.len() - i,
{
    if 0 <= i < s.len() && is_digit(s[i]) {
        digit_run_end(s, i + 1)
    } else {
        i
    }
}

/// Whether `([0-9]+)[.]([0-9]+)` matches `s` from index `i`.
pub open spec fn section_match_at(s: Seq<char>, i: int) -> bool {
    &&& 0 <= i < s.len()
    &&& is_digit(s[i])
    &&& digit_run_end(s, i) + 1 < s.len()
    &&& s[digit_run_end(s, i)] == '.'
    &&& is_digit(s[digit_run_end(s, i) + 1])
}

/// The first index from `i` on where `([0-9]+)[.]([0-9]+)` matches `s`.
pub open spec fn first_section_match(s: Seq<char>, i: int) -> Option<int>
    decreases s.len() - i,
{
    if i < 0 || i >= s.len() {
        None
    } else if section_match_at(s, i) {
        Some(i)
    } else {
        first_section_match(s, i + 1)
    }
}

/// The two groups of the leftmost match of `([0-9]+)[.]([0-9]+)` in `s`,
/// each as long as it can be: a section number and a subsection number.
pub open spec fn section_parts(s: Seq<char>) -> Option<(Seq<char>, Seq<char>)> {
    match first_section_match(s, 0) {
        Some(i) => {
            let j = digit_run_end(s, i);
            Some((s.subrange(i, j), s.subrange(j + 1, digit_run_end(s, j + 1))))
        },
        None => None,
    }
}

/// The section and subsection numbers written in `s`, as `12.3`.
///
/// Relies on `regex::Regex::captures` with the pattern
/// `([0-9]+)[.]([0-9]+)`: the leftmost match, its groups greedy.
#[verifier::external_body]
pub(crate) fn section_numbers(s: &str) -> (r: Option<(String, String)>)
    ensures
        match r {
            Some((a, b)) => section_parts(s@) == Some((a@, b@)),
            None => section_parts(s@) is None,
        },
{
    let re = regex::Regex::new("([0-9]+)[.]([0-9]+)").unwrap();
    re.captures(s).map(|m| (m[1].to_string(), m[2].to_string()))
}

/// Whether `s` is `lit`.
pub fn text_is(s: &str, lit: &str) -> (r: bool)
    ensures
        r == (s@ == lit@),
{
    chars_equal(&chars_of(s), &chars_of(lit))
}

/// `s` without any occurrence of the non-empty marker `marker`.
pub fn without_marker(s: &str, marker: &str) -> (r: String)
    requires
        marker@.len() > 0,
    ensures
        r@ == replaced(s@, marker@, ""@),
{
    let v = chars_of(s);
    let out = replace_literal(&v, marker, "");
    string_of(&out)
}

/// Whether `s` is punctuation written with no space before it.
pub open spec fn is_closing_punctuation(s: Seq<char>) -> bool {
    s == "."@ || s == ","@ || s == "\u{b7}"@ || s == ";"@ || s == ">"@ || s == "]"@ || s == ")"@ || s == ",\""@ || s == ".\u{201d}"@ || s == ".\""@ || s
        == "\u{b7}\""@ || s == ".\u{2019}"@
}

/// Whether `s` is punctuation written with no space before it.
pub fn closing_punctuation(s: &str) -> (r: bool)
    ensures
        r == is_closing_punctuation(s@),
{
    text_is(s, ".") || text_is(s, ",") || text_is(s, "\u{b7}") || text_is(s, ";") || text_is(s, ">") || text_is(s, "]") || text_is(s, ")") || text_is(s, ",\"") || text_is(
        s,
        ".\u{201d}",
    ) || text_is(s, ".\"") || text_is(s, "\u{b7}\"") || text_is(s, ".\u{2019}")
}

/// Whether `s` opens a group, so that the next word takes no space before it.
pub fn opens_group(s: &str) -> (r: bool)
    ensures
        r == (s@ == "<"@ || s@ == "["@ || s@ == "("@),
{
    text_is(s, "<") || text_is(s, "[") || text_is(s, "(")
}

/// The line number of a verse-line marker: its text without `[line]`.
pub fn verse_number(s: &str) -> (r: String)
    ensures
        r@ == replaced(s@, "[line]"@, ""@),
{
    proof {
        reveal_strlit("[line]");
    }
    without_marker(s, "[line]")
}

/// The text of a section marker without `[section]`.
pub fn section_text(s: &str) -> (r: String)
    ensures
        r@ == replaced(s@, "[section]"@, ""@),
{
    proof {
        reveal_strlit("[section]");
    }
    without_marker(s, "[section]")
}

/// The characters of `s` before its first comma.
pub open spec fn up_to_comma(s: Seq<char>) -> Seq<char>
    decreases s.len(),
{
    if s.len() == 0 || s[0] == ',' {
        Seq::empty()
    } else {
        seq![s[0]] + up_to_comma(s.drop_first())
    }
}

/// The characters of `s` before its first comma.
pub fn before_comma(s: &str) -> (r: String)
    ensures
        r@ == up_to_comma(s@),
{
    let v = chars_of(s);
    let mut out: Vec<char> = Vec::new();
    let mut i: usize = 0;
    proof {
        assert(v@.subrange(0, v@.len() as int) =~= v@);
    }
    while i < v.len() && v[i] != ','
        invariant
            i <= v@.len(),
            v@ == s@,
            out@ == v@.subrange(0, i as int),
            up_to_comma(s@) == out@ + up_to_comma(v@.subrange(i as int, v@.len() as int)),
        decreases v@.len() - i,
    {
        proof {
            let rest = v@.subrange(i as int, v@.len() as int);
            assert(rest.drop_first() =~= v@.subrange(i + 1, v@.len() as int));
            assert(out@.push(v@[i as int]) + up_to_comma(rest.drop_first()) =~= out@ + (seq![rest[0]]
                + up_to_comma(rest.drop_first())));
        }
        out.push(v[i]);
        i += 1;
    }
    proof {
        assert(up_to_comma(v@.subrange(i as int, v@.len() as int)) =~= Seq::<char>::empty());
        assert(out@ + Seq::<char>::empty() =~= out@);
    }
    string_of(&out)
}

/// A document header: `template` with `%MAIN_TITLE%` replaced by the title
/// and then `%PAGE_NUM%` by the starting page number.
pub open spec fn filled_template(template: Seq<char>, title: Seq<char>, page: nat) -> Seq<char> {
    replaced(replaced(template, "%MAIN_TITLE%"@, title), "%PAGE_NUM%"@, decimal(page))
}

/// A document header from `template`, with the title and starting page.
pub fn fill_template(template: &str, title: &str, page: usize) -> (r: String)
    ensures
        r@ == filled_template(template@, title@, page as nat),
{
    proof {
        reveal_strlit("%MAIN_TITLE%");
        reveal_strlit("%PAGE_NUM%");
    }
    let v = chars_of(template);
    let v = replace_literal(&v, "%MAIN_TITLE%", title);
    let pat = chars_of("%PAGE_NUM%");
    let num = decimal_chars(page);
    let v = replace_all(&v, &pat, &num);
    string_of(&v)
}

} // verus!
