//! Small transformations of gloss and corpus text: the short lemma shown in
//! the index, normalisation of Greek accents, XML entity names, and the
//! page-size plan of a text.
use crate::text::{
    chars_equal, chars_of, parse_usize, parsed_usize, push_char, split, split_on, string_of, trim,
    trimmed,
};
use vstd::prelude::*;

verus! {

/// The first piece, trimmed, that is not a lone em dash; empty when every
/// piece is.
pub open spec fn first_lemma_part(parts: Seq<Seq<char>>) -> Seq<char>
    decreases parts.len(),
{
    if parts.len() == 0 {
        Seq::empty()
    } else if trimmed(parts[0]) != "\u{2014}"@ {
        trimmed(parts[0])
    } else {
        first_lemma_part(parts.drop_first())
    }
}

/// The lemma as the index shows it: its first comma-separated part that is
/// not a lone em dash, trimmed; the whole lemma, trimmed, when that part is
/// empty.
pub open spec fn small_lemma(s: Seq<char>) -> Seq<char> {
    let r = first_lemma_part(split_on(s, ','));
    if r.len() == 0 {
        trimmed(s)
    } else {
        r
    }
}

/// The lemma as the index shows it.
pub fn get_small_lemma(s: &str) -> (r: String)
    ensures
        r@ == small_lemma(s@),
{
    let cs = chars_of(s);
    let parts = split(&cs, ',');
    let dash = chars_of("\u{2014}");
    let ghost ps = parts@.map_values(|p: Vec<char>| p@);
    let mut res: Vec<char> = Vec::new();
    let mut found = false;
    let mut i: usize = 0;
    proof {
        assert(ps.subrange(0, ps.len() as int) =~= ps);
    }
    while i < parts.len() && !found
        invariant
            i <= parts@.len(),
            ps == parts@.map_values(|p: Vec<char>| p@),
            dash@ == "\u{2014}"@,
            found ==> res@ == first_lemma_part(ps),
            !found ==> res@.len() == 0 && first_lemma_part(ps) == first_lemma_part(
                ps.subrange(i as int, ps.len() as int),
            ),
        decreases parts@.len() - i + if found {
            0int
        } else {
            1int
        },
    {
        let t = trim(&parts[i]);
        assert(ps[i as int] == parts@[i as int]@);
        if !chars_equal(&t, &dash) {
            res = t;
            found = true;
        } else {
            proof {
                assert(ps.subrange(i as int, ps.len() as int).drop_first() =~= ps.subrange(
                    i + 1,
                    ps.len() as int,
                ));
            }
            i += 1;
        }
    }
    proof {
        if !found {
            assert(ps.subrange(i as int, ps.len() as int) =~= Seq::<Seq<char>>::empty());
        }
    }
    if res.len() == 0 {
        res = trim(&cs);
    }
    string_of(&res)
}

/// The characters a single character becomes: Greek letters with oxia
/// become the same letters with tonos, the Greek question mark and ano
/// teleia become `;` and the middle dot, and the combining dialytika tonos
/// becomes dialytika followed by acute.
pub open spec fn greek_fixed(c: char) -> Seq<char> {
    if c == '\u{1F71}' {
        seq!['\u{03AC}']
    } else if c == '\u{1FBB}' {
        seq!['\u{0386}']
    } else if c == '\u{1F73}' {
        seq!['\u{03AD}']
    } else if c == '\u{1FC9}' {
        seq!['\u{0388}']
    } else if c == '\u{1F75}' {
        seq!['\u{03AE}']
    } else if c == '\u{1FCB}' {
        seq!['\u{0389}']
    } else if c == '\u{1F77}' {
        seq!['\u{03AF}']
    } else if c == '\u{1FDB}' {
        seq!['\u{038A}']
    } else if c == '\u{1F79}' {
        seq!['\u{03CC}']
    } else if c == '\u{1FF9}' {
        seq!['\u{038C}']
    } else if c == '\u{1F7B}' {
        seq!['\u{03CD}']
    } else if c == '\u{1FEB}' {
        seq!['\u{038E}']
    } else if c == '\u{1F7D}' {
        seq!['\u{03CE}']
    } else if c == '\u{1FFB}' {
        seq!['\u{038F}']
    } else if c == '\u{1FD3}' {
        seq!['\u{0390}']
    } else if c == '\u{1FE3}' {
        seq!['\u{03B0}']
    } else if c == '\u{037E}' {
        seq!['\u{003B}']
    } else if c == '\u{0387}' {
        seq!['\u{00B7}']
    } else if c == '\u{0344}' {
        seq!['\u{0308}', '\u{0301}']
    } else {
        seq![c]
    }
}

/// `s` with every character replaced as `greek_fixed` says.
pub open spec fn sanitized(s: Seq<char>) -> Seq<char>
    decreases s.len(),
{
    if s.len() == 0 {
        Seq::empty()
    } else {
        sanitized(s.drop_last()) + greek_fixed(s.last())
    }
}

/// Appends what `c` becomes to `out`.
fn push_fixed(out: &mut String, c: char)
    ensures
        final(out)@ == old(out)@ + greek_fixed(c),
{
    let ghost before = out@;
    if c == '\u{1F71}' {
        push_char(out, '\u{03AC}');
    } else if c == '\u{1FBB}' {
        push_char(out, '\u{0386}');
    } else if c == '\u{1F73}' {
        push_char(out, '\u{03AD}');
    } else if c == '\u{1FC9}' {
        push_char(out, '\u{0388}');
    } else if c == '\u{1F75}' {
        push_char(out, '\u{03AE}');
    } else if c == '\u{1FCB}' {
        push_char(out, '\u{0389}');
    } else if c == '\u{1F77}' {
        push_char(out, '\u{03AF}');
    } else if c == '\u{1FDB}' {
        push_char(out, '\u{038A}');
    } else if c == '\u{1F79}' {
        push_char(out, '\u{03CC}');
    } else if c == '\u{1FF9}' {
        push_char(out, '\u{038C}');
    } else if c == '\u{1F7B}' {
        push_char(out, '\u{03CD}');
    } else if c == '\u{1FEB}' {
        push_char(out, '\u{038E}');
    } else if c == '\u{1F7D}' {
        push_char(out, '\u{03CE}');
    } else if c == '\u{1FFB}' {
        push_char(out, '\u{038F}');
    } else if c == '\u{1FD3}' {
        push_char(out, '\u{0390}');
    } else if c == '\u{1FE3}' {
        push_char(out, '\u{03B0}');
    } else if c == '\u{037E}' {
        push_char(out, '\u{003B}');
    } else if c == '\u{0387}' {
        push_char(out, '\u{00B7}');
    } else if c == '\u{0344}' {
        push_char(out, '\u{0308}');
        push_char(out, '\u{0301}');
    } else {
        push_char(out, c);
    }
    assert(out@ =~= before + greek_fixed(c));
}

/// `s` with Greek accents normalised as `greek_fixed` says.
pub fn sanitize_greek(s: &str) -> (r: String)
    ensures
        r@ == sanitized(s@),
{
    let cs = chars_of(s);
    let mut out = String::new();
    let mut i: usize = 0;
    proof {
        assert(cs@.take(0) =~= Seq::<char>::empty());
    }
    while i < cs.len()
        invariant
            i <= cs@.len(),
            out@ == sanitized(cs@.take(i as int)),
        decreases cs@.len() - i,
    {
        push_fixed(&mut out, cs[i]);
        proof {
            assert(cs@.take(i + 1).drop_last() =~= cs@.take(i as int));
        }
        i += 1;
    }
    proof {
        assert(cs@.take(cs@.len() as int) =~= cs@);
    }
    out
}

/// The text of the predefined XML entity named `name`; empty for any other
/// name.
pub open spec fn entity_text(name: Seq<char>) -> Seq<char> {
    if name == "lt"@ {
        "<"@
    } else if name == "gt"@ {
        ">"@
    } else if name == "amp"@ {
        "&"@
    } else if name == "apos"@ {
        "'"@
    } else if name == "quot"@ {
        "\""@
    } else {
        ""@
    }
}

/// The text of the predefined XML entity named `name`.
pub fn get_entity(name: &str) -> (r: &'static str)
    ensures
        r@ == entity_text(name@),
{
    let n = chars_of(name);
    if chars_equal(&n, &chars_of("lt")) {
        "<"
    } else if chars_equal(&n, &chars_of("gt")) {
        ">"
    } else if chars_equal(&n, &chars_of("amp")) {
        "&"
    } else if chars_equal(&n, &chars_of("apos")) {
        "'"
    } else if chars_equal(&n, &chars_of("quot")) {
        "\""
    } else {
        ""
    }
}

/// The counts of a list of pieces that parse as numbers once trimmed, in
/// order; the other pieces are left out.
pub open spec fn parsed_counts(parts: Seq<Seq<char>>) -> Seq<usize>
    decreases parts.len(),
{
    if parts.len() == 0 {
        Seq::empty()
    } else {
        parsed_counts(parts.drop_last()) + match parsed_usize(trimmed(parts.last())) {
            Some(n) => seq![n],
            None => Seq::empty(),
        }
    }
}

/// The page-size plan written in `s`: the comma-separated counts that parse
/// as numbers once trimmed; none for an empty string.
pub open spec fn page_plan_of(s: Seq<char>) -> Seq<usize> {
    if s.len() == 0 {
        Seq::empty()
    } else {
        parsed_counts(split_on(s, ','))
    }
}

/// The page-size plan written in `s`.
pub fn page_plan(s: &str) -> (r: Vec<usize>)
    ensures
        r@ == page_plan_of(s@),
{
    let cs = chars_of(s);
    let mut plan: Vec<usize> = Vec::new();
    if cs.len() == 0 {
        return plan;
    }
    let parts = split(&cs, ',');
    let ghost ps = parts@.map_values(|p: Vec<char>| p@);
    let mut i: usize = 0;
    proof {
        assert(ps.take(0) =~= Seq::<Seq<char>>::empty());
    }
    while i < parts.len()
        invariant
            i <= parts@.len(),
            ps == parts@.map_values(|p: Vec<char>| p@),
            ps == split_on(cs@, ','),
            plan@ == parsed_counts(ps.take(i as int)),
        decreases parts@.len() - i,
    {
        let t = trim(&parts[i]);
        let ghost before = plan@;
        match parse_usize(&t) {
            Some(n) => {
                plan.push(n);
            },
            None => {},
        }
        proof {
            assert(ps.take(i + 1).drop_last() =~= ps.take(i as int));
            assert(ps.take(i + 1).last() == parts@[i as int]@);
            assert(plan@ =~= parsed_counts(ps.take(i + 1)));
        }
        i += 1;
    }
    proof {
        assert(ps.take(ps.len() as int) =~= ps);
    }
    plan
}

} // verus!
