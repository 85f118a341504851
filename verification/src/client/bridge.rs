//! Quoting of values that go into SKILL string literals.
use vstd::prelude::*;

use crate::text::{chars_of, push_char};

verus! {

broadcast use vstd::string::group_string_axioms;

/// How one character is written inside a SKILL string literal: a backslash
/// and a double quote take a backslash before them.
pub open spec fn escaped_char(c: char) -> Seq<char> {
    if c == '\\' || c == '"' {
        seq!['\\', c]
    } else {
        seq![c]
    }
}

/// `s` written as the body of a SKILL string literal.
pub open spec fn skill_escape(s: Seq<char>) -> Seq<char>
    decreases s.len(),
{
    if s.len() == 0 {
        Seq::empty()
    } else {
        skill_escape(s.drop_last()) + escaped_char(s.last())
    }
}

/// The string that SKILL reads from the body `t` of a string literal: a
/// backslash makes the character after it stand for itself.
pub open spec fn skill_unescape(t: Seq<char>) -> Seq<char>
    decreases t.len(),
{
    if t.len() == 0 {
        Seq::empty()
    } else if t[0] == '\\' && t.len() >= 2 {
        seq![t[1]] + skill_unescape(t.skip(2))
    } else {
        seq![t[0]] + skill_unescape(t.drop_first())
    }
}

/// Whether SKILL reads all of `t` as the inside of one string literal, that
/// is, meets no double quote that would close it.
pub open spec fn stays_in_literal(t: Seq<char>) -> bool
    decreases t.len(),
{
    if t.len() == 0 {
        true
    } else if t[0] == '\\' {
        t.len() >= 2 && stays_in_literal(t.skip(2))
    } else {
        t[0] != '"' && stays_in_literal(t.drop_first())
    }
}

/// Escapes a value for use inside a SKILL string literal: `\` becomes `\\`
/// and `"` becomes `\"`; every other character stands as it is.
pub fn escape_skill_string(s: &str) -> (r: String)
    ensures
        r@ == skill_escape(s@),
{
    let v = chars_of(s);
    let mut r = String::new();
    let mut i: usize = 0;
    while i < v.len()
        invariant
            i <= v@.len(),
            r@ == skill_escape(v@.take(i as int)),
        decreases v@.len() - i,
    {
        let c = v[i];
        if c == '\\' || c == '"' {
            push_char(&mut r, '\\');
        }
        push_char(&mut r, c);
        proof {
            assert(v@.take(i + 1).drop_last() =~= v@.take(i as int));
            assert(r@ =~= skill_escape(v@.take(i + 1)));
        }
        i = i + 1;
    }
    assert(v@.take(v@.len() as int) =~= v@);
    r
}

/// Escaping a character in front of a string escapes the two apart.
proof fn lemma_escape_cons(c: char, s: Seq<char>)
    ensures
        skill_escape(seq![c] + s) == escaped_char(c) + skill_escape(s),
    decreases s.len(),
{
    if s.len() == 0 {
        assert(seq![c] + s =~= seq![c]);
        assert(seq![c].drop_last() =~= Seq::<char>::empty());
        assert(seq![c].last() == c);
        assert(skill_escape(seq![c]) == skill_escape(seq![c].drop_last()) + escaped_char(c));
        assert(skill_escape(Seq::<char>::empty()) == Seq::<char>::empty());
        assert(skill_escape(seq![c] + s) =~= escaped_char(c) + skill_escape(s));
    } else {
        lemma_escape_cons(c, s.drop_last());
        assert((seq![c] + s).drop_last() =~= seq![c] + s.drop_last());
        assert((seq![c] + s).last() == s.last());
        assert(skill_escape(s) == skill_escape(s.drop_last()) + escaped_char(s.last()));
        assert(skill_escape(seq![c] + s) =~= escaped_char(c) + skill_escape(s));
    }
}

/// SKILL reads an escaped value back as the value itself.
pub proof fn law_unescape_of_escape(s: Seq<char>)
    ensures
        skill_unescape(skill_escape(s)) == s,
    decreases s.len(),
{
    if s.len() > 0 {
        let rest = s.drop_first();
        assert(s =~= seq![s[0]] + rest);
        lemma_escape_cons(s[0], rest);
        law_unescape_of_escape(rest);
        let t = skill_escape(s);
        if s[0] == '\\' || s[0] == '"' {
            assert(t.skip(2) =~= skill_escape(rest));
        } else {
            assert(t.drop_first() =~= skill_escape(rest));
        }
        assert(skill_unescape(t) =~= s);
    }
}

/// An escaped value never closes the string literal it is put in.
pub proof fn law_escape_stays_in_literal(s: Seq<char>)
    ensures
        stays_in_literal(skill_escape(s)),
    decreases s.len(),
{
    if s.len() > 0 {
        let rest = s.drop_first();
        assert(s =~= seq![s[0]] + rest);
        lemma_escape_cons(s[0], rest);
        law_escape_stays_in_literal(rest);
        let t = skill_escape(s);
        if s[0] == '\\' || s[0] == '"' {
            assert(t.skip(2) =~= skill_escape(rest));
        } else {
            assert(t.drop_first() =~= skill_escape(rest));
        }
    }
}

} // verus!
