use vstd::prelude::*;

verus! {

/// What `c` becomes in escaped text: the five markup-significant characters
/// and `/` turn into character references, everything else stays.
pub open spec fn escape_char(c: char) -> Seq<char> {
    if c == '&' {
        seq!['&', 'a', 'm', 'p', ';']
    } else if c == '<' {
        seq!['&', 'l', 't', ';']
    } else if c == '>' {
        seq!['&', 'g', 't', ';']
    } else if c == '"' {
        seq!['&', 'q', 'u', 'o', 't', ';']
    } else if c == '\'' {
        seq!['&', '#', 'x', '2', '7', ';']
    } else if c == '/' {
        seq!['&', '#', 'x', '2', 'F', ';']
    } else {
        seq![c]
    }
}

/// `s` with every character replaced by its escape.
pub open spec fn escape_safe(s: Seq<char>) -> Seq<char>
    decreases s.len(),
{
    if s.len() == 0 {
        Seq::empty()
    } else {
        escape_char(s[0]) + escape_safe(s.skip(1))
    }
}

/// Whether `t` begins with `p`.
pub open spec fn starts_with(t: Seq<char>, p: Seq<char>) -> bool {
    p.len() <= t.len() && t.subrange(0, p.len() as int) == p
}

/// How a markup parser reads text: each of the character references that
/// `escape_char` writes stands for its character, any other character for
/// itself.
pub open spec fn unescape(t: Seq<char>) -> Seq<char>
    decreases t.len(),
{
    if t.len() == 0 {
        Seq::empty()
    } else if starts_with(t, escape_char('&')) {
        seq!['&'] + unescape(t.skip(5))
    } else if starts_with(t, escape_char('<')) {
        seq!['<'] + unescape(t.skip(4))
    } else if starts_with(t, escape_char('>')) {
        seq!['>'] + unescape(t.skip(4))
    } else if starts_with(t, escape_char('"')) {
        seq!['"'] + unescape(t.skip(6))
    } else if starts_with(t, escape_char('\'')) {
        seq!['\''] + unescape(t.skip(6))
    } else if starts_with(t, escape_char('/')) {
        seq!['/'] + unescape(t.skip(6))
    } else {
        seq![t[0]] + unescape(t.skip(1))
    }
}

/// Relies on `html_escape::encode_safe`: it replaces each of `&`, `<`, `>`,
/// `"`, `'` and `/` by its character reference and copies every other
/// character.
#[verifier::external_body]
pub fn encode_safe(s: &str) -> (r: String)
    ensures
        r@ == escape_safe(s@),
{
    html_escape::encode_safe(s).into_owned()
}

proof fn lemma_differs_at(t: Seq<char>, p: Seq<char>, k: int)
    requires
        0 <= k < p.len(),
        k < t.len(),
        t[k] != p[k],
    ensures
        !starts_with(t, p),
{
    if p.len() <= t.len() {
        assert(t.subrange(0, p.len() as int)[k] == t[k]);
    }
}

proof fn lemma_unescape_step(c: char, rest: Seq<char>)
    ensures
        unescape(escape_char(c) + rest) == seq![c] + unescape(rest),
{
    let t = escape_char(c) + rest;
    let e = escape_char(c);
    assert(t.subrange(0, e.len() as int) =~= e);
    assert(t.skip(e.len() as int) =~= rest);
    assert(t[0] == e[0]);
    if e.len() > 1 {
        assert(t[1] == e[1]);
    }
    if e.len() > 4 {
        assert(t[4] == e[4]);
    }
    if c == '&' {
    } else if c == '<' {
        lemma_differs_at(t, escape_char('&'), 1);
    } else if c == '>' {
        lemma_differs_at(t, escape_char('&'), 1);
        lemma_differs_at(t, escape_char('<'), 1);
    } else if c == '"' {
        lemma_differs_at(t, escape_char('&'), 1);
        lemma_differs_at(t, escape_char('<'), 1);
        lemma_differs_at(t, escape_char('>'), 1);
    } else if c == '\'' {
        lemma_differs_at(t, escape_char('&'), 1);
        lemma_differs_at(t, escape_char('<'), 1);
        lemma_differs_at(t, escape_char('>'), 1);
        lemma_differs_at(t, escape_char('"'), 1);
    } else if c == '/' {
        lemma_differs_at(t, escape_char('&'), 1);
        lemma_differs_at(t, escape_char('<'), 1);
        lemma_differs_at(t, escape_char('>'), 1);
        lemma_differs_at(t, escape_char('"'), 1);
        lemma_differs_at(t, escape_char('\''), 4);
    } else {
        lemma_differs_at(t, escape_char('&'), 0);
        lemma_differs_at(t, escape_char('<'), 0);
        lemma_differs_at(t, escape_char('>'), 0);
        lemma_differs_at(t, escape_char('"'), 0);
        lemma_differs_at(t, escape_char('\''), 0);
        lemma_differs_at(t, escape_char('/'), 0);
    }
}

/// Escaping loses nothing: reading escaped text back as markup text gives the
/// characters that were escaped, whatever they are.
pub proof fn lemma_escape_round_trip(s: Seq<char>)
    ensures
        unescape(escape_safe(s)) == s,
    decreases s.len(),
{
    if s.len() > 0 {
        lemma_escape_round_trip(s.skip(1));
        lemma_unescape_step(s[0], escape_safe(s.skip(1)));
        assert(s =~= seq![s[0]] + s.skip(1));
    } else {
        assert(escape_safe(s) =~= Seq::<char>::empty());
    }
}

/// Escaped text holds no `<` and no `"`: it cannot open or close a tag, nor
/// end a quoted attribute value.
pub proof fn lemma_escape_has_no_markup(s: Seq<char>)
    ensures
        !escape_safe(s).contains('<'),
        !escape_safe(s).contains('"'),
    decreases s.len(),
{
    if s.len() > 0 {
        lemma_escape_has_no_markup(s.skip(1));
        let e = escape_char(s[0]);
        let rest = escape_safe(s.skip(1));
        assert(!e.contains('<') && !e.contains('"')) by {
            if e.contains('<') {
                let i = choose|i: int| 0 <= i < e.len() && e[i] == '<';
            }
            if e.contains('"') {
                let i = choose|i: int| 0 <= i < e.len() && e[i] == '"';
            }
        }
        assert forall|i: int| 0 <= i < (e + rest).len() implies (e + rest)[i] != '<' && (e
            + rest)[i] != '"' by {
            if i < e.len() {
                assert((e + rest)[i] == e[i]);
            } else {
                assert((e + rest)[i] == rest[i - e.len()]);
            }
        }
    }
}

} // verus!
