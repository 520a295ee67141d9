//! Escaping of text for Telegram's MarkdownV2 parse mode.

use vstd::prelude::*;
use crate::text::{chars_of, push_char};

verus! {

/// The characters that are preceded by a backslash when text is escaped.
pub open spec fn is_md_special(c: char) -> bool {
    ||| c == '[' || c == ']' || c == '(' || c == ')'
    ||| c == '~' || c == '`' || c == '>' || c == '#'
    ||| c == '+' || c == '-' || c == '=' || c == '|'
    ||| c == '{' || c == '}' || c == '.' || c == '!'
}

/// What one character becomes once escaped.
pub open spec fn escape_char(c: char) -> Seq<char> {
    if is_md_special(c) {
        seq!['\\', c]
    } else {
        seq![c]
    }
}

/// The escaped form of a whole text: each character escaped in turn.
pub open spec fn escape_md_spec(s: Seq<char>) -> Seq<char>
    decreases s.len(),
{
    if s.len() == 0 {
        Seq::empty()
    } else {
        escape_md_spec(s.drop_last()) + escape_char(s.last())
    }
}

fn is_special(c: char) -> (b: bool)
    ensures
        b == is_md_special(c),
{
    c == '[' || c == ']' || c == '(' || c == ')' || c == '~' || c == '`' || c == '>' || c == '#'
        || c == '+' || c == '-' || c == '=' || c == '|' || c == '{' || c == '}' || c == '.'
        || c == '!'
}

/// Escapes `input` for MarkdownV2: every special character gets a
/// backslash in front of it, every other character is kept.
pub fn escape_md(input: &str) -> (out: String)
    ensures
        out@ == escape_md_spec(input@),
{
    let chars = chars_of(input);
    let mut out = String::new();
    let mut i: usize = 0;
    while i < chars.len()
        invariant
            i <= chars.len(),
            chars@ == input@,
            out@ == escape_md_spec(chars@.take(i as int)),
        decreases chars.len() - i,
    {
        let c = chars[i];
        proof {
            assert(chars@.take(i + 1).drop_last() == chars@.take(i as int));
        }
        if is_special(c) {
            push_char(&mut out, '\\');
        }
        push_char(&mut out, c);
        i = i + 1;
    }
    proof {
        assert(chars@.take(chars@.len() as int) == chars@);
    }
    out
}

proof fn lemma_escape_len(s: Seq<char>)
    ensures
        escape_md_spec(s).len() >= s.len(),
        s.len() == 0 <==> escape_md_spec(s).len() == 0,
        s.len() > 0 ==> escape_md_spec(s).last() == s.last(),
    decreases s.len(),
{
    if s.len() > 0 {
        lemma_escape_len(s.drop_last());
    }
}

/// Escaping loses nothing: two texts with the same escaped form are the
/// same text.
pub proof fn lemma_escape_md_injective(a: Seq<char>, b: Seq<char>)
    requires
        escape_md_spec(a) == escape_md_spec(b),
    ensures
        a == b,
    decreases a.len(),
{
    lemma_escape_len(a);
    lemma_escape_len(b);
    if a.len() > 0 && b.len() > 0 {
        let ea = escape_md_spec(a);
        assert(a.last() == b.last());
        let x = a.last();
        let ec = escape_char(x);
        let pa = escape_md_spec(a.drop_last());
        let pb = escape_md_spec(b.drop_last());
        assert(ea == pa + ec);
        assert(ea == pb + ec);
        assert(pa =~= ea.take(ea.len() - ec.len()));
        assert(pb =~= ea.take(ea.len() - ec.len()));
        lemma_escape_md_injective(a.drop_last(), b.drop_last());
        assert(a =~= a.drop_last().push(x));
        assert(b =~= b.drop_last().push(x));
    }
}

/// A text without special characters is sent as it is.
pub proof fn lemma_escape_md_plain(s: Seq<char>)
    requires
        forall|i: int| 0 <= i < s.len() ==> !is_md_special(#[trigger] s[i]),
    ensures
        escape_md_spec(s) == s,
    decreases s.len(),
{
    if s.len() > 0 {
        assert forall|i: int| 0 <= i < s.drop_last().len() implies !is_md_special(
            #[trigger] s.drop_last()[i],
        ) by {
            assert(s.drop_last()[i] == s[i]);
        }
        lemma_escape_md_plain(s.drop_last());
        assert(s =~= s.drop_last().push(s.last()));
    }
}

/// Escaping works character by character: the escaped form of two texts
/// put together is the two escaped forms put together.
pub proof fn lemma_escape_md_concat(a: Seq<char>, b: Seq<char>)
    ensures
        escape_md_spec(a + b) == escape_md_spec(a) + escape_md_spec(b),
    decreases b.len(),
{
    if b.len() == 0 {
        assert(a + b =~= a);
        assert(escape_md_spec(a) + escape_md_spec(b) =~= escape_md_spec(a));
    } else {
        lemma_escape_md_concat(a, b.drop_last());
        assert((a + b).drop_last() =~= a + b.drop_last());
        assert((a + b).last() == b.last());
        assert(escape_md_spec(a + b) =~= escape_md_spec(a) + escape_md_spec(b));
    }
}

/// The escaped form of one character: a backslash then the character for
/// each of `[ ] ( ) ~ ` ` > # + - = | { } . !`, the character alone for
/// every other one (`_` and `*` among them).
pub proof fn lemma_escape_md_one(c: char)
    ensures
        escape_md_spec(seq![c]) == if c == '[' || c == ']' || c == '(' || c == ')' || c == '~'
            || c == '`' || c == '>' || c == '#' || c == '+' || c == '-' || c == '=' || c == '|'
            || c == '{' || c == '}' || c == '.' || c == '!' {
            seq!['\\', c]
        } else {
            seq![c]
        },
{
    let s = seq![c];
    assert(s.drop_last() =~= Seq::<char>::empty());
    assert(escape_md_spec(s.drop_last()) == Seq::<char>::empty());
    assert(s.last() == c);
    assert(escape_md_spec(s) =~= escape_char(c));
}

} // verus!
