//! Generates an English greeting for a given subject.
//!
//! The greeting is the text `Hello, ` followed by the subject, verbatim, and a
//! closing `!`. The [`reply`] module decides what a command-line front end
//! writes for a parsed invocation.
use vstd::prelude::*;
use vstd::string::*;

pub mod reply;

verus! {

/// The text that opens every greeting: `Hello, `.
pub open spec fn greeting_prefix() -> Seq<char> {
    seq!['H', 'e', 'l', 'l', 'o', ',', ' ']
}

/// The text that closes every greeting: `!`.
pub open spec fn greeting_suffix() -> Seq<char> {
    seq!['!']
}

/// The greeting for `subject`: the prefix, the subject unchanged, the suffix.
pub open spec fn greeting_text(subject: Seq<char>) -> Seq<char> {
    greeting_prefix() + subject + greeting_suffix()
}

/// Generates a greeting for a given subject.
pub fn greeting(subject: &str) -> (r: String)
    ensures
        r@ == greeting_text(subject@),
{
    let mut text = String::from_str("Hello, ");
    text.append(subject);
    text.append("!");
    proof {
        reveal_strlit("Hello, ");
        reveal_strlit("!");
        assert(greeting_prefix() == "Hello, "@);
        assert(greeting_suffix() == "!"@);
    }
    text
}

/// The greeting depends on the subject alone: equal subjects give equal
/// greetings, so repeated calls with one subject return one text.
pub proof fn greeting_is_pure(s1: Seq<char>, s2: Seq<char>)
    requires
        s1 == s2,
    ensures
        greeting_text(s1) == greeting_text(s2),
{
}

/// The subject stands in its greeting verbatim: the greeting is exactly eight
/// characters longer, opens with `Hello, `, closes with `!`, and holds the
/// subject unchanged in between, whatever characters it contains.
pub proof fn greeting_keeps_subject(s: Seq<char>)
    ensures
        greeting_text(s).len() == s.len() + 8,
        greeting_text(s).subrange(0, 7) == greeting_prefix(),
        greeting_text(s).subrange(7, 7 + s.len() as int) == s,
        greeting_text(s)[7 + s.len() as int] == '!',
{
    let g = greeting_text(s);
    assert(g.subrange(0, 7) =~= greeting_prefix());
    assert(g.subrange(7, 7 + s.len() as int) =~= s);
}

} // verus!
