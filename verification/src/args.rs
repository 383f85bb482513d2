//! Recognition of command-line tokens.

use vstd::prelude::*;
use vstd::string::StringExecFns;
use crate::config::HIDDEN_FLAG;

verus! {

/// An argument list holds `token` when one of its elements is exactly `token`.
pub open spec fn has_token(args: Seq<Seq<char>>, token: Seq<char>) -> bool {
    args.contains(token)
}

/// An argument list asks for a hidden window when it holds the hidden flag.
pub open spec fn hidden_flag_present(args: Seq<Seq<char>>) -> bool {
    has_token(args, HIDDEN_FLAG@)
}

/// Tells whether one of `args` is exactly `token`.
pub fn contains_token(args: &[String], token: &str) -> (found: bool)
    ensures
        found == has_token(args.deep_view(), token@),
{
    let needle = String::from_str(token);
    let mut i: usize = 0;
    while i < args.len()
        invariant
            i <= args.len(),
            needle@ == token@,
            forall|j: int| 0 <= j < i ==> args.deep_view()[j] != token@,
        decreases args.len() - i,
    {
        if args[i] == needle {
            assert(args.deep_view()[i as int] == token@);
            return true;
        }
        i += 1;
    }
    false
}

/// Tells whether the hidden flag is among `args`.
pub fn hidden_requested(args: &[String]) -> (hidden: bool)
    ensures
        hidden == hidden_flag_present(args.deep_view()),
{
    contains_token(args, HIDDEN_FLAG)
}

/// Matching does not depend on the order of the arguments: two lists that
/// hold the same arguments, each as often as in the other, hold the same
/// tokens.
pub proof fn lemma_token_order_independent(
    left: Seq<Seq<char>>,
    right: Seq<Seq<char>>,
    token: Seq<char>,
)
    requires
        left.to_multiset() == right.to_multiset(),
    ensures
        has_token(left, token) == has_token(right, token),
{
    left.to_multiset_ensures();
    right.to_multiset_ensures();
    assert(left.contains(token) <==> left.to_multiset().count(token) > 0);
    assert(right.contains(token) <==> right.to_multiset().count(token) > 0);
}

/// A token is found wherever in the list it stands.
pub proof fn lemma_token_found_anywhere(
    before: Seq<Seq<char>>,
    after: Seq<Seq<char>>,
    token: Seq<char>,
)
    ensures
        has_token(before + seq![token] + after, token),
{
    let args = before + seq![token] + after;
    assert(args[before.len() as int] == token);
}

/// Only an argument that is the token, character for character, makes a
/// list hold it: one more argument changes the answer exactly when it is the
/// token itself.
pub proof fn lemma_token_is_exact(args: Seq<Seq<char>>, arg: Seq<char>, token: Seq<char>)
    ensures
        has_token(args.push(arg), token) == (has_token(args, token) || arg == token),
{
    let longer = args.push(arg);
    if has_token(args, token) {
        let i = choose|i: int| 0 <= i < args.len() && args[i] == token;
        assert(longer[i] == token);
    }
    if arg == token {
        assert(longer[args.len() as int] == token);
    }
    if has_token(longer, token) {
        let i = choose|i: int| 0 <= i < longer.len() && longer[i] == token;
        if i < args.len() {
            assert(args[i] == token);
        }
    }
}

/// An argument that goes on after the token, as an assignment to it does,
/// is not the token.
pub proof fn lemma_longer_argument_is_no_token(token: Seq<char>, rest: Seq<char>)
    requires
        rest.len() > 0,
    ensures
        !has_token(seq![token + rest], token),
{
    let args = seq![token + rest];
    if has_token(args, token) {
        let i = choose|i: int| 0 <= i < args.len() && args[i] == token;
        assert(args[i].len() == token.len() + rest.len());
    }
}

} // verus!
