//! Tokenizing of a command line.
//!
//! A command line is a single string; it is split on single spaces into
//! tokens, the first token naming the program and the rest being its
//! arguments. The split is deliberately naive: there is no quoting or
//! escaping, and consecutive spaces produce empty tokens, exactly as
//! `str::split(' ')` would. An empty command line yields an empty program
//! name and no arguments.

use vstd::prelude::*;

verus! {

/// The tokens of `s`, with `acc` holding the characters of the token under
/// construction: scanning left to right, a space closes the current token
/// and starts a new one, and the end of the string closes the last token.
pub open spec fn spec_split_acc(s: Seq<char>, acc: Seq<char>) -> Seq<Seq<char>>
    decreases s.len(),
{
    if s.len() == 0 {
        seq![acc]
    } else if s[0] == ' ' {
        seq![acc] + spec_split_acc(s.skip(1), Seq::empty())
    } else {
        spec_split_acc(s.skip(1), acc.push(s[0]))
    }
}

/// The tokens of the command line `s`: the pieces between single spaces,
/// in order, empty pieces included. There is always at least one token.
pub open spec fn spec_tokens(s: Seq<char>) -> Seq<Seq<char>> {
    spec_split_acc(s, Seq::empty())
}

/// The program name of the command line `s`: its first token.
pub open spec fn spec_program(s: Seq<char>) -> Seq<char> {
    spec_tokens(s)[0]
}

/// The arguments of the command line `s`: every token but the first.
pub open spec fn spec_args(s: Seq<char>) -> Seq<Seq<char>> {
    spec_tokens(s).skip(1)
}

/// Splitting always yields at least one token.
pub proof fn lemma_split_acc_len(s: Seq<char>, acc: Seq<char>)
    ensures
        spec_split_acc(s, acc).len() >= 1,
    decreases s.len(),
{
    if s.len() == 0 {
    } else if s[0] == ' ' {
        lemma_split_acc_len(s.skip(1), Seq::empty());
    } else {
        lemma_split_acc_len(s.skip(1), acc.push(s[0]));
    }
}

/// An empty command line has exactly one token, the empty program name.
pub proof fn lemma_empty_command(s: Seq<char>)
    requires
        s.len() == 0,
    ensures
        spec_tokens(s) =~= seq![Seq::<char>::empty()],
        spec_program(s) == Seq::<char>::empty(),
        spec_args(s) =~= Seq::<Seq<char>>::empty(),
{
    assert(s =~= Seq::<char>::empty());
}

/// Split a command line into its program name and its arguments.
pub fn split_command(command: &str) -> (r: (String, Vec<String>))
    ensures
        r.0@ == spec_program(command@),
        r.1.deep_view() == spec_args(command@),
{
    let ghost s: Seq<char> = command@;
    let n: usize = command.unicode_len();
    let mut tokens: Vec<String> = Vec::new();
    let mut start: usize = 0;
    let mut i: usize = 0;
    proof {
        assert(s.skip(0) =~= s);
        assert(s.subrange(0, 0) =~= Seq::<char>::empty());
        assert(tokens.deep_view() =~= Seq::<Seq<char>>::empty());
        assert(tokens.deep_view() + spec_split_acc(s, Seq::empty()) =~= spec_tokens(s));
    }
    while i < n
        invariant
            n == s.len(),
            0 <= start <= i <= n,
            command@ == s,
            spec_tokens(s) == tokens.deep_view() + spec_split_acc(
                s.skip(i as int),
                s.subrange(start as int, i as int),
            ),
        decreases n - i,
    {
        let c = command.get_char(i);
        proof {
            assert(s.skip(i as int)[0] == s[i as int]);
            assert(s.skip(i as int).skip(1) =~= s.skip(i as int + 1));
        }
        if c == ' ' {
            let token = command.substring_char(start, i).to_owned();
            let ghost old_tokens = tokens.deep_view();
            tokens.push(token);
            proof {
                assert(tokens.deep_view() =~= old_tokens.push(s.subrange(
                    start as int,
                    i as int,
                )));
                assert(s.subrange(i as int + 1, i as int + 1) =~= Seq::<char>::empty());
            }
            start = i + 1;
        } else {
            proof {
                assert(s.subrange(start as int, i as int + 1) =~= s.subrange(
                    start as int,
                    i as int,
                ).push(s[i as int]));
            }
        }
        i += 1;
    }
    let last = command.substring_char(start, n).to_owned();
    let ghost old_tokens = tokens.deep_view();
    tokens.push(last);
    proof {
        assert(s.skip(n as int) =~= Seq::<char>::empty());
        assert(tokens.deep_view() =~= old_tokens.push(s.subrange(start as int, n as int)));
        assert(tokens.deep_view() =~= spec_tokens(s));
        lemma_split_acc_len(s, Seq::empty());
        assert(tokens.deep_view().len() == tokens@.len());
    }
    let program = tokens.remove(0);
    proof {
        assert(tokens.deep_view() =~= spec_tokens(s).skip(1));
    }
    (program, tokens)
}

} // verus!
