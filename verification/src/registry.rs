//! The command registry and raw command-line splitting.
//!
//! Dispatching to the task, prep and blog handlers and spawning raw
//! commands is I/O and stays in the surrounding application; the splitting
//! of a raw command line into a program and its arguments is verified
//! here.

use vstd::prelude::*;
use crate::text::{split_sep, views_of};

verus! {

/// Registry of the command handlers.
#[derive(Clone, Debug)]
pub struct CommandRegistry {
}

/// `v` without its empty sequences.
pub open spec fn drop_empty(v: Seq<Seq<char>>) -> Seq<Seq<char>> {
    v.filter(|p: Seq<char>| p.len() > 0)
}

/// The whitespace-separated words of `s`, splitting at spaces; empty
/// pieces from repeated spaces are dropped.
pub open spec fn words_of(s: Seq<char>) -> Seq<Seq<char>> {
    drop_empty(split_sep(s, ' '))
}

impl CommandRegistry {
    pub fn new() -> Self {
        CommandRegistry {  }
    }

    /// Split a raw command line into the program and its arguments, or
    /// nothing when the line holds no word at all.
    pub fn parse_raw_command(&self, command_str: &str) -> (r: Option<(String, Vec<String>)>)
        ensures
            match r {
                Some(parts) => words_of(command_str@).len() > 0 && parts.0@ == words_of(
                    command_str@,
                )[0] && views_of(parts.1@) == words_of(command_str@).drop_first(),
                None => words_of(command_str@).len() == 0,
            },
    {
        let pieces = crate::text::split_on(command_str, ' ');
        let ghost vs = views_of(pieces@);
        let ghost pred = |p: Seq<char>| p.len() > 0;
        let mut words: Vec<String> = Vec::new();
        let mut i: usize = 0;
        proof {
            reveal(Seq::filter);
            assert(vs.take(0) =~= Seq::<Seq<char>>::empty());
            assert(views_of(words@) =~= vs.take(0).filter(pred));
        }
        while i < pieces.len()
            invariant
                vs == views_of(pieces@),
                pred == (|p: Seq<char>| p.len() > 0),
                0 <= i <= vs.len(),
                views_of(words@) == vs.take(i as int).filter(pred),
            decreases vs.len() - i,
        {
            proof {
                assert(vs.take(i + 1) =~= vs.take(i as int).push(vs[i as int]));
                vs.take(i as int).lemma_filter_push(vs[i as int], pred);
            }
            if pieces[i].as_str().unicode_len() > 0 {
                words.push(pieces[i].clone());
                proof {
                    assert(views_of(words@) =~= views_of(words@.drop_last()).push(
                        vs[i as int],
                    ));
                }
            }
            i = i + 1;
        }
        proof {
            assert(vs.take(vs.len() as int) =~= vs);
        }
        if words.len() == 0 {
            return None;
        }
        let first = words[0].clone();
        let mut args = words;
        args.remove(0);
        proof {
            assert(views_of(args@) =~= words_of(command_str@).drop_first());
        }
        Some((first, args))
    }
}

impl Default for CommandRegistry {
    fn default() -> Self {
        CommandRegistry::new()
    }
}

} // verus!
