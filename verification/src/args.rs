//! The arguments that follow a command and its options.

use vstd::prelude::*;
use crate::optionvec::{lemma_spaced_pair, lemma_spaced_triple, spaced};

verus! {

/// No argument: the empty text.
pub fn none() -> (args: &'static str)
    ensures
        args@ == Seq::<char>::empty(),
{
    proof {
        reveal_strlit("");
    }
    ""
}

/// Two arguments, one space between them.
pub fn pair(first: &str, second: &str) -> (args: String)
    ensures
        args@ == spaced(seq![first@, second@]),
{
    let mut args = String::from_str(first);
    proof {
        reveal_strlit(" ");
        lemma_spaced_pair(first@, second@);
    }
    args.append(" ");
    args.append(second);
    args
}

/// Three arguments, one space between each two neighbours.
pub fn triple(first: &str, second: &str, third: &str) -> (args: String)
    ensures
        args@ == spaced(seq![first@, second@, third@]),
{
    let mut args = String::from_str(first);
    proof {
        reveal_strlit(" ");
        lemma_spaced_triple(first@, second@, third@);
    }
    args.append(" ");
    args.append(second);
    args.append(" ");
    args.append(third);
    args
}

} // verus!
