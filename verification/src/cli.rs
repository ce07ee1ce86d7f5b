//! The command line, as far as the options and the action are told apart.

use vstd::prelude::*;
use vstd::string::*;

verus! {

/// Whether the command line argument `arg` is an option: it begins with `-`.
pub open spec fn is_option(arg: Seq<char>) -> bool {
    arg.len() > 0 && arg[0] == '-'
}

/// Whether the action stands at the place `at` of the command line `args`: it
/// is the first argument behind the program's name that is no option.
pub open spec fn is_action_at(args: Seq<Seq<char>>, at: int) -> bool {
    &&& 1 <= at < args.len()
    &&& !is_option(args[at])
    &&& forall|i: int| 1 <= i < at ==> is_option(#[trigger] args[i])
}

/// Whether the command line `args` names no action: every argument behind the
/// program's name is an option.
pub open spec fn has_no_action(args: Seq<Seq<char>>) -> bool {
    forall|i: int| 1 <= i < args.len() ==> is_option(#[trigger] args[i])
}

/// Whether the command line argument `arg` is an option.
pub fn is_option_argument(arg: &str) -> (option: bool)
    ensures
        option == is_option(arg@),
{
    !arg.is_empty() && arg.get_char(0) == '-'
}

/// The place of the action on the command line `args`, if it names one.
pub fn find_action(args: &Vec<String>) -> (found: Option<usize>)
    ensures
        match found {
            Some(at) => is_action_at(args.deep_view(), at as int),
            None => has_no_action(args.deep_view()),
        },
{
    let mut at: usize = 1;
    while at < args.len()
        invariant
            1 <= at,
            forall|i: int|
                1 <= i < at && i < args.len() ==> is_option(#[trigger] args.deep_view()[i]),
        decreases args.len() - at,
    {
        if !is_option_argument(args[at].as_str()) {
            return Some(at);
        }
        at += 1;
    }
    None
}

/// The options among the arguments `args`, in their order.
pub fn option_arguments(args: &Vec<String>) -> (options: Vec<String>)
    ensures
        options.deep_view() == args.deep_view().filter(|arg: Seq<char>| is_option(arg)),
{
    let ghost all = args.deep_view();
    let ghost wanted = |arg: Seq<char>| is_option(arg);
    let mut options: Vec<String> = Vec::new();
    let mut at: usize = 0;
    while at < args.len()
        invariant
            at <= args.len(),
            all == args.deep_view(),
            wanted == |arg: Seq<char>| is_option(arg),
            options.deep_view() == all.take(at as int).filter(wanted),
        decreases args.len() - at,
    {
        proof {
            reveal(Seq::filter);
            assert(all.take(at + 1).drop_last() =~= all.take(at as int));
        }
        if is_option_argument(args[at].as_str()) {
            options.push(args[at].clone());
        }
        at += 1;
    }
    assert(all.take(at as int) =~= all);
    options
}

} // verus!
