//! The launch-argument scanner.
//!
//! Run once at process start, over the argument list the OS handed the
//! process (the program name already dropped), it picks out the first
//! argument that names a supported model file.  Absence of a match is
//! no error: most launches carry no model file at all.

use vstd::prelude::*;

use crate::model_path::is_supported_model_path;
use crate::model_path::is_supported_model_path_spec;

verus! {

/// The first entry of `args` that names a supported model file, in the
/// list's own order; `None` when no entry does.
pub open spec fn first_supported(args: Seq<Seq<char>>) -> Option<Seq<char>>
    decreases args.len(),
{
    if args.len() == 0 {
        None
    } else if is_supported_model_path_spec(args[0]) {
        Some(args[0])
    } else {
        first_supported(args.drop_first())
    }
}

/// The startup file among the launch arguments: the first one that
/// names a supported model file, if any does.
pub fn startup_file_from_args(args: &Vec<String>) -> (r: Option<String>)
    ensures
        r.deep_view() == first_supported(args.deep_view()),
{
    let ghost all = args.deep_view();
    let n = args.len();
    let mut i: usize = 0;
    proof {
        assert(all.skip(0) =~= all);
    }
    while i < n
        invariant
            i <= n,
            n == args.len(),
            all == args.deep_view(),
            first_supported(all) == first_supported(all.skip(i as int)),
        decreases n - i,
    {
        if is_supported_model_path(args[i].as_str()) {
            return Some(args[i].clone());
        }
        proof {
            assert(all.skip(i as int).drop_first() =~= all.skip(i + 1));
        }
        i = i + 1;
    }
    proof {
        assert(all.skip(n as int) =~= Seq::<Seq<char>>::empty());
    }
    None
}

/// A list without a single supported entry scans to absence.
pub proof fn lemma_scanner_absent(args: Seq<Seq<char>>)
    requires
        forall|j: int| 0 <= j < args.len() ==> !is_supported_model_path_spec(#[trigger] args[j]),
    ensures
        first_supported(args) is None,
    decreases args.len(),
{
    if args.len() > 0 {
        assert forall|j: int|
            0 <= j < args.drop_first().len() implies !is_supported_model_path_spec(
            #[trigger] args.drop_first()[j],
        ) by {
            assert(args.drop_first()[j] == args[j + 1]);
        }
        lemma_scanner_absent(args.drop_first());
    }
}

/// Among several supported entries the scanner yields the first in the
/// list's order: a supported entry preceded by none scans to itself.
pub proof fn lemma_scanner_takes_first(args: Seq<Seq<char>>, i: int)
    requires
        0 <= i < args.len(),
        is_supported_model_path_spec(args[i]),
        forall|j: int| 0 <= j < i ==> !is_supported_model_path_spec(#[trigger] args[j]),
    ensures
        first_supported(args) == Some(args[i]),
    decreases args.len(),
{
    if i > 0 {
        assert forall|j: int| 0 <= j < i - 1 implies !is_supported_model_path_spec(
            #[trigger] args.drop_first()[j],
        ) by {
            assert(args.drop_first()[j] == args[j + 1]);
        }
        lemma_scanner_takes_first(args.drop_first(), i - 1);
    }
}

/// A list with exactly one supported entry, wherever it stands and
/// whatever surrounds it, scans to that entry.
pub proof fn lemma_scanner_sole_match(args: Seq<Seq<char>>, i: int)
    requires
        0 <= i < args.len(),
        is_supported_model_path_spec(args[i]),
        forall|j: int|
            0 <= j < args.len() && j != i ==> !is_supported_model_path_spec(#[trigger] args[j]),
    ensures
        first_supported(args) == Some(args[i]),
{
    lemma_scanner_takes_first(args, i);
}

} // verus!
