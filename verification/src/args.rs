use vstd::prelude::*;

verus! {

/// The single parsed command-line input: the path the caller supplied.
pub struct Invocation {
    pub path: String,
}

/// What argument acquisition decides: reject the argument list, or run on a path.
pub enum ArgsOutcome {
    /// The argument list is malformed: report usage and stop without touching
    /// the filesystem (the outcome carries no path, so there is nothing to check).
    Usage,
    /// Exactly one positional argument was supplied: run on it.
    Run(Invocation),
}

/// Decides what to do with the positional arguments of an invocation:
/// exactly one is accepted as the target path, any other count is a usage error.
pub fn acquire(positionals: Vec<String>) -> (r: ArgsOutcome)
    ensures
        positionals@.len() == 1 ==> (r matches ArgsOutcome::Run(inv) && inv.path@
            == positionals@[0]@),
        positionals@.len() != 1 ==> r is Usage,
{
    let mut positionals = positionals;
    if positionals.len() == 1 {
        let path = positionals.pop().unwrap();
        ArgsOutcome::Run(Invocation { path })
    } else {
        ArgsOutcome::Usage
    }
}

} // verus!
