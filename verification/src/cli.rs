use vstd::prelude::*;

verus! {

/// The state of the ad hoc command-line flag parser: the flags the program
/// understands, and the flags that the command line actually selected, in
/// the order they were encountered. Scanning the raw arguments is left to
/// the surrounding program.
pub struct Cli<T> {
    pub possible_args: Vec<T>,
    pub final_args: Vec<T>,
}

impl<T> Cli<T> {
    /// Starts a parse over the given set of recognised flags, with nothing
    /// selected yet.
    pub fn new(a: Vec<T>) -> (c: Cli<T>)
        ensures
            c.possible_args == a,
            c.final_args@ == Seq::<T>::empty(),
    {
        Cli { possible_args: a, final_args: Vec::new() }
    }
}

} // verus!
