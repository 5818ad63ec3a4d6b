//! A minimal stand-in for the command-tree entity that payloads reference.
//!
//! The dispatcher never inspects a command beyond its identity; payloads
//! only carry one along to listeners. The model is therefore just the
//! command's name.
use vstd::prelude::*;

verus! {

/// A node of the program's command tree, as far as dispatch is concerned:
/// an entity identified by its name.
#[derive(Debug)]
pub struct Command {
    name: String,
}

impl View for Command {
    type V = Seq<char>;

    closed spec fn view(&self) -> Seq<char> {
        self.name@
    }
}

impl Clone for Command {
    fn clone(&self) -> (r: Self)
        ensures
            r@ == self@,
    {
        Command { name: self.name.clone() }
    }
}

impl Command {
    /// Makes a command with the given name.
    pub fn new(name: &str) -> (r: Self)
        ensures
            r@ == name@,
    {
        Command { name: name.to_owned() }
    }

    /// The command's name.
    pub fn name(&self) -> (r: &str)
        ensures
            r@ == self@,
    {
        self.name.as_str()
    }
}

} // verus!
