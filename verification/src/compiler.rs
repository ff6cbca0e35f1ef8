//! A named compilation unit. The library's part ends at translation: writing
//! the translated text to disk and invoking a target-language toolchain on
//! it is an outside collaborator's job.

use vstd::prelude::*;

verus! {

/// A program under compilation, known by the name its artifacts will carry.
pub struct Program {
    name: String,
}

impl View for Program {
    type V = Seq<char>;

    closed spec fn view(&self) -> Seq<char> {
        self.name@
    }
}

impl Program {
    /// Makes a program that will carry the given name.
    pub fn new(name: &str) -> (p: Program)
        ensures
            p@ == name@,
    {
        Program { name: name.to_owned() }
    }

    /// The name this program was made with.
    pub fn name(&self) -> (r: &String)
        ensures
            r@ == self@,
    {
        &self.name
    }
}

impl Default for Program {
    /// An unnamed program.
    fn default() -> (p: Program)
        ensures
            p@ == Seq::<char>::empty(),
    {
        Program { name: String::new() }
    }
}

} // verus!
