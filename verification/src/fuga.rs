//! A line of text that can be handed back with emphasis.

use vstd::prelude::*;
use vstd::string::StringExecFns;

verus! {

/// A piece of text.
pub struct Fuga {
    text: String,
}

impl View for Fuga {
    type V = Seq<char>;

    /// The characters held.
    closed spec fn view(&self) -> Seq<char> {
        self.text@
    }
}

impl Fuga {
    /// Holds `text` as it is.
    pub fn new(text: String) -> (r: Self)
        ensures
            r@ == text@,
    {
        Fuga { text }
    }

    /// The text held.
    pub fn text(&self) -> (r: &str)
        ensures
            r@ == self@,
    {
        self.text.as_str()
    }

    /// The text followed by one exclamation mark.
    pub fn add_exclamation(&self) -> (r: String)
        ensures
            r@ == self@.push('!'),
    {
        let r = self.text.clone().concat("!");
        proof {
            reveal_strlit("!");
            assert(r@ =~= self@.push('!'));
        }
        r
    }
}

} // verus!
