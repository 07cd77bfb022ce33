//! A greeting for a person, by name.

use crate::text::{lemma_occurs_between, occurs_in};
use vstd::prelude::*;
use vstd::string::*;

verus! {

/// Greets `name`: the text is `Hello, ` followed by the name as it was given.
pub fn greeting(name: &str) -> (text: String)
    ensures
        text@ == "Hello, "@ + name@,
        occurs_in(name@, text@),
{
    let mut text = String::from_str("Hello, ");
    text.append(name);
    proof {
        assert(text@ =~= "Hello, "@ + name@ + Seq::empty());
        lemma_occurs_between("Hello, "@, name@, Seq::empty());
    }
    text
}

} // verus!
