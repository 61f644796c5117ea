//! A person's name, split into its parts.

use vstd::prelude::*;

verus! {

/// First and last name of a person.
#[derive(Clone, Debug)]
pub struct FullName {
    pub first_name: String,
    pub last_name: String,
}

impl FullName {
    /// Bundle the two parts of a name.
    pub fn new(first_name: String, last_name: String) -> (r: FullName)
        ensures
            r.first_name == first_name,
            r.last_name == last_name,
    {
        FullName { first_name, last_name }
    }
}

} // verus!
