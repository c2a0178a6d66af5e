//! Property keys.

use crate::text::{precedes, str_precedes};
use vstd::prelude::*;
use vstd::std_specs::cmp::PartialEqSpecImpl;
use vstd::string::*;

verus! {

/// The name of a property. Keys are ordered as their names are, in
/// dictionary order.
#[derive(Debug, Eq, Hash)]
pub struct Key {
    name: String,
}

impl View for Key {
    type V = Seq<char>;

    closed spec fn view(&self) -> Seq<char> {
        self.name@
    }
}

impl Key {
    /// The key named `name`.
    pub fn new(name: &str) -> (key: Key)
        ensures
            key@ == name@,
    {
        Key { name: String::from_str(name) }
    }

    /// The key's name.
    pub fn str(&self) -> (name: &str)
        ensures
            name@ == self@,
    {
        self.name.as_str()
    }

    /// Whether this key comes strictly before `other`.
    pub fn precedes(&self, other: &Key) -> (r: bool)
        ensures
            r == precedes(self@, other@),
    {
        str_precedes(self.name.as_str(), other.name.as_str())
    }

    /// The key's name as an owned string.
    pub fn to_string(&self) -> (s: String)
        ensures
            s@ == self@,
    {
        self.name.clone()
    }
}

impl Clone for Key {
    fn clone(&self) -> (key: Key)
        ensures
            key@ == self@,
    {
        Key { name: self.name.clone() }
    }
}

impl PartialEq for Key {
    fn eq(&self, other: &Key) -> (r: bool) {
        self.name == other.name
    }
}

impl PartialEqSpecImpl for Key {
    open spec fn obeys_eq_spec() -> bool {
        true
    }

    open spec fn eq_spec(&self, other: &Key) -> bool {
        self@ == other@
    }
}

} // verus!
