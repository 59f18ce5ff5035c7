//! The channel-name wrapper handed to a streaming transport.

use vstd::prelude::*;

verus! {

/// A fully qualified subscription channel name: an opaque wrapper around a
/// single string value. Its view is the character sequence of that string,
/// and equality is value-based.
#[derive(Debug, Eq, Hash)]
pub struct Stream {
    name: String,
}

impl View for Stream {
    type V = Seq<char>;

    closed spec fn view(&self) -> Seq<char> {
        self.name@
    }
}

impl Stream {
    /// Wraps the given channel name.
    pub fn new(name: &str) -> (r: Self)
        ensures
            r@ == name@,
    {
        Stream { name: name.to_owned() }
    }

    /// The channel name as a string slice.
    pub fn as_str(&self) -> (r: &str)
        ensures
            r@ == self@,
    {
        self.name.as_str()
    }
}

impl PartialEq for Stream {
    /// Two channel names are equal exactly when their strings are equal.
    fn eq(&self, other: &Stream) -> (r: bool) {
        self.name.eq(&other.name)
    }
}

impl vstd::std_specs::cmp::PartialEqSpecImpl for Stream {
    open spec fn obeys_eq_spec() -> bool {
        true
    }

    open spec fn eq_spec(&self, other: &Stream) -> bool {
        self@ == other@
    }
}

} // verus!
