//! State that the page keeps alive between calls.
use vstd::prelude::*;

verus! {

pub struct LiveForever {
    data: String,
}

impl LiveForever {
    /// The data held, as a string.
    pub closed spec fn data(&self) -> Seq<char> {
        self.data@
    }

    pub fn new(initial: String) -> (l: LiveForever)
        ensures
            l.data() == initial@,
    {
        LiveForever { data: initial }
    }

    pub fn get_data(&self) -> (d: String)
        ensures
            d@ == self.data(),
    {
        self.data.clone()
    }

    pub fn change_data(&mut self, new_data: String)
        ensures
            final(self).data() == new_data@,
    {
        self.data = new_data;
    }
}

} // verus!
