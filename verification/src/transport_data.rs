//! A value that the page hands to JavaScript and gets back, in bincode form.
use vstd::prelude::*;

verus! {

#[derive(Debug)]
pub enum Data {
    Data1In { name: String },
    Data1Out { name: String },
}

} // verus!
