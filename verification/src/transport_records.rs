//! Records that the page hands to JavaScript and gets back, in bincode form.
use vstd::prelude::*;

verus! {

#[derive(Debug)]
pub struct DataIn {
    pub name: String,
}

#[derive(Debug)]
pub struct DataOut {
    pub name: String,
}

} // verus!
