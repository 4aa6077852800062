//! The data that an outside caller hands to the api and gets back.
use vstd::prelude::*;

verus! {

#[derive(Debug)]
pub struct DataIn {
    pub data1: String,
    pub data2: String,
}

#[derive(Debug)]
pub struct DataOut {
    pub data_combined: String,
}

/// The two parts of the caller's data, joined.
pub fn data_in_transformed_to_data_out(data: DataIn) -> (out: DataOut)
    ensures
        out.data_combined@ == data.data1@ + data.data2@,
{
    let DataIn { data1, data2 } = data;
    let mut data_combined = data1;
    data_combined.append(data2.as_str());
    DataOut { data_combined }
}

} // verus!
