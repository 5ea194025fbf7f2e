use vstd::prelude::*;

verus! {

/// A rendered depth image: `width * height` depths in millimetres, row by
/// row.
pub struct ImageData {
    pub data: Vec<u16>,
    pub width: u32,
    pub height: u32,
}

} // verus!
