use vstd::prelude::*;

verus! {

/// Names the function of the sample plugin, which adds up the numbers that
/// its arguments encode.
#[derive(Debug, Clone)]
pub struct Add;

} // verus!
