use vstd::prelude::*;

verus! {

/// The toolkit's property box (only ever handled by address).
pub struct JkPropertyBox;

} // verus!
