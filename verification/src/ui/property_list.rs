use vstd::prelude::*;

verus! {

/// The toolkit's property list (only ever handled by address).
pub struct JkPropertyList;

} // verus!
