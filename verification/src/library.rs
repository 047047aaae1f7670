use std::sync::Arc;
use vstd::prelude::*;

verus! {

/// `libloading::Library`: one dynamic module mapped into the process. Nothing
/// inside it is visible here; it is held and handed on, and the module is
/// unmapped when its last owner lets go.
#[verifier::external_type_specification]
#[verifier::external_body]
pub struct ExLibrary(libloading::Library);

/// `Arc::clone`: one more owner of what `shared` already owns with others.
/// The result points at the very same value; nothing is copied.
#[verifier::external_body]
pub(crate) fn share<T>(shared: &Arc<T>) -> (other: Arc<T>)
    ensures
        other == *shared,
{
    Arc::clone(shared)
}

} // verus!
