use vstd::prelude::*;

verus! {

#[verifier::external_type_specification]
#[verifier::external_body]
pub struct ExUuid(uuid::Uuid);

/// Something of the hub that bears a unique identifier.
pub trait RHomeObject {
    /// The object's identifier.
    fn id(&self) -> uuid::Uuid;
}

} // verus!
