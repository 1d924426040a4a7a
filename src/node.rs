use vstd::prelude::*;
use uuid::Uuid;

verus! {

/// Declares `uuid::Uuid` so that identifiers can be carried through; nothing
/// inside one is read.
#[verifier::external_type_specification]
#[verifier::external_body]
pub struct ExUuid(Uuid);

/// Ties one runner invocation to the pipeline node that triggered it.
#[derive(Debug)]
pub struct NodeInfo {
    pub id: Uuid,
    pub node_id: Uuid,
    pub node_name: String,
    pub node_type: String,
}

} // verus!
