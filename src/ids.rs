//! The fixed identifiers of the Nimbus consensus engine.
use vstd::prelude::*;
use sp_application_crypto::KeyTypeId;
use sp_runtime::ConsensusEngineId;

verus! {

/// Relies on sp_core's `KeyTypeId`, re-exported by sp_application_crypto: a
/// tuple struct whose one public field holds the four bytes of the key type.
#[verifier::external_type_specification]
pub struct ExKeyTypeId(KeyTypeId);

/// The consensus engine identifier of Nimbus, the same whatever filters are installed.
pub const ENGINE_ID: ConsensusEngineId = [110u8, 109u8, 98u8, 115u8];

/// The bytes of the key type under which Nimbus keys are kept in a keystore.
pub const NIMBUS_KEY_TYPE: [u8; 4] = [110u8, 109u8, 98u8, 115u8];

/// The four ASCII bytes `nmbs`.
pub open spec fn nmbs() -> Seq<u8> {
    seq![110u8, 109u8, 98u8, 115u8]
}

/// Both identifiers are the fixed bytes `nmbs`.
pub proof fn lemma_identifiers_fixed()
    ensures
        ENGINE_ID@ == nmbs(),
        NIMBUS_KEY_TYPE@ == nmbs(),
{
    assert(ENGINE_ID@ =~= nmbs());
    assert(NIMBUS_KEY_TYPE@ =~= nmbs());
}

/// The key type identifier used by Nimbus regardless of the filters in place.
pub fn nimbus_key_id() -> (r: KeyTypeId)
    ensures
        r.0@ == nmbs(),
{
    proof {
        lemma_identifiers_fixed();
    }
    KeyTypeId(NIMBUS_KEY_TYPE)
}

} // verus!
