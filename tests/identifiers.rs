use nimbus_primitives::{nimbus_key_id, ENGINE_ID, NIMBUS_KEY_TYPE};
use sp_application_crypto::KeyTypeId;

#[test]
fn engine_id_is_nmbs() {
    assert_eq!(ENGINE_ID, *b"nmbs");
    assert_eq!(ENGINE_ID, [0x6e, 0x6d, 0x62, 0x73]);
}

#[test]
fn key_type_is_nmbs() {
    assert_eq!(NIMBUS_KEY_TYPE, *b"nmbs");
    assert_eq!(nimbus_key_id(), KeyTypeId(*b"nmbs"));
    assert_eq!(nimbus_key_id(), nimbus_key_id());
}
