//! The boundary to the discovery protocol engine.
//!
//! The engine, its keys, its records and its configuration are values of the
//! `discv5` crate. The library carries them through without looking inside,
//! and nothing is proved of the functions below: each names the function of
//! the engine that it calls.

use vstd::prelude::*;
use discv5::enr::CombinedKey;
use discv5::{Config, ConfigBuilder, Discv5, ListenConfig};

verus! {

/// The signing key of a record, `discv5::enr::CombinedKey`.
#[verifier::external_type_specification]
#[verifier::external_body]
pub struct ExCombinedKey(CombinedKey);

/// The failure of building a record, `discv5::enr::Error`.
#[verifier::external_type_specification]
#[verifier::external_body]
pub struct ExRecordError(discv5::enr::Error);

/// Where the engine listens, `discv5::ListenConfig`.
#[verifier::external_type_specification]
#[verifier::external_body]
pub struct ExListenConfig(ListenConfig);

/// The engine's configuration, `discv5::Config`.
#[verifier::external_type_specification]
#[verifier::external_body]
pub struct ExConfig(Config);

/// The discovery engine, `discv5::Discv5`.
#[verifier::external_type_specification]
#[verifier::external_body]
pub struct ExDiscv5(Discv5);

/// A signed identity record of the discovery protocol, `discv5::Enr`, kept
/// closed: the verifier does not take the record type's own declaration, and
/// the library never reads a signed record.
#[verifier::external_body]
pub(crate) struct SignedRecord {
    inner: discv5::Enr,
}

/// Draws a fresh secp256k1 signing key with `CombinedKey::generate_secp256k1`.
/// The key is random: nothing is claimed of it.
#[verifier::external_body]
pub(crate) fn generate_key() -> (key: CombinedKey) {
    CombinedKey::generate_secp256k1()
}

/// Builds and signs a record that holds `value` under the key `field`, with
/// `Enr::builder`, `Builder::add_value_rlp` and `Builder::build`. The builder
/// refuses a value that does not start with a well-formed header and a record
/// that grows too large; nothing is claimed of when it succeeds.
#[verifier::external_body]
pub(crate) fn sign_record(key: &CombinedKey, field: &str, value: Vec<u8>) -> (record: Result<
    SignedRecord,
    discv5::enr::Error,
>) {
    match discv5::Enr::builder().add_value_rlp(field, value.into()).build(key) {
        Ok(inner) => Ok(SignedRecord { inner }),
        Err(e) => Err(e),
    }
}

/// Names the IPv4 address and port to listen on, with `ListenConfig::from_ip`.
#[verifier::external_body]
pub(crate) fn listen_config(ip: [u8; 4], port: u16) -> (listen: ListenConfig) {
    ListenConfig::from_ip(ip.into(), port)
}

/// Makes the engine's default configuration for a listen address, with
/// `ConfigBuilder::new` and `ConfigBuilder::build`.
#[verifier::external_body]
pub(crate) fn engine_config(listen: ListenConfig) -> (config: Config) {
    ConfigBuilder::new(listen).build()
}

/// Constructs the engine with `Discv5::new`, which refuses a record that the
/// key did not sign. Nothing is claimed of when it succeeds.
#[verifier::external_body]
pub(crate) fn create_engine(record: SignedRecord, key: CombinedKey, config: Config) -> (engine:
    Result<Discv5, &'static str>) {
    Discv5::new(record.inner, key, config)
}

/// Reads a record from its text form with the record type's `FromStr`, which
/// checks the signature. `None` where the text holds no valid record.
#[verifier::external_body]
pub(crate) fn parse_record(text: &str) -> (record: Option<SignedRecord>) {
    match text.parse::<discv5::Enr>() {
        Ok(inner) => Some(SignedRecord { inner }),
        Err(_) => None,
    }
}

/// Offers a record to the engine's routing table with `Discv5::add_enr`, and
/// says whether the table took it. The table decides; nothing is claimed.
#[verifier::external_body]
pub(crate) fn register(engine: &Discv5, record: SignedRecord) -> (taken: bool) {
    engine.add_enr(record.inner).is_ok()
}

} // verus!
