//! The parts of the Kafka client library that the logic relies on.
use rdkafka::error::RDKafkaErrorCode;
use rdkafka::ClientConfig;
use vstd::prelude::*;

use crate::numeral::decimal_text;

verus! {

/// A client configuration: a map from parameter names to values.
#[verifier::external_type_specification]
#[verifier::external_body]
pub struct ExClientConfig(ClientConfig);

/// An error code reported by the broker for one item of a request.
#[verifier::external_type_specification]
#[verifier::external_body]
pub struct ExRDKafkaErrorCode(RDKafkaErrorCode);

/// The parameters that a client configuration holds.
pub uninterp spec fn client_config_entries(c: ClientConfig) -> Map<Seq<char>, Seq<char>>;

/// A configuration in which no parameter is set.
pub open spec fn no_params() -> Map<Seq<char>, Seq<char>> {
    Map::empty()
}

/// Relies on `ClientConfig::new`: the new configuration holds no parameter.
#[verifier::external_body]
pub(crate) fn empty_client_config() -> (r: ClientConfig)
    ensures
        client_config_entries(r) == no_params(),
{
    ClientConfig::new()
}

/// Relies on `ClientConfig::set`: stores `value` under `key`, replacing any
/// value that was there, and leaves the other parameters alone.
#[verifier::external_body]
pub(crate) fn set_client_param(c: &mut ClientConfig, key: &str, value: &str)
    ensures
        client_config_entries(*final(c)) == client_config_entries(*old(c)).insert(key@, value@),
{
    c.set(key, value);
}

/// Relies on `u32::to_string` (the `Display` impl of `u32`): decimal digits,
/// no sign, no leading zeros.
#[verifier::external_body]
pub(crate) fn u32_text(n: u32) -> (r: String)
    ensures
        r@ == decimal_text(n as nat),
{
    n.to_string()
}

} // verus!
