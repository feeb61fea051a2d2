//! The failures that stop the network from starting.
//!
//! Failures while the loops run (a lookup that fails, a record that is no
//! peer, a consumer that went away) are contained where they arise and have
//! no value here.

use vstd::prelude::*;

verus! {

/// A setting that a builder needs before it can build.
#[derive(Clone, Copy, Debug, PartialEq, Eq, Structural)]
pub enum Setting {
    /// The listen address.
    Address,
    /// The chain identifier of the network.
    ChainId,
    /// The gossip transport.
    Gossip,
    /// The discovery driver.
    Discovery,
}

/// A step of bringing the protocols up.
#[derive(Clone, Copy, Debug, PartialEq, Eq, Structural)]
pub enum InitStep {
    /// Signing the local identity record.
    Record,
    /// Constructing the discovery engine.
    Engine,
    /// Starting the gossip transport's listener.
    Listener,
}

/// Why building or starting failed.
#[derive(Clone, Copy, Debug, PartialEq, Eq, Structural)]
pub enum NetworkError {
    /// A required setting is missing.
    Configuration(Setting),
    /// A protocol could not be constructed or started.
    ProtocolInit(InitStep),
}

impl NetworkError {
    /// The text of each failure.
    pub open spec fn text(self) -> Seq<char> {
        match self {
            NetworkError::Configuration(Setting::Address) => "address not set"@,
            NetworkError::Configuration(Setting::ChainId) => "chain ID not set"@,
            NetworkError::Configuration(Setting::Gossip) => "gossip transport not set"@,
            NetworkError::Configuration(Setting::Discovery) => "discovery driver not set"@,
            NetworkError::ProtocolInit(InitStep::Record) => "could not sign identity record"@,
            NetworkError::ProtocolInit(InitStep::Engine) => "could not create disc service"@,
            NetworkError::ProtocolInit(InitStep::Listener) => "could not start gossip listener"@,
        }
    }

    /// Describes the failure in words.
    pub fn message(&self) -> (text: &'static str)
        ensures
            text@ == self.text(),
    {
        match self {
            NetworkError::Configuration(Setting::Address) => "address not set",
            NetworkError::Configuration(Setting::ChainId) => "chain ID not set",
            NetworkError::Configuration(Setting::Gossip) => "gossip transport not set",
            NetworkError::Configuration(Setting::Discovery) => "discovery driver not set",
            NetworkError::ProtocolInit(InitStep::Record) => "could not sign identity record",
            NetworkError::ProtocolInit(InitStep::Engine) => "could not create disc service",
            NetworkError::ProtocolInit(InitStep::Listener) => "could not start gossip listener",
        }
    }
}

} // verus!
