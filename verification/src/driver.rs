//! Driver for network services.
//!
//! The network driver owns the discovery driver and the handle of the gossip
//! transport, and keeps two channel endpoints for whoever consumes the
//! network: the receiver of unsafe blocks and the sender of unsafe block
//! signer updates. Each endpoint can be taken once, before the driver
//! starts. The driver never looks at the transport or at an endpoint: their
//! types are the caller's.

use vstd::prelude::*;
use crate::discovery::{DiscoveryDriver, StartedDiscovery};
use crate::error::{NetworkError, Setting};
use crate::task::DiscoveryTask;

verus! {

/// Contains the logic to run the consensus-layer networking stack: block
/// gossip through the transport `G`, and peer discovery.
pub struct NetworkDriver<G, R, S> {
    /// Channel to receive unsafe blocks.
    pub(crate) unsafe_block_recv: Option<R>,
    /// Channel to send unsafe signer updates.
    pub(crate) unsafe_block_signer_sender: Option<S>,
    /// The gossip transport.
    pub gossip: G,
    /// The discovery service driver.
    pub discovery: DiscoveryDriver,
}

/// What starting the network hands to whoever runs it.
pub struct StartedNetwork<G> {
    /// The gossip transport, for the event loop.
    pub gossip: G,
    /// The started discovery service.
    pub discovery: StartedDiscovery,
}

/// Collects the parts of a [`NetworkDriver`].
pub struct NetworkDriverBuilder<G, R, S> {
    gossip: Option<G>,
    discovery: Option<DiscoveryDriver>,
    unsafe_block_recv: Option<R>,
    unsafe_block_signer_sender: Option<S>,
}

impl<G, R, S> NetworkDriverBuilder<G, R, S> {
    /// The gossip transport that was set, if any.
    pub closed spec fn configured_gossip(&self) -> Option<G> {
        self.gossip
    }

    /// The discovery driver that was set, if any.
    pub closed spec fn configured_discovery(&self) -> Option<DiscoveryDriver> {
        self.discovery
    }

    /// The receiver of unsafe blocks that was set, if any.
    pub closed spec fn configured_block_recv(&self) -> Option<R> {
        self.unsafe_block_recv
    }

    /// The sender of signer updates that was set, if any.
    pub closed spec fn configured_signer_sender(&self) -> Option<S> {
        self.unsafe_block_signer_sender
    }

    /// Creates a builder with nothing set.
    pub fn new() -> (builder: Self)
        ensures
            builder.configured_gossip() is None,
            builder.configured_discovery() is None,
            builder.configured_block_recv() is None,
            builder.configured_signer_sender() is None,
    {
        NetworkDriverBuilder {
            gossip: None,
            discovery: None,
            unsafe_block_recv: None,
            unsafe_block_signer_sender: None,
        }
    }

    /// Sets the gossip transport.
    pub fn with_gossip(self, gossip: G) -> (builder: Self)
        ensures
            builder.configured_gossip() == Some(gossip),
            builder.configured_discovery() == self.configured_discovery(),
            builder.configured_block_recv() == self.configured_block_recv(),
            builder.configured_signer_sender() == self.configured_signer_sender(),
    {
        NetworkDriverBuilder {
            gossip: Some(gossip),
            discovery: self.discovery,
            unsafe_block_recv: self.unsafe_block_recv,
            unsafe_block_signer_sender: self.unsafe_block_signer_sender,
        }
    }

    /// Sets the discovery driver.
    pub fn with_discovery(self, discovery: DiscoveryDriver) -> (builder: Self)
        ensures
            builder.configured_discovery() == Some(discovery),
            builder.configured_gossip() == self.configured_gossip(),
            builder.configured_block_recv() == self.configured_block_recv(),
            builder.configured_signer_sender() == self.configured_signer_sender(),
    {
        NetworkDriverBuilder {
            gossip: self.gossip,
            discovery: Some(discovery),
            unsafe_block_recv: self.unsafe_block_recv,
            unsafe_block_signer_sender: self.unsafe_block_signer_sender,
        }
    }

    /// Sets the receiver of unsafe blocks.
    pub fn with_unsafe_block_recv(self, recv: R) -> (builder: Self)
        ensures
            builder.configured_block_recv() == Some(recv),
            builder.configured_gossip() == self.configured_gossip(),
            builder.configured_discovery() == self.configured_discovery(),
            builder.configured_signer_sender() == self.configured_signer_sender(),
    {
        NetworkDriverBuilder {
            gossip: self.gossip,
            discovery: self.discovery,
            unsafe_block_recv: Some(recv),
            unsafe_block_signer_sender: self.unsafe_block_signer_sender,
        }
    }

    /// Sets the sender of unsafe block signer updates.
    pub fn with_unsafe_block_signer_sender(self, sender: S) -> (builder: Self)
        ensures
            builder.configured_signer_sender() == Some(sender),
            builder.configured_gossip() == self.configured_gossip(),
            builder.configured_discovery() == self.configured_discovery(),
            builder.configured_block_recv() == self.configured_block_recv(),
    {
        NetworkDriverBuilder {
            gossip: self.gossip,
            discovery: self.discovery,
            unsafe_block_recv: self.unsafe_block_recv,
            unsafe_block_signer_sender: Some(sender),
        }
    }

    /// Builds the driver of the parts that were set. The transport and the
    /// discovery driver are required, the transport first; the endpoints are
    /// kept as they are.
    pub fn build(self) -> (r: Result<NetworkDriver<G, R, S>, NetworkError>)
        ensures
            match r {
                Ok(driver) => {
                    &&& self.configured_gossip() == Some(driver.transport())
                    &&& self.configured_discovery() == Some(driver.discovery_driver())
                    &&& driver.block_recv() == self.configured_block_recv()
                    &&& driver.signer_sender() == self.configured_signer_sender()
                },
                Err(e) => if self.configured_gossip() is None {
                    e == NetworkError::Configuration(Setting::Gossip)
                } else {
                    self.configured_discovery() is None && e == NetworkError::Configuration(
                        Setting::Discovery,
                    )
                },
            },
    {
        let gossip = match self.gossip {
            Some(gossip) => gossip,
            None => { return Err(NetworkError::Configuration(Setting::Gossip)); },
        };
        let discovery = match self.discovery {
            Some(discovery) => discovery,
            None => { return Err(NetworkError::Configuration(Setting::Discovery)); },
        };
        Ok(
            NetworkDriver {
                unsafe_block_recv: self.unsafe_block_recv,
                unsafe_block_signer_sender: self.unsafe_block_signer_sender,
                gossip,
                discovery,
            },
        )
    }
}

impl<G, R, S> NetworkDriver<G, R, S> {
    /// The receiver of unsafe blocks that the driver still holds.
    pub closed spec fn block_recv(&self) -> Option<R> {
        self.unsafe_block_recv
    }

    /// The sender of signer updates that the driver still holds.
    pub closed spec fn signer_sender(&self) -> Option<S> {
        self.unsafe_block_signer_sender
    }

    /// The gossip transport that the driver owns.
    pub closed spec fn transport(&self) -> G {
        self.gossip
    }

    /// The discovery driver that the driver owns.
    pub closed spec fn discovery_driver(&self) -> DiscoveryDriver {
        self.discovery
    }

    /// The driver after the receiver of unsafe blocks was taken.
    pub closed spec fn without_block_recv(self) -> Self {
        NetworkDriver {
            unsafe_block_recv: None,
            unsafe_block_signer_sender: self.unsafe_block_signer_sender,
            gossip: self.gossip,
            discovery: self.discovery,
        }
    }

    /// The driver after the sender of signer updates was taken.
    pub closed spec fn without_signer_sender(self) -> Self {
        NetworkDriver {
            unsafe_block_recv: self.unsafe_block_recv,
            unsafe_block_signer_sender: None,
            gossip: self.gossip,
            discovery: self.discovery,
        }
    }

    /// Returns a new [`NetworkDriverBuilder`].
    pub fn builder() -> (builder: NetworkDriverBuilder<G, R, S>)
        ensures
            builder.configured_gossip() is None,
            builder.configured_discovery() is None,
            builder.configured_block_recv() is None,
            builder.configured_signer_sender() is None,
    {
        NetworkDriverBuilder::new()
    }

    /// Take the unsafe block receiver: hands out the endpoint that the
    /// driver holds and leaves the driver without it.
    pub fn take_unsafe_block_recv(&mut self) -> (taken: Option<R>)
        ensures
            taken == old(self).block_recv(),
            *final(self) == old(self).without_block_recv(),
    {
        self.unsafe_block_recv.take()
    }

    /// Take the unsafe block signer sender: hands out the endpoint that the
    /// driver holds and leaves the driver without it.
    pub fn take_unsafe_block_signer_sender(&mut self) -> (taken: Option<S>)
        ensures
            taken == old(self).signer_sender(),
            *final(self) == old(self).without_signer_sender(),
    {
        self.unsafe_block_signer_sender.take()
    }

    /// Each endpoint is handed out once: after a take the driver holds no
    /// such endpoint, so a second take gives nothing and changes nothing.
    /// Taking one endpoint leaves the other, the transport and the discovery
    /// driver as they were.
    pub proof fn lemma_take_once(self)
        ensures
            self.without_block_recv().block_recv() is None,
            self.without_block_recv().without_block_recv() == self.without_block_recv(),
            self.without_block_recv().signer_sender() == self.signer_sender(),
            self.without_block_recv().transport() == self.transport(),
            self.without_block_recv().discovery_driver() == self.discovery_driver(),
            self.without_signer_sender().signer_sender() is None,
            self.without_signer_sender().without_signer_sender() == self.without_signer_sender(),
            self.without_signer_sender().block_recv() == self.block_recv(),
            self.without_signer_sender().transport() == self.transport(),
            self.without_signer_sender().discovery_driver() == self.discovery_driver(),
    {
    }

    /// Starts the peer discovery service and hands out the transport for
    /// the event loop. An endpoint that was not taken is dropped.
    pub fn start(self, bootnodes: &Vec<String>) -> (started: StartedNetwork<G>)
        ensures
            started.gossip == self.transport(),
            started.discovery.engine == self.discovery_driver().engine(),
            started.discovery.task@ == DiscoveryTask::initial(self.discovery_driver().network()),
            started.discovery.bootstrapped <= bootnodes@.len(),
    {
        let discovery = self.discovery.start(bootnodes);
        StartedNetwork { gossip: self.gossip, discovery }
    }
}

} // verus!
