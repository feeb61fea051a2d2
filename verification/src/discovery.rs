//! Building and starting the discovery service, and the rule by which the
//! records of a lookup become peers.

use vstd::prelude::*;
use discv5::Discv5;
use crate::engine::{create_engine, engine_config, generate_key, listen_config, parse_record};
use crate::engine::{register, sign_record};
use crate::error::{InitStep, NetworkError, Setting};
use crate::identity::{belongs_to, build_identity, is_valid, ACCEPTED_SEQUENCE, IDENTITY_KEY};
use crate::task::DiscoveryTask;
use crate::types::{peer_views, NetworkAddress, Peer, PeerView, Record};

verus! {

/// The number of peers that the channel from the discovery task to the
/// network driver buffers.
pub const DISCOVERY_PEER_CHANNEL_SIZE: usize = 256;

/// Whether a record of a lookup is published as a peer: it belongs to the
/// network and it converts to a peer.
pub open spec fn accepts(record: Record, chain_id: u64) -> bool {
    belongs_to(record, chain_id) && Peer::of_record(record) is Ok
}

/// The peers that the records of one lookup give, in the order of the
/// records: each accepted record gives its peer, every other record nothing.
pub open spec fn accepted(records: Seq<Record>, chain_id: u64) -> Seq<PeerView>
    decreases records.len(),
{
    if records.len() == 0 {
        Seq::empty()
    } else {
        let before = accepted(records.drop_last(), chain_id);
        if accepts(records.last(), chain_id) {
            before.push(Peer::of_record(records.last())->Ok_0)
        } else {
            before
        }
    }
}

/// Every published peer stands for a record of the lookup that belongs to
/// the network: a record that fails the membership test, or the conversion,
/// is behind no peer.
pub proof fn lemma_accepted_sound(records: Seq<Record>, chain_id: u64, i: int)
    requires
        0 <= i < accepted(records, chain_id).len(),
    ensures
        exists|j: int|
            0 <= j < records.len() && accepts(#[trigger] records[j], chain_id) && Peer::of_record(
                records[j],
            ) == Ok::<PeerView, crate::types::PeerError>(accepted(records, chain_id)[i]),
    decreases records.len(),
{
    let before = accepted(records.drop_last(), chain_id);
    let last = records.len() - 1;
    if accepts(records.last(), chain_id) && i == before.len() {
        assert(accepts(records[last], chain_id));
    } else {
        lemma_accepted_sound(records.drop_last(), chain_id, i);
        let j = choose|j: int|
            0 <= j < records.drop_last().len() && accepts(
                #[trigger] records.drop_last()[j],
                chain_id,
            ) && Peer::of_record(records.drop_last()[j]) == Ok::<PeerView, crate::types::PeerError>(
                before[i],
            );
        assert(records[j] == records.drop_last()[j]);
    }
}

/// A lookup publishes as many peers as it has accepted records, none where
/// no record is accepted, and one more for one more accepted record.
pub proof fn lemma_accepted_len(records: Seq<Record>, chain_id: u64)
    ensures
        accepted(records, chain_id).len() <= records.len(),
        (forall|j: int| 0 <= j < records.len() ==> !accepts(#[trigger] records[j], chain_id))
            ==> accepted(records, chain_id).len() == 0,
    decreases records.len(),
{
    if records.len() > 0 {
        lemma_accepted_len(records.drop_last(), chain_id);
        assert forall|j: int| 0 <= j < records.drop_last().len() implies records.drop_last()[j]
            == records[j] by {}
        if forall|j: int| 0 <= j < records.len() ==> !accepts(#[trigger] records[j], chain_id) {
            assert(!accepts(records[records.len() - 1], chain_id));
            assert forall|j: int| 0 <= j < records.drop_last().len() implies !accepts(
                #[trigger] records.drop_last()[j],
                chain_id,
            ) by {
                assert(records.drop_last()[j] == records[j]);
            }
        }
    }
}

/// Filters the records of one lookup: keeps those that belong to the network
/// `chain_id` and convert to a peer, and gives their peers in the order of
/// the records.
pub fn accepted_peers(records: &Vec<Record>, chain_id: u64) -> (peers: Vec<Peer>)
    ensures
        peer_views(peers@) == accepted(records@, chain_id),
{
    let mut peers: Vec<Peer> = Vec::new();
    let mut i: usize = 0;
    while i < records.len()
        invariant
            i <= records@.len(),
            peer_views(peers@) == accepted(records@.subrange(0, i as int), chain_id),
        decreases records@.len() - i,
    {
        proof {
            assert(records@.subrange(0, i + 1).drop_last() =~= records@.subrange(0, i as int));
        }
        let ghost before = peers@;
        if is_valid(&records[i], chain_id) {
            match Peer::try_from_record(&records[i]) {
                Ok(peer) => {
                    peers.push(peer);
                    proof {
                        assert(peer_views(peers@) =~= peer_views(before).push(peer@));
                    }
                },
                Err(_) => {},
            }
        }
        i = i + 1;
    }
    proof {
        assert(records@.subrange(0, i as int) =~= records@);
    }
    peers
}

/// Discovery service builder: it needs a listen address and the chain
/// identifier of the network before it can build.
#[derive(Debug, Clone)]
pub struct DiscoveryBuilder {
    /// The discovery service address.
    address: Option<NetworkAddress>,
    /// The chain ID of the network.
    chain_id: Option<u64>,
}

impl Default for DiscoveryBuilder {
    fn default() -> (builder: Self)
        ensures
            builder.configured_address() is None,
            builder.configured_chain_id() is None,
    {
        DiscoveryBuilder { address: None, chain_id: None }
    }
}

impl DiscoveryBuilder {
    /// The listen address that was set, if any.
    pub closed spec fn configured_address(&self) -> Option<NetworkAddress> {
        self.address
    }

    /// The chain identifier that was set, if any.
    pub closed spec fn configured_chain_id(&self) -> Option<u64> {
        self.chain_id
    }

    /// Creates a new discovery builder, with nothing set.
    pub fn new() -> (builder: Self)
        ensures
            builder.configured_address() is None,
            builder.configured_chain_id() is None,
    {
        DiscoveryBuilder { address: None, chain_id: None }
    }

    /// Sets the discovery service address.
    pub fn with_address(self, address: NetworkAddress) -> (builder: Self)
        ensures
            builder.configured_address() == Some(address),
            builder.configured_chain_id() == self.configured_chain_id(),
    {
        DiscoveryBuilder { address: Some(address), chain_id: self.chain_id }
    }

    /// Sets the chain ID of the network.
    pub fn with_chain_id(self, chain_id: u64) -> (builder: Self)
        ensures
            builder.configured_chain_id() == Some(chain_id),
            builder.configured_address() == self.configured_address(),
    {
        DiscoveryBuilder { address: self.address, chain_id: Some(chain_id) }
    }

    /// What `build` answers before it turns to the engine: the setting that
    /// is missing, the address first, or nothing where both are set.
    pub open spec fn missing(&self) -> Option<Setting> {
        if self.configured_address() is None {
            Some(Setting::Address)
        } else if self.configured_chain_id() is None {
            Some(Setting::ChainId)
        } else {
            None
        }
    }

    /// Builds a [`DiscoveryDriver`].
    ///
    /// Fails with a configuration error where a setting is missing. Else it
    /// writes the identity of the chain with the accepted sequence number,
    /// draws a fresh key, signs a record that holds the identity, and
    /// constructs an engine that listens on the address. Whether the engine
    /// takes the record is the engine's to say: where it does, the driver
    /// serves the chain that was set; where it does not, the failure names
    /// the step.
    pub fn build(self) -> (r: Result<DiscoveryDriver, NetworkError>)
        ensures
            match self.missing() {
                Some(setting) => r matches Err(e) && e == NetworkError::Configuration(setting),
                None => match r {
                    Ok(driver) => Some(driver.network()) == self.configured_chain_id(),
                    Err(e) => e == NetworkError::ProtocolInit(InitStep::Record) || e
                        == NetworkError::ProtocolInit(InitStep::Engine),
                },
            },
    {
        let address = match self.address {
            Some(address) => address,
            None => { return Err(NetworkError::Configuration(Setting::Address)); },
        };
        let chain_id = match self.chain_id {
            Some(chain_id) => chain_id,
            None => { return Err(NetworkError::Configuration(Setting::ChainId)); },
        };
        let identity = build_identity(chain_id, ACCEPTED_SEQUENCE);
        let key = generate_key();
        match sign_record(&key, IDENTITY_KEY, identity) {
            Err(_) => Err(NetworkError::ProtocolInit(InitStep::Record)),
            Ok(record) => {
                let config = engine_config(listen_config(address.ip, address.port));
                DiscoveryDriver::from_engine(create_engine(record, key, config), chain_id)
            },
        }
    }
}

/// The discovery driver handles running the discovery service.
pub struct DiscoveryDriver {
    /// The discovery engine.
    disc: Discv5,
    /// The chain ID of the network.
    chain_id: u64,
}

/// What starting the discovery service hands to whoever runs it.
pub struct StartedDiscovery {
    /// The engine, for the lookups of the task.
    pub engine: Discv5,
    /// The task, before its first step.
    pub task: DiscoveryTask,
    /// How many of the bootstrap records the engine's table took.
    pub bootstrapped: usize,
}

impl DiscoveryDriver {
    /// The engine that the driver owns.
    pub closed spec fn engine(&self) -> Discv5 {
        self.disc
    }

    /// The chain identifier of the network that the driver serves.
    pub closed spec fn network(&self) -> u64 {
        self.chain_id
    }

    /// Instantiates a new [`DiscoveryDriver`].
    pub fn new(disc: Discv5, chain_id: u64) -> (driver: Self)
        ensures
            driver.engine() == disc,
            driver.network() == chain_id,
    {
        DiscoveryDriver { disc, chain_id }
    }

    /// Makes a driver of what constructing the engine gave: the driver of
    /// that engine, or the failure of the engine step.
    pub fn from_engine(engine: Result<Discv5, &'static str>, chain_id: u64) -> (r: Result<
        Self,
        NetworkError,
    >)
        ensures
            match engine {
                Ok(disc) => r matches Ok(driver) && driver.engine() == disc && driver.network()
                    == chain_id,
                Err(_) => r matches Err(e) && e == NetworkError::ProtocolInit(InitStep::Engine),
            },
    {
        match engine {
            Ok(disc) => Ok(DiscoveryDriver { disc, chain_id }),
            Err(_) => Err(NetworkError::ProtocolInit(InitStep::Engine)),
        }
    }

    /// The chain identifier of the network that the driver serves.
    pub fn chain_id(&self) -> (chain_id: u64)
        ensures
            chain_id == self.network(),
    {
        self.chain_id
    }

    /// Starts the discovery service: offers the bootstrap records to the
    /// engine, and hands out the engine with the task that decides what the
    /// service does next.
    ///
    /// The bootstrap records come in their text form. One that does not
    /// parse, or that the engine's table does not take, is passed over: the
    /// service starts without it. The task is new, for the driver's chain.
    pub fn start(self, bootnodes: &Vec<String>) -> (started: StartedDiscovery)
        ensures
            started.engine == self.engine(),
            started.task@ == DiscoveryTask::initial(self.network()),
            started.bootstrapped <= bootnodes@.len(),
    {
        let mut bootstrapped: usize = 0;
        let mut i: usize = 0;
        while i < bootnodes.len()
            invariant
                bootstrapped <= i <= bootnodes@.len(),
            decreases bootnodes@.len() - i,
        {
            match parse_record(bootnodes[i].as_str()) {
                Some(record) => {
                    if register(&self.disc, record) {
                        bootstrapped = bootstrapped + 1;
                    }
                },
                None => {},
            }
            i = i + 1;
        }
        StartedDiscovery { engine: self.disc, task: DiscoveryTask::new(self.chain_id), bootstrapped }
    }
}

} // verus!
