//! Decisions of the node's smaller event loops: the main loop of the node,
//! the loop that streams new blocks to a gRPC client, and the loop of the
//! denunciation factory.
use vstd::prelude::*;
use crate::denunciation_factory::{
    CacheOutcome, DenunciationFactoryCaches, EndorsementKey, cache_step, factory_cache,
    DENUNCIATION_FACTORY_BLOCK_HEADER_CACHE_MAX_LEN, DENUNCIATION_FACTORY_ENDORSEMENT_CACHE_MAX_LEN,
};
use crate::slot::Slot;

verus! {

/// What the node's main loop received.
#[derive(Clone, Copy, Debug, PartialEq, Eq, Structural)]
pub enum NodeLoopEvent {
    /// An event from consensus.
    Consensus,
    /// The API asked the node to stop.
    ApiAskStop,
    /// Receiving from the API failed.
    ApiError,
    /// An interrupt signal arrived.
    Interrupt,
}

/// Whether the node's main loop stops on `event`: on anything but a
/// consensus event.
pub fn node_loop_stops(event: NodeLoopEvent) -> (stop: bool)
    ensures
        stop == (event != NodeLoopEvent::Consensus),
{
    match event {
        NodeLoopEvent::Consensus => false,
        NodeLoopEvent::ApiAskStop => true,
        NodeLoopEvent::ApiError => true,
        NodeLoopEvent::Interrupt => true,
    }
}

/// What the new-blocks stream received.
#[derive(Debug)]
pub enum BlockStreamEvent<B> {
    /// A block from the block broadcast.
    Block(B),
    /// Receiving from the block broadcast failed (for instance it lagged).
    BroadcastError,
    /// A request from the client.
    ClientRequest,
    /// Reading the client's requests failed.
    ClientError,
    /// The client disconnected.
    ClientGone,
}

/// What the new-blocks stream does next.
#[derive(Debug)]
pub enum BlockStreamAction<B> {
    /// Send this block to the client.
    Send(B),
    /// Keep waiting.
    Continue,
    /// End the stream.
    Stop,
}

/// Decides what the new-blocks stream does with `event`: forward blocks,
/// ignore broadcast errors and client requests, and end when the client
/// fails or leaves.
pub fn new_blocks_step<B>(event: BlockStreamEvent<B>) -> (a: BlockStreamAction<B>)
    ensures
        match event {
            BlockStreamEvent::Block(b) => a == BlockStreamAction::Send(b),
            BlockStreamEvent::BroadcastError => a is Continue,
            BlockStreamEvent::ClientRequest => a is Continue,
            BlockStreamEvent::ClientError => a is Stop,
            BlockStreamEvent::ClientGone => a is Stop,
        },
{
    match event {
        BlockStreamEvent::Block(b) => BlockStreamAction::Send(b),
        BlockStreamEvent::BroadcastError => BlockStreamAction::Continue,
        BlockStreamEvent::ClientRequest => BlockStreamAction::Continue,
        BlockStreamEvent::ClientError => BlockStreamAction::Stop,
        BlockStreamEvent::ClientGone => BlockStreamAction::Stop,
    }
}

/// The identifier put in each new-blocks response.
pub fn new_blocks_response_id() -> (s: String)
    ensures
        s@ == "todo"@,
{
    String::from_str("todo")
}

/// What the denunciation factory received.
#[derive(Debug)]
pub enum FactoryEvent<H, E> {
    /// A block header produced at a slot.
    BlockHeader(Slot, H),
    /// An endorsement of an index at a slot.
    Endorsement(Slot, u32, E),
    /// Receiving block headers from consensus failed.
    ConsensusClosed,
    /// Receiving endorsements from the pool failed.
    PoolClosed,
    /// The factory was told to stop, or its stop channel failed.
    Stop,
}

/// What the factory did with an event.
#[derive(Clone, Copy, Debug, PartialEq, Eq, Structural)]
pub enum FactoryReaction {
    /// A block header was handed to its cache.
    Header(CacheOutcome),
    /// An endorsement was handed to its cache.
    Endorsement(CacheOutcome),
    /// The factory's loop ends.
    Stop,
}

impl<H, E> DenunciationFactoryCaches<H, E> {
    /// Handles one event of the factory's loop.
    pub fn handle(&mut self, event: FactoryEvent<H, E>) -> (r: FactoryReaction)
        ensures
            match event {
                FactoryEvent::BlockHeader(slot, h) => {
                    let (c, o) = cache_step(old(self).header_cache(), slot, h);
                    &&& r == FactoryReaction::Header(o)
                    &&& final(self).header_cache() == c
                    &&& final(self).endorsement_cache() == old(self).endorsement_cache()
                },
                FactoryEvent::Endorsement(slot, index, e) => {
                    let (c, o) = cache_step(
                        old(self).endorsement_cache(),
                        EndorsementKey { slot, index },
                        e,
                    );
                    &&& r == FactoryReaction::Endorsement(o)
                    &&& final(self).endorsement_cache() == c
                    &&& final(self).header_cache() == old(self).header_cache()
                },
                _ => r == FactoryReaction::Stop && final(self).header_cache() == old(
                    self,
                ).header_cache() && final(self).endorsement_cache() == old(self).endorsement_cache(),
            },
            factory_cache(final(self).header_cache(), DENUNCIATION_FACTORY_BLOCK_HEADER_CACHE_MAX_LEN),
            factory_cache(
                final(self).endorsement_cache(),
                DENUNCIATION_FACTORY_ENDORSEMENT_CACHE_MAX_LEN,
            ),
    {
        proof {
            use_type_invariant(&*self);
        }
        match event {
            FactoryEvent::BlockHeader(slot, h) => FactoryReaction::Header(
                self.process_new_secured_header(slot, h),
            ),
            FactoryEvent::Endorsement(slot, index, e) => FactoryReaction::Endorsement(
                self.process_new_secure_share_endorsement(slot, index, e),
            ),
            FactoryEvent::ConsensusClosed => FactoryReaction::Stop,
            FactoryEvent::PoolClosed => FactoryReaction::Stop,
            FactoryEvent::Stop => FactoryReaction::Stop,
        }
    }
}

} // verus!
