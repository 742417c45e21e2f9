use massa::denunciation_factory::{CacheOutcome, DenunciationFactoryCaches};
use massa::event_loops::{
    new_blocks_response_id, new_blocks_step, node_loop_stops, BlockStreamAction, BlockStreamEvent,
    FactoryEvent, FactoryReaction, NodeLoopEvent,
};
use massa::slot::Slot;

#[test]
fn node_loop() {
    assert!(!node_loop_stops(NodeLoopEvent::Consensus));
    assert!(node_loop_stops(NodeLoopEvent::ApiAskStop));
    assert!(node_loop_stops(NodeLoopEvent::ApiError));
    assert!(node_loop_stops(NodeLoopEvent::Interrupt));
}

#[test]
fn block_stream() {
    assert!(matches!(new_blocks_step(BlockStreamEvent::Block(3u8)), BlockStreamAction::Send(3)));
    assert!(matches!(new_blocks_step::<u8>(BlockStreamEvent::BroadcastError), BlockStreamAction::Continue));
    assert!(matches!(new_blocks_step::<u8>(BlockStreamEvent::ClientRequest), BlockStreamAction::Continue));
    assert!(matches!(new_blocks_step::<u8>(BlockStreamEvent::ClientError), BlockStreamAction::Stop));
    assert!(matches!(new_blocks_step::<u8>(BlockStreamEvent::ClientGone), BlockStreamAction::Stop));
    assert_eq!(new_blocks_response_id(), "todo");
}

#[test]
fn factory_loop() {
    let mut f: DenunciationFactoryCaches<u8, u8> = DenunciationFactoryCaches::new();
    let s = Slot::new(1, 1);
    assert_eq!(f.handle(FactoryEvent::BlockHeader(s, 1)), FactoryReaction::Header(CacheOutcome::Stored));
    assert_eq!(f.handle(FactoryEvent::BlockHeader(s, 2)), FactoryReaction::Header(CacheOutcome::PairComplete));
    assert_eq!(f.handle(FactoryEvent::Endorsement(s, 4, 1)), FactoryReaction::Endorsement(CacheOutcome::Stored));
    assert_eq!(f.handle(FactoryEvent::ConsensusClosed), FactoryReaction::Stop);
    assert_eq!(f.handle(FactoryEvent::PoolClosed), FactoryReaction::Stop);
    assert_eq!(f.handle(FactoryEvent::Stop), FactoryReaction::Stop);
}
