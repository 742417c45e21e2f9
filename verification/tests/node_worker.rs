use massa::node_worker::{activity_notice, ActivityNotice};
use massa::addr::IpKey;
use massa::node_worker::{
    closed_event, node_worker_step, ConnectionClosureReason, Message, NetworkHangAnnotation,
    NodeCommand, NodeEvent, NodeEventType, NodeHangAnnotation, WorkerAction, WorkerEvent,
};

type Cmd = NodeCommand<&'static str, u8, u64>;
type Evt = WorkerEvent<&'static str, u8, u64>;
type Act = WorkerAction<u32, &'static str, u8, u64>;

fn step(e: Evt) -> Act {
    node_worker_step(9u32, e)
}

#[test]
fn socket_messages_become_events() {
    match step(WorkerEvent::SocketMessage(Message::Block("b"))) {
        WorkerAction::Emit(NodeEvent(9, NodeEventType::ReceivedBlock("b"))) => {}
        other => panic!("{:?}", other),
    }
    match step(WorkerEvent::SocketMessage(Message::BlockHeader(3))) {
        WorkerAction::Emit(NodeEvent(9, NodeEventType::ReceivedBlockHeader(3))) => {}
        other => panic!("{:?}", other),
    }
    match step(WorkerEvent::SocketMessage(Message::AskForBlock(77))) {
        WorkerAction::Emit(NodeEvent(9, NodeEventType::ReceivedAskForBlock(77))) => {}
        other => panic!("{:?}", other),
    }
    match step(WorkerEvent::SocketMessage(Message::PeerList(vec![IpKey::V4(1)]))) {
        WorkerAction::Emit(NodeEvent(9, NodeEventType::ReceivedPeerList(l))) => {
            assert_eq!(l, vec![IpKey::V4(1)])
        }
        other => panic!("{:?}", other),
    }
    match step(WorkerEvent::SocketMessage(Message::AskPeerList)) {
        WorkerAction::Emit(NodeEvent(9, NodeEventType::AskedPeerList)) => {}
        other => panic!("{:?}", other),
    }
    match step(WorkerEvent::SocketMessage(Message::BlockNotFound(5))) {
        WorkerAction::Emit(NodeEvent(9, NodeEventType::BlockNotFound(5))) => {}
        other => panic!("{:?}", other),
    }
}

#[test]
fn connection_endings() {
    assert!(matches!(
        step(WorkerEvent::SocketMessage(Message::Other)),
        WorkerAction::Exit(ConnectionClosureReason::Failed)
    ));
    assert!(matches!(step(WorkerEvent::SocketClosed), WorkerAction::Exit(ConnectionClosureReason::Normal)));
    assert!(matches!(step(WorkerEvent::SocketError), WorkerAction::Exit(ConnectionClosureReason::Failed)));
    assert!(matches!(
        step(WorkerEvent::Command(Some(NodeCommand::Close(ConnectionClosureReason::Banned)))),
        WorkerAction::Exit(ConnectionClosureReason::Banned)
    ));
    assert!(matches!(step(WorkerEvent::Command(None)), WorkerAction::ControllerGone));
    assert!(matches!(
        step(WorkerEvent::WriterEnded(Some(false))),
        WorkerAction::Exit(ConnectionClosureReason::Failed)
    ));
    assert!(matches!(
        step(WorkerEvent::WriterEnded(Some(true))),
        WorkerAction::Exit(ConnectionClosureReason::Normal)
    ));
    assert!(matches!(step(WorkerEvent::WriterEnded(None)), WorkerAction::Exit(ConnectionClosureReason::Normal)));
}

#[test]
fn commands_and_timer_become_writes() {
    assert!(matches!(step(WorkerEvent::Command(Some(NodeCommand::SendBlock("x")))), WorkerAction::Write(Message::Block("x"))));
    assert!(matches!(step(WorkerEvent::Command(Some(NodeCommand::SendBlockHeader(4)))), WorkerAction::Write(Message::BlockHeader(4))));
    assert!(matches!(step(WorkerEvent::Command(Some(NodeCommand::AskForBlock(8)))), WorkerAction::Write(Message::AskForBlock(8))));
    assert!(matches!(step(WorkerEvent::Command(Some(NodeCommand::BlockNotFound(8)))), WorkerAction::Write(Message::BlockNotFound(8))));
    match step(WorkerEvent::Command(Some(NodeCommand::SendPeerList(vec![IpKey::V6(2)])))) {
        WorkerAction::Write(Message::PeerList(l)) => assert_eq!(l, vec![IpKey::V6(2)]),
        other => panic!("{:?}", other),
    }
    assert!(matches!(step(WorkerEvent::PeerListTimer), WorkerAction::Write(Message::AskPeerList)));
}

#[test]
fn annotations() {
    let cmds: Vec<(Cmd, NodeHangAnnotation)> = vec![
        (NodeCommand::SendPeerList(vec![]), NodeHangAnnotation::SendPeerList),
        (NodeCommand::SendBlock("b"), NodeHangAnnotation::SendBlock),
        (NodeCommand::SendBlockHeader(1), NodeHangAnnotation::SendBlockHeader),
        (NodeCommand::AskForBlock(1), NodeHangAnnotation::CommandAskForBlock),
        (NodeCommand::Close(ConnectionClosureReason::Normal), NodeHangAnnotation::Close),
        (NodeCommand::BlockNotFound(1), NodeHangAnnotation::CommandBlockNotFound),
    ];
    for (c, a) in cmds.iter() {
        assert_eq!(NodeHangAnnotation::from(c), *a);
    }
    let evts: Vec<(NodeEventType<&str, u8, u64>, NetworkHangAnnotation)> = vec![
        (NodeEventType::AskedPeerList, NetworkHangAnnotation::ReceivedAskedPeerList),
        (NodeEventType::ReceivedPeerList(vec![]), NetworkHangAnnotation::ReceivedPeerList),
        (NodeEventType::ReceivedBlock("b"), NetworkHangAnnotation::ReceivedBlock),
        (NodeEventType::ReceivedBlockHeader(1), NetworkHangAnnotation::ReceivedBlockHeader),
        (NodeEventType::ReceivedAskForBlock(1), NetworkHangAnnotation::ReceivedAskForBlock),
        (NodeEventType::Closed(ConnectionClosureReason::Failed), NetworkHangAnnotation::ReceivedClosed),
        (NodeEventType::BlockNotFound(1), NetworkHangAnnotation::ReceivedBlockNotFound),
    ];
    for (e, a) in evts.into_iter() {
        assert_eq!(NetworkHangAnnotation::from(&NodeEvent(1u32, e)), a);
    }
    let c: NodeEvent<u32, &str, u8, u64> = closed_event(3, ConnectionClosureReason::Normal);
    assert!(matches!(c, NodeEvent(3, NodeEventType::Closed(ConnectionClosureReason::Normal))));
}

#[test]
fn hang_monitor_notices() {
    let msg: WorkerEvent<u8, u8, u8> = WorkerEvent::SocketMessage(Message::AskPeerList);
    assert_eq!(activity_notice(&msg), Some(ActivityNotice::SocketMessage));
    let cmd: WorkerEvent<u8, u8, u8> = WorkerEvent::Command(Some(NodeCommand::SendBlock(1)));
    assert_eq!(activity_notice(&cmd), Some(ActivityNotice::Node(NodeHangAnnotation::SendBlock)));
    let timer: WorkerEvent<u8, u8, u8> = WorkerEvent::PeerListTimer;
    assert_eq!(activity_notice(&timer), Some(ActivityNotice::Node(NodeHangAnnotation::SendAskPeerList)));
    let gone: WorkerEvent<u8, u8, u8> = WorkerEvent::Command(None);
    assert_eq!(activity_notice(&gone), None);
    let writer: WorkerEvent<u8, u8, u8> = WorkerEvent::WriterEnded(Some(true));
    assert_eq!(activity_notice(&writer), None);
}
