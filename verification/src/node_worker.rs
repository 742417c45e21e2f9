//! Decisions of the worker that serves one connected node.
//!
//! The worker waits on four sources: messages read from the node's socket,
//! commands from the protocol controller, the end of its writer task, and a
//! timer asking the node for its peer list. Each such event yields one
//! action: forward an event to the controller, queue a message for the node,
//! or end the connection. Blocks, block headers, block hashes and node ids are
//! carried through untouched, so they are type parameters.
use vstd::prelude::*;
use crate::addr::IpKey;

verus! {

/// Why a connection with a node ended.
#[derive(Clone, Copy, Debug, PartialEq, Eq, Structural)]
pub enum ConnectionClosureReason {
    /// Closed cleanly.
    Normal,
    /// Closed after an error.
    Failed,
    /// Closed because the node is banned.
    Banned,
}

/// A command from the protocol controller to the worker.
#[derive(Debug)]
pub enum NodeCommand<B, BH, H> {
    /// Send given peer list to node.
    SendPeerList(Vec<IpKey>),
    /// Send that block to node.
    SendBlock(B),
    /// Send the header of a block to a node.
    SendBlockHeader(BH),
    /// Ask for a block from that node.
    AskForBlock(H),
    /// Close the node worker.
    Close(ConnectionClosureReason),
    /// Block not found.
    BlockNotFound(H),
}

/// Event types that node worker can emit.
#[derive(Debug)]
pub enum NodeEventType<B, BH, H> {
    /// Node we are connected to asked for advertised peers.
    AskedPeerList,
    /// Node we are connected to sent peer list.
    ReceivedPeerList(Vec<IpKey>),
    /// Node we are connected to sent block.
    ReceivedBlock(B),
    /// Node we are connected to sent block header.
    ReceivedBlockHeader(BH),
    /// Node we are connected to asks for a block.
    ReceivedAskForBlock(H),
    /// Connection with node was shut down for given reason.
    Closed(ConnectionClosureReason),
    /// Didn't find given block.
    BlockNotFound(H),
}

/// Events node worker can emit: a node id and an event type.
#[derive(Debug)]
pub struct NodeEvent<N, B, BH, H>(pub N, pub NodeEventType<B, BH, H>);

/// Messages exchanged with a node over its socket.
#[derive(Debug)]
pub enum Message<B, BH, H> {
    Block(B),
    BlockHeader(BH),
    AskForBlock(H),
    PeerList(Vec<IpKey>),
    AskPeerList,
    BlockNotFound(H),
    /// Any other message, such as the handshake ones, which a running worker
    /// does not expect.
    Other,
}

/// What the worker tells the hang monitor it is doing.
#[derive(Clone, Copy, Debug, PartialEq, Eq, Structural)]
pub enum NodeHangAnnotation {
    SendPeerList,
    SendBlock,
    SendBlockHeader,
    CommandAskForBlock,
    Close,
    CommandBlockNotFound,
    SendAskPeerList,
    Closed,
}

/// What the network layer tells the hang monitor it received from a worker.
#[derive(Clone, Copy, Debug, PartialEq, Eq, Structural)]
pub enum NetworkHangAnnotation {
    ReceivedAskedPeerList,
    ReceivedPeerList,
    ReceivedBlock,
    ReceivedBlockHeader,
    ReceivedAskForBlock,
    ReceivedClosed,
    ReceivedBlockNotFound,
}

/// The annotation for a command.
pub open spec fn command_annotation<B, BH, H>(cmd: NodeCommand<B, BH, H>) -> NodeHangAnnotation {
    match cmd {
        NodeCommand::SendPeerList(_) => NodeHangAnnotation::SendPeerList,
        NodeCommand::SendBlock(_) => NodeHangAnnotation::SendBlock,
        NodeCommand::SendBlockHeader(_) => NodeHangAnnotation::SendBlockHeader,
        NodeCommand::AskForBlock(_) => NodeHangAnnotation::CommandAskForBlock,
        NodeCommand::Close(_) => NodeHangAnnotation::Close,
        NodeCommand::BlockNotFound(_) => NodeHangAnnotation::CommandBlockNotFound,
    }
}

/// The annotation for an event.
pub open spec fn event_annotation<N, B, BH, H>(evt: NodeEvent<N, B, BH, H>) -> NetworkHangAnnotation {
    match evt.1 {
        NodeEventType::AskedPeerList => NetworkHangAnnotation::ReceivedAskedPeerList,
        NodeEventType::ReceivedPeerList(_) => NetworkHangAnnotation::ReceivedPeerList,
        NodeEventType::ReceivedBlock(_) => NetworkHangAnnotation::ReceivedBlock,
        NodeEventType::ReceivedBlockHeader(_) => NetworkHangAnnotation::ReceivedBlockHeader,
        NodeEventType::ReceivedAskForBlock(_) => NetworkHangAnnotation::ReceivedAskForBlock,
        NodeEventType::Closed(_) => NetworkHangAnnotation::ReceivedClosed,
        NodeEventType::BlockNotFound(_) => NetworkHangAnnotation::ReceivedBlockNotFound,
    }
}

impl NodeHangAnnotation {
    /// The annotation that reports the handling of `msg`.
    pub fn from<B, BH, H>(msg: &NodeCommand<B, BH, H>) -> (a: Self)
        ensures
            a == command_annotation(*msg),
    {
        match msg {
            NodeCommand::SendPeerList(_) => NodeHangAnnotation::SendPeerList,
            NodeCommand::SendBlock(_) => NodeHangAnnotation::SendBlock,
            NodeCommand::SendBlockHeader(_) => NodeHangAnnotation::SendBlockHeader,
            NodeCommand::AskForBlock(_) => NodeHangAnnotation::CommandAskForBlock,
            NodeCommand::Close(_) => NodeHangAnnotation::Close,
            NodeCommand::BlockNotFound(_) => NodeHangAnnotation::CommandBlockNotFound,
        }
    }
}

impl NetworkHangAnnotation {
    /// The annotation that reports the reception of `msg`.
    pub fn from<N, B, BH, H>(msg: &NodeEvent<N, B, BH, H>) -> (a: Self)
        ensures
            a == event_annotation(*msg),
    {
        match &msg.1 {
            NodeEventType::AskedPeerList => NetworkHangAnnotation::ReceivedAskedPeerList,
            NodeEventType::ReceivedPeerList(_) => NetworkHangAnnotation::ReceivedPeerList,
            NodeEventType::ReceivedBlock(_) => NetworkHangAnnotation::ReceivedBlock,
            NodeEventType::ReceivedBlockHeader(_) => NetworkHangAnnotation::ReceivedBlockHeader,
            NodeEventType::ReceivedAskForBlock(_) => NetworkHangAnnotation::ReceivedAskForBlock,
            NodeEventType::Closed(_) => NetworkHangAnnotation::ReceivedClosed,
            NodeEventType::BlockNotFound(_) => NetworkHangAnnotation::ReceivedBlockNotFound,
        }
    }
}

/// Something the worker waited for and got.
#[derive(Debug)]
pub enum WorkerEvent<B, BH, H> {
    /// A message read from the node's socket.
    SocketMessage(Message<B, BH, H>),
    /// The node closed its socket cleanly.
    SocketClosed,
    /// Reading the socket failed.
    SocketError,
    /// A command from the controller, or `None` once its channel is closed.
    Command(Option<NodeCommand<B, BH, H>>),
    /// The writer task ended, cleanly (`Some(true)`) or not (`Some(false)`),
    /// or its channel closed (`None`).
    WriterEnded(Option<bool>),
    /// The timer asking the node for its peers went off.
    PeerListTimer,
}

/// What the worker does in reaction to an event.
#[derive(Debug)]
pub enum WorkerAction<N, B, BH, H> {
    /// Send this event to the controller and go on.
    Emit(NodeEvent<N, B, BH, H>),
    /// Queue this message for the node and go on.
    Write(Message<B, BH, H>),
    /// Leave the loop; the connection ends for this reason.
    Exit(ConnectionClosureReason),
    /// The controller's command channel closed: stop with an error.
    ControllerGone,
}

/// The action that answers `event` for the node `node_id`.
pub open spec fn worker_response<N, B, BH, H>(node_id: N, event: WorkerEvent<B, BH, H>) -> WorkerAction<
    N,
    B,
    BH,
    H,
> {
    match event {
        WorkerEvent::SocketMessage(msg) => match msg {
            Message::Block(b) => WorkerAction::Emit(NodeEvent(node_id, NodeEventType::ReceivedBlock(b))),
            Message::BlockHeader(h) => WorkerAction::Emit(
                NodeEvent(node_id, NodeEventType::ReceivedBlockHeader(h)),
            ),
            Message::AskForBlock(h) => WorkerAction::Emit(
                NodeEvent(node_id, NodeEventType::ReceivedAskForBlock(h)),
            ),
            Message::PeerList(l) => WorkerAction::Emit(
                NodeEvent(node_id, NodeEventType::ReceivedPeerList(l)),
            ),
            Message::AskPeerList => WorkerAction::Emit(NodeEvent(node_id, NodeEventType::AskedPeerList)),
            Message::BlockNotFound(h) => WorkerAction::Emit(
                NodeEvent(node_id, NodeEventType::BlockNotFound(h)),
            ),
            Message::Other => WorkerAction::Exit(ConnectionClosureReason::Failed),
        },
        WorkerEvent::SocketClosed => WorkerAction::Exit(ConnectionClosureReason::Normal),
        WorkerEvent::SocketError => WorkerAction::Exit(ConnectionClosureReason::Failed),
        WorkerEvent::Command(cmd) => match cmd {
            Some(NodeCommand::Close(r)) => WorkerAction::Exit(r),
            Some(NodeCommand::SendPeerList(l)) => WorkerAction::Write(Message::PeerList(l)),
            Some(NodeCommand::SendBlockHeader(h)) => WorkerAction::Write(Message::BlockHeader(h)),
            Some(NodeCommand::SendBlock(b)) => WorkerAction::Write(Message::Block(b)),
            Some(NodeCommand::AskForBlock(h)) => WorkerAction::Write(Message::AskForBlock(h)),
            Some(NodeCommand::BlockNotFound(h)) => WorkerAction::Write(Message::BlockNotFound(h)),
            None => WorkerAction::ControllerGone,
        },
        WorkerEvent::WriterEnded(w) => match w {
            Some(false) => WorkerAction::Exit(ConnectionClosureReason::Failed),
            _ => WorkerAction::Exit(ConnectionClosureReason::Normal),
        },
        WorkerEvent::PeerListTimer => WorkerAction::Write(Message::AskPeerList),
    }
}

/// Decides how the worker of node `node_id` reacts to `event`.
pub fn node_worker_step<N, B, BH, H>(node_id: N, event: WorkerEvent<B, BH, H>) -> (a: WorkerAction<
    N,
    B,
    BH,
    H,
>)
    ensures
        a == worker_response(node_id, event),
        // a closing command ends the connection with the reason it gives
        event matches WorkerEvent::Command(Some(NodeCommand::Close(r))) ==> a == WorkerAction::<
            N,
            B,
            BH,
            H,
        >::Exit(r),
        // any other command is forwarded to the node as the matching message
        event matches WorkerEvent::Command(Some(NodeCommand::SendPeerList(l))) ==> a
            == WorkerAction::<N, B, BH, H>::Write(Message::PeerList(l)),
        event matches WorkerEvent::Command(Some(NodeCommand::SendBlock(b))) ==> a == WorkerAction::<
            N,
            B,
            BH,
            H,
        >::Write(Message::Block(b)),
        event matches WorkerEvent::Command(Some(NodeCommand::SendBlockHeader(h))) ==> a
            == WorkerAction::<N, B, BH, H>::Write(Message::BlockHeader(h)),
        event matches WorkerEvent::Command(Some(NodeCommand::AskForBlock(h))) ==> a
            == WorkerAction::<N, B, BH, H>::Write(Message::AskForBlock(h)),
        event matches WorkerEvent::Command(Some(NodeCommand::BlockNotFound(h))) ==> a
            == WorkerAction::<N, B, BH, H>::Write(Message::BlockNotFound(h)),
        event matches WorkerEvent::Command(None) ==> a is ControllerGone,
        // what the node sends is reported to the controller under its id
        event matches WorkerEvent::SocketMessage(Message::Block(b)) ==> a == WorkerAction::<
            N,
            B,
            BH,
            H,
        >::Emit(NodeEvent(node_id, NodeEventType::ReceivedBlock(b))),
        event matches WorkerEvent::SocketMessage(Message::BlockHeader(h)) ==> a
            == WorkerAction::<N, B, BH, H>::Emit(
            NodeEvent(node_id, NodeEventType::ReceivedBlockHeader(h)),
        ),
        event matches WorkerEvent::SocketMessage(Message::AskForBlock(h)) ==> a
            == WorkerAction::<N, B, BH, H>::Emit(
            NodeEvent(node_id, NodeEventType::ReceivedAskForBlock(h)),
        ),
        event matches WorkerEvent::SocketMessage(Message::PeerList(l)) ==> a == WorkerAction::<
            N,
            B,
            BH,
            H,
        >::Emit(NodeEvent(node_id, NodeEventType::ReceivedPeerList(l))),
        event matches WorkerEvent::SocketMessage(Message::AskPeerList) ==> a == WorkerAction::<
            N,
            B,
            BH,
            H,
        >::Emit(NodeEvent(node_id, NodeEventType::AskedPeerList)),
        event matches WorkerEvent::SocketMessage(Message::BlockNotFound(h)) ==> a
            == WorkerAction::<N, B, BH, H>::Emit(NodeEvent(node_id, NodeEventType::BlockNotFound(h))),
        // an unexpected message, a socket error or a failed writer is a failure
        event matches WorkerEvent::SocketMessage(Message::Other) ==> a == WorkerAction::<
            N,
            B,
            BH,
            H,
        >::Exit(ConnectionClosureReason::Failed),
        event is SocketError ==> a == WorkerAction::<N, B, BH, H>::Exit(
            ConnectionClosureReason::Failed,
        ),
        event == WorkerEvent::<B, BH, H>::WriterEnded(Some(false)) ==> a == WorkerAction::<
            N,
            B,
            BH,
            H,
        >::Exit(ConnectionClosureReason::Failed),
        // a clean close by the node or the writer is a normal closure
        event is SocketClosed ==> a == WorkerAction::<N, B, BH, H>::Exit(
            ConnectionClosureReason::Normal,
        ),
        (event == WorkerEvent::<B, BH, H>::WriterEnded(Some(true)) || event
            == WorkerEvent::<B, BH, H>::WriterEnded(None)) ==> a == WorkerAction::<
            N,
            B,
            BH,
            H,
        >::Exit(ConnectionClosureReason::Normal),
        event is PeerListTimer ==> a == WorkerAction::<N, B, BH, H>::Write(Message::AskPeerList),
{
    match event {
        WorkerEvent::SocketMessage(msg) => match msg {
            Message::Block(b) => WorkerAction::Emit(NodeEvent(node_id, NodeEventType::ReceivedBlock(b))),
            Message::BlockHeader(h) => WorkerAction::Emit(
                NodeEvent(node_id, NodeEventType::ReceivedBlockHeader(h)),
            ),
            Message::AskForBlock(h) => WorkerAction::Emit(
                NodeEvent(node_id, NodeEventType::ReceivedAskForBlock(h)),
            ),
            Message::PeerList(l) => WorkerAction::Emit(
                NodeEvent(node_id, NodeEventType::ReceivedPeerList(l)),
            ),
            Message::AskPeerList => WorkerAction::Emit(NodeEvent(node_id, NodeEventType::AskedPeerList)),
            Message::BlockNotFound(h) => WorkerAction::Emit(
                NodeEvent(node_id, NodeEventType::BlockNotFound(h)),
            ),
            Message::Other => WorkerAction::Exit(ConnectionClosureReason::Failed),
        },
        WorkerEvent::SocketClosed => WorkerAction::Exit(ConnectionClosureReason::Normal),
        WorkerEvent::SocketError => WorkerAction::Exit(ConnectionClosureReason::Failed),
        WorkerEvent::Command(cmd) => match cmd {
            Some(NodeCommand::Close(r)) => WorkerAction::Exit(r),
            Some(NodeCommand::SendPeerList(l)) => WorkerAction::Write(Message::PeerList(l)),
            Some(NodeCommand::SendBlockHeader(h)) => WorkerAction::Write(Message::BlockHeader(h)),
            Some(NodeCommand::SendBlock(b)) => WorkerAction::Write(Message::Block(b)),
            Some(NodeCommand::AskForBlock(h)) => WorkerAction::Write(Message::AskForBlock(h)),
            Some(NodeCommand::BlockNotFound(h)) => WorkerAction::Write(Message::BlockNotFound(h)),
            None => WorkerAction::ControllerGone,
        },
        WorkerEvent::WriterEnded(w) => match w {
            Some(false) => WorkerAction::Exit(ConnectionClosureReason::Failed),
            _ => WorkerAction::Exit(ConnectionClosureReason::Normal),
        },
        WorkerEvent::PeerListTimer => WorkerAction::Write(Message::AskPeerList),
    }
}

/// The worker closes a connection with exactly the reason the controller's
/// closing command gives, and no other event closes it as banned.
pub proof fn lemma_close_reports_given_reason<N, B, BH, H>(
    node_id: N,
    event: WorkerEvent<B, BH, H>,
    r: ConnectionClosureReason,
)
    ensures
        event matches WorkerEvent::Command(Some(NodeCommand::Close(given))) ==> worker_response(
            node_id,
            event,
        ) == WorkerAction::<N, B, BH, H>::Exit(given),
        worker_response(node_id, event) == WorkerAction::<N, B, BH, H>::Exit(
            ConnectionClosureReason::Banned,
        ) ==> event == WorkerEvent::<B, BH, H>::Command(
            Some(NodeCommand::Close(ConnectionClosureReason::Banned)),
        ),
        worker_response(node_id, WorkerEvent::<B, BH, H>::Command(Some(NodeCommand::Close(r))))
            == WorkerAction::<N, B, BH, H>::Exit(r),
{
}

/// Every event the worker sends to the controller carries its node's id, and
/// every action that sends, writes or stops answers one event alone.
pub proof fn lemma_emits_carry_node_id<N, B, BH, H>(node_id: N, event: WorkerEvent<B, BH, H>)
    ensures
        worker_response(node_id, event) matches WorkerAction::Emit(e) ==> e.0 == node_id
            && event is SocketMessage,
        worker_response(node_id, event) is Write ==> (event is Command || event is PeerListTimer),
        worker_response(node_id, event) is ControllerGone <==> event == WorkerEvent::<
            B,
            BH,
            H,
        >::Command(None),
{
}

/// What the worker tells the hang monitor before handling an event.
#[derive(Clone, Copy, Debug, PartialEq, Eq, Structural)]
pub enum ActivityNotice {
    /// The message read from the socket, reported as the monitor reads it.
    SocketMessage,
    /// This annotation.
    Node(NodeHangAnnotation),
}

/// The notice for `event`, if the hang monitor hears of it: every socket
/// message, every command that arrived, and the peer-list timer.
pub open spec fn activity_notice_of<B, BH, H>(event: WorkerEvent<B, BH, H>) -> Option<ActivityNotice> {
    match event {
        WorkerEvent::SocketMessage(_) => Some(ActivityNotice::SocketMessage),
        WorkerEvent::Command(Some(cmd)) => Some(ActivityNotice::Node(command_annotation(cmd))),
        WorkerEvent::PeerListTimer => Some(ActivityNotice::Node(NodeHangAnnotation::SendAskPeerList)),
        _ => None,
    }
}

/// Decides what to tell the hang monitor before handling `event`.
pub fn activity_notice<B, BH, H>(event: &WorkerEvent<B, BH, H>) -> (r: Option<ActivityNotice>)
    ensures
        r == activity_notice_of(*event),
{
    match event {
        WorkerEvent::SocketMessage(_) => Some(ActivityNotice::SocketMessage),
        WorkerEvent::Command(Some(cmd)) => Some(ActivityNotice::Node(NodeHangAnnotation::from(cmd))),
        WorkerEvent::PeerListTimer => Some(ActivityNotice::Node(NodeHangAnnotation::SendAskPeerList)),
        _ => None,
    }
}

/// The last event a worker sends: its node's connection closed for `reason`.
pub fn closed_event<N, B, BH, H>(node_id: N, reason: ConnectionClosureReason) -> (e: NodeEvent<
    N,
    B,
    BH,
    H,
>)
    ensures
        e == NodeEvent::<N, B, BH, H>(node_id, NodeEventType::Closed(reason)),
{
    NodeEvent(node_id, NodeEventType::Closed(reason))
}

} // verus!
