use vstd::prelude::*;
use crate::register::Register;
use crate::snapshot::{MechCode, MiniBlock};

verus! {

/// A message as it crosses between cores.
///
/// `T`, `E` and `N` are the engine's transformation, error and number literal
/// (carried in code payloads); `X` is its transaction.
#[derive(Debug)]
pub enum SocketMessage<T, E, N, X> {
    Ping,
    Pong,
    RemoteCoreConnect(String),
    RemoteCoreDisconnect(u64),
    Listening(Register),
    Producing(Register),
    Code(MechCode<T, E, N>),
    RemoveBlock(usize),
    Transaction(X),
}

/// A message to a core's own run loop. `S` is a live socket handle.
#[derive(Debug)]
pub enum RunLoopMessage<T, E, N, X, S> {
    Ping,
    Pong,
    Stop,
    StepBack,
    StepForward,
    Pause,
    Resume,
    Clear,
    String((String, u32)),
    Exit(i32),
    PrintCore(Option<u64>),
    PrintRuntime,
    Listening((u64, Register)),
    Producing((u64, Register)),
    GetTable(u64),
    Transaction(X),
    Code(MechCode<T, E, N>),
    EchoCode(String),
    Blocks(Vec<MiniBlock<T, E, N>>),
    RemoteCoreConnect(S),
    RemoteCoreDisconnect(u64),
    RemoveBlock(usize),
}

/// The run loop message that a wire message from remote core `origin`
/// becomes; none for a connect, which waits for a live socket.
pub open spec fn promoted<T, E, N, X, S>(
    msg: SocketMessage<T, E, N, X>,
    origin: u64,
) -> Option<RunLoopMessage<T, E, N, X, S>> {
    match msg {
        SocketMessage::Ping => Some(RunLoopMessage::Ping),
        SocketMessage::Pong => Some(RunLoopMessage::Pong),
        SocketMessage::RemoteCoreConnect(_) => None,
        SocketMessage::RemoteCoreDisconnect(id) => Some(RunLoopMessage::RemoteCoreDisconnect(id)),
        SocketMessage::Listening(reg) => Some(RunLoopMessage::Listening((origin, reg))),
        SocketMessage::Producing(reg) => Some(RunLoopMessage::Producing((origin, reg))),
        SocketMessage::Code(code) => Some(RunLoopMessage::Code(code)),
        SocketMessage::RemoveBlock(ix) => Some(RunLoopMessage::RemoveBlock(ix)),
        SocketMessage::Transaction(txn) => Some(RunLoopMessage::Transaction(txn)),
    }
}

impl<T, E, N, X> SocketMessage<T, E, N, X> {
    /// Promotes a message received from remote core `origin` to a run loop
    /// message. A connect cannot be promoted from its address alone: the
    /// address comes back as the error, for the transport to open a socket.
    pub fn promote<S>(self, origin: u64) -> (r: Result<RunLoopMessage<T, E, N, X, S>, String>)
        ensures
            r is Err <==> self is RemoteCoreConnect,
            r matches Err(address) ==> self == SocketMessage::<T, E, N, X>::RemoteCoreConnect(address),
            r matches Ok(m) ==> promoted::<T, E, N, X, S>(self, origin) == Some(m),
    {
        match self {
            SocketMessage::Ping => Ok(RunLoopMessage::Ping),
            SocketMessage::Pong => Ok(RunLoopMessage::Pong),
            SocketMessage::RemoteCoreConnect(address) => Err(address),
            SocketMessage::RemoteCoreDisconnect(id) => Ok(RunLoopMessage::RemoteCoreDisconnect(id)),
            SocketMessage::Listening(reg) => Ok(RunLoopMessage::Listening((origin, reg))),
            SocketMessage::Producing(reg) => Ok(RunLoopMessage::Producing((origin, reg))),
            SocketMessage::Code(code) => Ok(RunLoopMessage::Code(code)),
            SocketMessage::RemoveBlock(ix) => Ok(RunLoopMessage::RemoveBlock(ix)),
            SocketMessage::Transaction(txn) => Ok(RunLoopMessage::Transaction(txn)),
        }
    }
}

/// Every wire message but a connect has a run loop message; a connect has
/// none until a live socket handle stands in for its address.
pub proof fn lemma_promotion_total<T, E, N, X, S>(msg: SocketMessage<T, E, N, X>, origin: u64)
    ensures
        promoted::<T, E, N, X, S>(msg, origin) is None <==> msg is RemoteCoreConnect,
{
}

/// Promotion keeps wire messages apart: two messages from the same core that
/// promote to the same run loop message are the same message.
pub proof fn lemma_promotion_injective<T, E, N, X, S>(
    a: SocketMessage<T, E, N, X>,
    b: SocketMessage<T, E, N, X>,
    origin: u64,
)
    requires
        promoted::<T, E, N, X, S>(a, origin) is Some,
        promoted::<T, E, N, X, S>(a, origin) == promoted::<T, E, N, X, S>(b, origin),
    ensures
        a == b,
{
}

/// Subscriptions and publications are promoted under the core they came from.
pub proof fn lemma_promotion_tags_origin<T, E, N, X, S>(reg: Register, origin: u64)
    ensures
        promoted::<T, E, N, X, S>(SocketMessage::Listening(reg), origin)
            == Some(RunLoopMessage::<T, E, N, X, S>::Listening((origin, reg))),
        promoted::<T, E, N, X, S>(SocketMessage::Producing(reg), origin)
            == Some(RunLoopMessage::<T, E, N, X, S>::Producing((origin, reg))),
{
}

} // verus!
