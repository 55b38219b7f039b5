//! Message protocol, portable block snapshots and the machine interface of a
//! distributed reactive dataflow runtime.
//!
//! The engine's own types (transformations, errors, number literals,
//! transactions, tables) and live socket handles are type parameters: this
//! layer carries them without looking inside.
mod machine;
mod message;
mod register;
mod rehydrate;
mod runloop;
mod snapshot;
mod store;

pub use machine::{
    outcome_index, subscribed, subscribers, Machine, MachineHost, MachineRegistrar,
};
pub use message::{
    lemma_promotion_injective, lemma_promotion_tags_origin, lemma_promotion_total, promoted,
    RunLoopMessage, SocketMessage,
};
pub use register::Register;
pub use rehydrate::{maximize_block, RehydratedBlock};
pub use runloop::RunLoopState;
pub use snapshot::{MechCode, MiniBlock, MiniProgram};
pub use store::{
    interned, interned_onto, lemma_interned_last_wins, lemma_interned_untouched, InternStore,
};
