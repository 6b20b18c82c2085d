//! A runtime-switchable output sink.
//!
//! The crate centers on one concurrency primitive: a slot that holds the
//! currently installed sink and lets a controller replace it atomically
//! while readers keep writing through it. Readers and controller are split
//! into two handles, [`switch::AtomicSwitch`] and
//! [`switch::AtomicSwitchCtrl`], over one [`slot::SharedSlot`]. A small
//! [`pending::PendingFlag`] carries a replacement request from a restricted
//! asynchronous context to an ordinary poll loop.

pub mod laws;
pub mod pending;
pub mod sink;
pub mod slot;
pub mod switch;

pub use pending::PendingFlag;
pub use pending::poll_apply;
pub use sink::DiscardSink;
pub use sink::Level;
pub use sink::RecordView;
pub use sink::Sink;
pub use sink::SinkRecord;
pub use sink::TokenSink;
pub use slot::SharedSlot;
pub use switch::AtomicSwitch;
pub use switch::AtomicSwitchCtrl;
