pub mod actions;
pub mod monome;
pub mod net;
pub mod osc;

pub use actions::{MonomeAction, MonomeEvent, PREFIX};
pub use monome::MonomeError;
pub use osc::{Arg, CodecError, Message, Packet};
