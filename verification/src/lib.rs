//! Notification lifecycle engine: allocates notification identities,
//! stores active notifications, tracks replace/close/expire transitions,
//! and tells its caller which signals to emit and which timers to arm.
//!
//! The engine is purely transitional: it never blocks and performs no
//! input or output itself. The surrounding process delivers decoded
//! method calls and elapsed timers to it, and performs the timer arming
//! and signal emission the engine's results call for.

pub mod caps;
pub mod engine;
pub mod laws;
pub mod types;

pub use caps::ServerInformation;
pub use caps::get_capabilities;
pub use caps::get_server_information;

pub use engine::Engine;
pub use types::CloseReason;
pub use types::ClosedSignal;
pub use types::EngineError;
pub use types::HintValue;
pub use types::Notification;
pub use types::NotifyOutcome;
pub use types::TimerCmd;
