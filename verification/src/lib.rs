//! Miranda engine core: the verified logic behind the shared payload
//! constants, the ARKit channel table, the lock-free bus's ring discipline,
//! the data-plane packet codec, the turn-taking and circuit-breaker state
//! machines, and the dispatcher's bookkeeping.

pub mod core_types;
pub mod arkit;
pub mod ring;
pub mod bus;
pub mod bytes_buf;
pub mod frame;
pub mod turn_machine;
pub mod channel;
pub mod telemetry;
pub mod hub;
pub mod dispatcher;
pub mod capture;
pub mod wiring;
pub mod viseme;
pub mod conversation;
pub mod asr;
pub mod verify;
