//! A work timer that blocks distracting domains through the host file until
//! the day's quota is met, and keeps its state across restarts.
pub mod clock;
pub mod hosts;
pub mod session;
pub mod status;
pub mod timer;
