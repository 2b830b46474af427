//! A bridge between a script engine, native code and a host runtime: the
//! model of the values that cross the boundary, the protocol that schedules
//! timers on the host, and the exchange of byte buffers with ownership handed
//! over explicitly.
pub mod callback;
pub mod exchange;
pub mod host;
pub mod platform;
pub mod timer;
