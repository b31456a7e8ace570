//! Control core for a small robot: commands handed over a channel to an
//! actuation worker that latches the newest one and emits a device frame on
//! every tick, and the seed layout of the bodies of the simulated field.
pub mod channel;
pub mod command;
pub mod frame;
pub mod keys;
pub mod layout;
pub mod worker;
