//! Producers for a matrix-display daemon: periodic generators that emit
//! randomized pixel-color frames onto a channel, and an interrupt adapter
//! that turns an operating-system interrupt into channel-based shutdown
//! notifications.

pub mod channel;
pub mod frame;
pub mod generator;
pub mod interrupt;
