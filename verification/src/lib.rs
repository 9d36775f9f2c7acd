//! Transport logic of a low-latency audio player: a decoder thread fills a
//! ring buffer with samples and a hardware callback drains it, both steered
//! through a handful of lock-free cells.

pub mod decoder;
pub mod laws;
pub mod output;
pub mod player;
pub mod ring;
pub mod services;
pub mod timing;
pub mod track;
pub mod transport;
