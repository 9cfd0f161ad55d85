//! A network audio pipe: raw 16-bit stereo PCM moves between a socket and an
//! audio device through a blocking byte channel.
//!
//! - `ring`: the single-producer / single-consumer byte channel.
//! - `jitter`: the controller that feeds the output device from the channel
//!   and keeps its latency small.
//! - `link`: the supervisor that keeps an endpoint connected.
//! - `pcm`: samples and their little-endian bytes.
pub mod jitter;
pub mod link;
pub mod pcm;
pub mod ring;
