//! Control logic of a pulse-density-modulated CTCSS subtone generator: the
//! tone table and its dial arithmetic, the clock divider, the bitstream
//! generator, the input decoders, the persisted configuration record and the
//! decisions of the interaction and audio loops.

pub mod button;
pub mod config;
pub mod controller;
pub mod display;
pub mod divider;
pub mod encoder;
pub mod pdm;
pub mod tones;
