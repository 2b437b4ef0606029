//! Verified core of the LYTE mastering desktop tool.
//!
//! The tool masters a track with PhaseLimiter and FFmpeg, both run as separate
//! programs. This library holds what the tool decides and reads: the limits a
//! request must respect (`rules`), the text it reads back from the programs
//! (`logs`, over `text` and `number`), the command lines and filter graphs it
//! runs (`commands`), the overview waveform (`waveform`), the Auto profiles,
//! their reports and the recommendation (`auto`), the settings of each engine
//! pass and the waiting for the engine (`engine`), the decisions of the final
//! level calibration (`calibration`), and file and session names (`files`). Levels and settings are doubles; the library compares them
//! through their bit patterns (`float_bits`) and leaves arithmetic on them to
//! the caller.
pub mod text;
pub mod number;
pub mod logs;
pub mod float_bits;
pub mod rules;
pub mod waveform;
pub mod auto;
pub mod commands;
pub mod files;
pub mod calibration;
pub mod engine;
