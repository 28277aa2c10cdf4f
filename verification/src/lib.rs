//! A terminal metronome: its settings, the clock that follows the audio
//! thread's beats, and the sample-by-sample beat sequence.
pub mod config;
pub mod timestamp;
pub mod cmd;
pub mod shared;
pub mod metronome;
pub mod controls;
pub mod runner;
pub mod widgets;
