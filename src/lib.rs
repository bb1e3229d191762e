//! Fetches a word's pronunciation clip, plays it for the user to keep or
//! discard, and saves the kept clip.
//!
//! The modules hold the verified logic: the cancellable timer that shows a
//! notice during a slow transfer, the classification of the transfer, the
//! save/replay prompt, the file operations that keep a clip, and the
//! decisions of a run (paths, address, destination).
pub mod finalize;
pub mod prompt;
pub mod timer;
pub mod transfer;
pub mod workflow;
