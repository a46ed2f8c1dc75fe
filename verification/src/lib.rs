//! Decision logic of a webOS TV client for desktop and game streaming.
use vstd::prelude::*;

pub mod app;
pub mod art;
pub mod audio;
pub mod backend;
pub mod bytes;
pub mod compositor;
pub mod discovery;
pub mod errors;
pub mod geometry;
pub mod input;
pub mod keyboard;
pub mod library;
pub mod logger;
pub mod luna;
pub mod model;
pub mod pixels;
pub mod probe;
pub mod seqs;
pub mod spinner;
pub mod store;
pub mod text;

verus! {

} // verus!
