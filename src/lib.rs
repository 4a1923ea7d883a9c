//! The rules of a five-letter word-guessing game: marking a guess against the
//! answer, the rows typed into, the letter pool that sums up what is known, the
//! board that plays six rows in turn, and choosing the answer.
use vstd::prelude::*;

pub mod board;
pub mod cli;
pub mod dictionary;
pub mod evaluate;
pub mod letter_map;
pub mod letter_pool;
pub mod model;
pub mod provider;
pub mod summary;
pub mod text;
pub mod word_line;
