//! Core of a terminal hangman game: the guess normalizer and the game state
//! machine, with contracts that pin down every transition and rendering query.
//! Presentation (gallows art, widget layout) and the word source live outside
//! this crate; they only exchange plain values with it.

pub mod game;
pub mod letters;
