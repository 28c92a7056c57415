//! A minimal data model for chess board coordinates and moves, with
//! verified bidirectional conversion to and from UCI text notation.
//!
//! A [`square::Square`] is one board cell, written as two characters such as
//! `"e4"`; a [`movement::Move`] is an ordered pair of squares, written as four
//! characters such as `"e2e4"`. There is no board state and no legality
//! checking: the crate is a leaf utility for the coordinate codec alone.

pub mod movement;
pub mod square;
