//! Rule engine of a three-peg, four-disc Tower of Hanoi played with a
//! pointer that moves between pegs and a two-phase select-and-move command.

pub mod game;
pub mod laws;
