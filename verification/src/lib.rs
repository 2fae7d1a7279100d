//! A snake game engine: the discrete-tick simulation of a snake on a square
//! grid, together with the list of drawing commands that keeps a canvas in
//! step with it. Every function carries a contract that Verus proves.

pub mod game;
