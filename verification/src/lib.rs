//! A small engine toolkit: generic matrices, vectors, quaternions and camera projections
//! (`glamour`), the in-memory model and the grammar of Stanford PLY files (`ply`), the
//! movement directions of the player character (`pacman`), and the scene hierarchy of
//! identifiers and their data (`hierarchy`).

pub mod glamour;
pub mod ply;
pub mod pacman;
pub mod hierarchy;
