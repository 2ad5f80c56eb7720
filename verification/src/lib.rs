//! Monte Carlo geometry of random inscribed simplices.
//!
//! The library answers one geometric question exactly: given four points
//! (the vertices of a tetrahedron) or three points (a triangle), does the
//! figure contain the origin?  Coordinates are fixed-point integers, with
//! [`geom::SCALE`] standing for the real number 1, so every determinant and
//! every containment decision is computed and specified exactly.
//!
//! An accumulator aggregates trial outcomes for the classic experiment:
//! the probability that a tetrahedron with four vertices drawn uniformly
//! on the unit sphere contains the sphere's centre (theoretically 1/8).
//! Drawing the random vertices themselves needs floating point and a
//! random source, so it is left to the surrounding program, which hands
//! quantised points in.

pub mod geom;
pub mod orient;
pub mod sim;
