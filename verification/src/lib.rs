//! Core of a top-down 2D arena: a fixed rectangular playfield enclosed by
//! static walls, two angled static obstacles, and one player-controlled
//! dynamic body, advanced by a fixed-timestep loop that maps keyboard state
//! to a velocity once per simulation tick.
//!
//! All geometry is modelled with integer coordinates; angles are measured in
//! sixtieths of a full turn. The physics engine that resolves collisions is
//! an external collaborator: this crate states what a simulation step may
//! change and proves the properties of everything around it.

pub mod entity;
pub mod geom;
pub mod input;
pub mod scheduler;
pub mod world;
