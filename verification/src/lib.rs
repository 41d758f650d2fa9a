//! Verified planning core of a procedural undergrowth scene generator.
//!
//! A scene is a patch of terrain with vegetation on it, grown from one seed.
//! This crate holds what is decided about a scene before anything is drawn:
//! which sub-seed each part is grown from, how the fields of the terrain and
//! of the vegetation's density are composed, in which order the point
//! process visits its cells, how a cap on the number of entities is enforced,
//! how the guide image is addressed, and when a mesh is fit for upload.
//! Evaluating noise, building transforms and talking to the graphics driver
//! is left to the program that links this crate.

pub mod assets;
pub mod display;
pub mod error;
pub mod field;
pub mod foliage;
pub mod mesh;
pub mod points;
pub mod renderer;
pub mod rng;
pub mod scene;
pub mod shader;
pub mod terrain;
pub mod texture;
