//! A skill tree on a canvas that pans and zooms: the viewport transform,
//! the reading of a frame's input, hit-testing of nodes and dialogues, and
//! the tree of nodes with its tasks and progress.
//!
//! All numbers are fixed-point: see [`fixed`]. The crate draws nothing and
//! reads no device or file. It is handed a frame's input and a tree, and
//! tells what is selected, what has changed and where things go on the
//! screen.

pub mod camera;
pub mod fixed;
pub mod forest;
pub mod geometry;
pub mod gtree;
pub mod hit_test;
pub mod input;
pub mod list_view;
pub mod panels;
pub mod scene;
pub mod state;
