//! Wrappers around the handles of a 3D graphics driver, and the vertex
//! layouts that the driver is told about.
//!
//! Nothing here talks to the driver. A wrapper decides which request is due
//! and hands it out as a [`gl_driver::DriverCall`]; whoever owns the graphics
//! context carries it out and hands back what the driver answered.

pub mod gl_driver;
pub mod gl_layout;
pub mod gl_traits;
pub mod gl_types;
pub mod gl_vertex;
pub mod gl_vertex_attribute;
