//! Ownership and bookkeeping for a handful of GPU objects: buffers, vertex
//! arrays, shader stages and programs.
//!
//! The library never calls a graphics driver. It decides: which commands an
//! operation amounts to and in which order, whether a build succeeded, what a
//! failed build reports, and what is left bound afterwards. A backend that
//! owns the rendering context supplies the names the driver generates and the
//! answers the driver gives, and carries the commands out.
//!
//! - [`command`] is the vocabulary of requests to the driver.
//! - [`context`] keeps the driver's bindings as a value that every binding
//!   operation updates.
//! - [`buffers`] has buffers and vertex arrays.
//! - [`shaders`] has shader stages, programs and the errors of building them.
//!
//! Every handle owns exactly one name of the driver. None can be copied, and
//! giving one up consumes it, so a name is freed at most once and is out of
//! reach afterwards. All of it is meant for the one thread that owns the
//! rendering context.

pub mod buffers;
pub mod command;
pub mod context;
pub mod shaders;
