//! Dense two-dimensional tensor primitives for a compute device.
//!
//! The library decides what the device is asked to do: which buffers are
//! created and how large they are, which kernel runs over which bindings and
//! on which workgroup grid, which bytes are copied, and when a host read may
//! take place. Every decision is recorded as a [`Command`] on a [`Device`];
//! a driver performs the commands in order on the graphics backend and hands
//! the outcome of host mapping back to a [`Readback`].


pub mod bytes;
pub mod device;
pub mod error;
pub mod grid;
pub mod memory;
pub mod readback;
pub mod shape;
pub mod tensor;

pub use device::{BindGroup, Buffer, Command, Device, Op, Pipeline, Startup, Usage};
pub use error::Error;
pub use grid::Grid;
pub use readback::{MapSignal, MappedRange, Readback};
pub use shape::{Kind, Shape, D2, F32};
pub use tensor::{Tensor, Tensor2D};
