//! Slice-like views over any container with indexed access.
//!
//! A container that can hand out its elements by position and report its
//! length implements [`TakeSlice`]; it then gains `index_range` and its
//! relatives, which give bounds-checked windows ([`Slice`], [`SliceMut`])
//! into it, and forward iterators ([`Iter`], [`IterMut`]) over those windows.
//! Positions are values of any type that implements [`Idx`].

pub mod error;
pub mod index;
pub mod iter;
pub mod laws;
pub mod slice;
pub mod take_slice;
pub mod util;

pub use error::SliceError;
pub use index::Idx;
pub use iter::{Iter, IterMut};
pub use slice::{Slice, SliceMut};
pub use take_slice::TakeSlice;
