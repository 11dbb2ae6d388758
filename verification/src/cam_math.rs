//! The camera-side names of the homogeneous constructors: the same
//! transforms the core module builds, under the names the cameras use, plus
//! the unsigned-minor variant of the cross product.

pub use crate::mat5::view4 as view;
pub use crate::mat5::ortho4 as ortho;
pub use crate::mat5::ortho4_short as ortho_short;
pub use crate::mat5::translate4 as translate;
pub use crate::mat5::scale4 as scale;
pub use crate::math4::cross;
