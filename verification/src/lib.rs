//! Launching compute kernels on an accelerator device.
//!
//! A [`Kernel`] is a handle to a device function that borrows the module the
//! function was loaded from. Launching it hands the driver one
//! [`LaunchCall`]: the function, the shape of the thread hierarchy
//! ([`Grid`] and [`Block`]), the kernel arguments, and the fixed choices this
//! crate makes for shared memory, stream and extra options. Whatever status
//! the driver answers with is turned into a `Result` by [`check`].
//!
//! The crate never touches the device itself. The driver's launch primitive
//! is handed to [`Kernel::launch`] as a function, and everything stated about
//! a launch holds for every such function.

pub mod extent;
pub mod kernel;
pub mod status;

pub use extent::{Block, Grid};
pub use kernel::{ExtraOptions, Kernel, LaunchCall, Stream};
pub use status::{check, LaunchError, SUCCESS};
