//! Kernel handles and the one call a launch makes into the driver.

use vstd::prelude::*;

use crate::extent::{Block, Grid};
use crate::status::{check, LaunchError, SUCCESS};

verus! {

/// Queue on which the device runs a launch.
#[derive(Debug, Clone, Copy, PartialEq, Eq, Structural)]
pub enum Stream {
    /// The implicit default stream. Launches on it run one after another, in
    /// the order in which they were enqueued.
    Default,
}

/// Extra launch options beside the kernel arguments.
#[derive(Debug, Clone, Copy, PartialEq, Eq, Structural)]
pub enum ExtraOptions {
    /// No extra-options array is handed to the driver.
    Absent,
}

/// Everything the driver's launch primitive is called with, in the order in
/// which it takes it.
///
/// `F` is the driver's reference to a device function and `A` the array of
/// type-erased argument pointers; this crate only carries them through.
#[derive(Debug, PartialEq, Eq)]
pub struct LaunchCall<F, A> {
    pub func: F,
    pub grid_x: u32,
    pub grid_y: u32,
    pub grid_z: u32,
    pub block_x: u32,
    pub block_y: u32,
    pub block_z: u32,
    pub shared_mem_bytes: u32,
    pub stream: Stream,
    pub args: A,
    pub extra: ExtraOptions,
}

/// The call that launches `func` on `args` with the shape `grid` by `block`:
/// each axis goes to the driver as given, no dynamic shared memory is asked
/// for, the launch runs on the default stream, and no extra options are set.
pub open spec fn launch_call<F, A>(func: F, args: A, grid: Grid, block: Block) -> LaunchCall<F, A> {
    LaunchCall {
        func: func,
        grid_x: grid.x,
        grid_y: grid.y,
        grid_z: grid.z,
        block_x: block.x,
        block_y: block.y,
        block_z: block.z,
        shared_mem_bytes: 0,
        stream: Stream::Default,
        args: args,
        extra: ExtraOptions::Absent,
    }
}

/// Handle to a function of a loaded module.
///
/// The handle borrows its module for `'m`, so it cannot be kept, and hence
/// not launched, once the module is gone.
#[derive(Debug)]
pub struct Kernel<'m, F, M> {
    func: F,
    module: &'m M,
}

impl<'m, F: Copy, M> Kernel<'m, F, M> {
    /// The driver's reference to the device function.
    pub closed spec fn spec_func(&self) -> F {
        self.func
    }

    /// The module that the function was looked up in.
    pub closed spec fn spec_module(&self) -> &'m M {
        self.module
    }

    /// Binds the function reference `func`, as looked up in `module`, to
    /// that module.
    pub fn new(func: F, module: &'m M) -> (kernel: Self)
        ensures
            kernel.func() == func,
            kernel.module() == module,
    {
        Kernel { func: func, module: module }
    }

    /// The driver's reference to the device function.
    #[verifier::when_used_as_spec(spec_func)]
    pub fn func(&self) -> (func: F)
        ensures
            func == self.spec_func(),
    {
        self.func
    }

    /// The module that the function was looked up in.
    #[verifier::when_used_as_spec(spec_module)]
    pub fn module(&self) -> (module: &'m M)
        ensures
            module == self.spec_module(),
    {
        self.module
    }

    /// What the driver is to be called with to launch this kernel.
    pub fn launch_call<A>(&self, args: A, grid: Grid, block: Block) -> (call: LaunchCall<F, A>)
        ensures
            call == launch_call(self.func(), args, grid, block),
    {
        LaunchCall {
            func: self.func,
            grid_x: grid.x,
            grid_y: grid.y,
            grid_z: grid.z,
            block_x: block.x,
            block_y: block.y,
            block_z: block.z,
            shared_mem_bytes: 0,
            stream: Stream::Default,
            args: args,
            extra: ExtraOptions::Absent,
        }
    }

    /// Launches the kernel: calls `driver` once, with
    /// [`launch_call`] of this kernel's function and the given arguments and
    /// shape, and reports the status it answers with.
    ///
    /// The result is `Ok` exactly when the driver answered [`SUCCESS`];
    /// otherwise it is `LaunchFailed` with the driver's status. The kernel is
    /// only enqueued: a success does not mean that it has run.
    pub fn launch<A, D>(&mut self, args: A, grid: Grid, block: Block, driver: D) -> (res: Result<
        (),
        LaunchError,
    >) where D: FnOnce(LaunchCall<F, A>) -> u32
        requires
            driver.requires((launch_call(old(self).func(), args, grid, block),)),
        ensures
            *final(self) == *old(self),
            ({
                let call = launch_call(old(self).func(), args, grid, block);
                match res {
                    Ok(_) => driver.ensures((call,), SUCCESS),
                    Err(LaunchError::LaunchFailed(status)) => {
                        &&& status != SUCCESS
                        &&& driver.ensures((call,), status)
                    },
                }
            }),
    {
        let call = self.launch_call(args, grid, block);
        let status: u32 = driver(call);
        check(status)
    }
}

} // verus!
