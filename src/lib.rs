//! Guest-signal trap logic for a WebAssembly sandbox runtime.
//!
//! - `trapcode`: trap codes and the compiler's trap manifest, looked up by binary search.
//! - `instance`: a guest instance's execution state and the fault report it carries.
//! - `signals`: the fault handler's decision procedure around a user signal policy.
//! - `registry`: the process-wide record of installed guest handlers, counted across
//!   nested and concurrent guest invocations, and the plan for re-raising a signal
//!   that is not the guest's to the host's handler.

pub mod instance;
pub mod registry;
pub mod signals;
pub mod trapcode;
