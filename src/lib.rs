//! Safe, reference-counted handles over foreign objects that expose
//! themselves as tables of function pointers, each view named by a
//! 128-bit interface identifier.
use vstd::prelude::*;

pub mod comptr;
pub mod iid;
pub mod view;

pub use comptr::{CastError, ComPtr, LifecycleCall};
pub use iid::IID;
pub use view::{AsComPtr, ComInterface, IUnknown};

verus! {

/// Status returned by a query: zero and positive values are successes,
/// negative values failures.
pub type HResult = i32;

} // verus!
