//! View types: each names the shape of a function table and the
//! identifier that foreign objects answer to, and declares which other
//! views its table begins with.
use crate::iid::IID;
use vstd::prelude::*;

verus! {

/// A view type: a marker whose only runtime form is a pointer to its
/// function table, named at runtime by its identifier. Every view type
/// reaches the root view through its ancestry.
pub trait ComInterface: AsComPtr<IUnknown> {
    /// The identifier of this view type. A view type whose `iid` is
    /// verified states it here; the default leaves it unknown.
    closed spec fn spec_iid() -> IID {
        arbitrary()
    }

    /// Returns the identifier of this view type.
    fn iid() -> (r: IID)
        ensures
            r == Self::spec_iid(),
    ;
}

/// Declares that a pointer to a view of the implementing type may also be
/// read as a pointer to a view of type `U`: the implementing type's function
/// table begins with `U`'s, directly or through its own bases.
///
/// Every view type declares this for itself and for each of its ancestors.
/// A table embeds exactly one base at its front; a further ancestor may be
/// declared only where it is already reached through that base, since the
/// declaration adds no layout of its own. Nothing here can check that: it
/// is a precondition on how a view type is written.
pub trait AsComPtr<U> {

}

/// The root view that every foreign object exposes: query for another
/// view, increment and decrement the object's reference count. Like every
/// view type it carries no state of its own; a handle on it holds the
/// address of the object's view.
#[derive(Debug)]
pub struct IUnknown;

/// The identifier of the root view, `{00000000-0000-0000-C000-000000000046}`.
pub open spec fn iunknown_iid() -> IID {
    IID { data1: 0, data2: 0, data3: 0, data4: [0xC0, 0, 0, 0, 0, 0, 0, 0x46] }
}

impl ComInterface for IUnknown {
    open spec fn spec_iid() -> IID {
        iunknown_iid()
    }

    fn iid() -> (r: IID) {
        IID { data1: 0, data2: 0, data3: 0, data4: [0xC0, 0, 0, 0, 0, 0, 0, 0x46] }
    }
}

impl AsComPtr<IUnknown> for IUnknown {

}

} // verus!
