//! The owning handle over one view of a foreign object.
//!
//! A handle holds the address of a view (zero when empty) together with one
//! unit of the object's reference count. It never touches the object
//! itself: each operation that needs the object says so by returning the
//! [`LifecycleCall`] to make, and whoever holds the raw pointers makes it.
//! That keeps the bookkeeping (one increment per new owner, one decrement
//! per owner that goes away, none for an empty handle) checkable here.
use crate::iid::IID;
use crate::HResult;
use crate::view::{AsComPtr, ComInterface};
use std::marker::PhantomData;
use vstd::prelude::*;

verus! {

/// One call into the lifecycle protocol of the root view of a foreign
/// object, made through the view at address `target`.
#[derive(Clone, Copy, Debug, PartialEq, Eq)]
pub enum LifecycleCall {
    /// Ask the object for its view named `iid`.
    QueryInterface { target: usize, iid: IID },
    /// Increment the object's reference count.
    AddRef { target: usize },
    /// Decrement the object's reference count.
    Release { target: usize },
}

/// Why a dynamic cast produced no handle.
#[derive(Clone, Copy, Debug, PartialEq, Eq, Structural)]
pub enum CastError {
    /// The object answered the query with this failure status: it does not
    /// support the view asked for.
    Unsupported { status: i32 },
    /// The object reported success but handed back a null view.
    NullView,
}

/// The calls that an optional call amounts to.
pub open spec fn calls_of(c: Option<LifecycleCall>) -> Seq<LifecycleCall> {
    match c {
        Some(call) => seq![call],
        None => Seq::empty(),
    }
}

/// What one call does to the reference count of the object reached
/// through `addr`. A query changes no count by being made: an object that
/// supports the view counts one more unit, which the new handle then owns
/// (see [`query_effect`]).
pub open spec fn call_effect(c: LifecycleCall, addr: usize) -> int {
    match c {
        LifecycleCall::AddRef { target } => if target == addr { 1 } else { 0 },
        LifecycleCall::Release { target } => if target == addr { -1 } else { 0 },
        LifecycleCall::QueryInterface { .. } => 0,
    }
}

/// The net change that a run of calls makes to the reference count of the
/// object reached through `addr`.
pub open spec fn count_effect(calls: Seq<LifecycleCall>, addr: usize) -> int
    decreases calls.len(),
{
    if calls.len() == 0 {
        0
    } else {
        count_effect(calls.drop_last(), addr) + call_effect(calls.last(), addr)
    }
}

/// The call that duplicating a handle on `addr` makes: none for an empty
/// handle, else one increment.
pub open spec fn add_ref_call(addr: usize) -> Option<LifecycleCall> {
    if addr == 0 {
        None
    } else {
        Some(LifecycleCall::AddRef { target: addr })
    }
}

/// The call that destroying a handle on `addr` makes: none for an empty
/// handle, else one decrement.
pub open spec fn release_call(addr: usize) -> Option<LifecycleCall> {
    if addr == 0 {
        None
    } else {
        Some(LifecycleCall::Release { target: addr })
    }
}

/// The call that asking a handle on `addr` for the view `iid` makes: none
/// for an empty handle, else one query.
pub open spec fn query_call(addr: usize, iid: IID) -> Option<LifecycleCall> {
    if addr == 0 {
        None
    } else {
        Some(LifecycleCall::QueryInterface { target: addr, iid })
    }
}

/// What a query that returned `status` and wrote `out` yields: the address
/// of the new view on success, else why there is none. Non-negative
/// statuses are successes, negative ones failures.
pub open spec fn query_outcome(status: i32, out: usize) -> Result<usize, CastError> {
    if status < 0 {
        Err(CastError::Unsupported { status })
    } else if out == 0 {
        Err(CastError::NullView)
    } else {
        Ok(out)
    }
}

/// The units of reference count that a query with this answer added to
/// the object: one on success, none on failure.
pub open spec fn query_effect(status: i32, out: usize) -> int {
    if query_outcome(status, out) is Ok {
        1
    } else {
        0
    }
}

/// An owning, reference-counted handle on a view of type `T`, or an empty
/// handle.
#[derive(Debug)]
pub struct ComPtr<T> {
    ptr: usize,
    marker: PhantomData<T>,
}

impl<T> View for ComPtr<T> {
    type V = usize;

    /// The address of the owned view; zero for an empty handle.
    closed spec fn view(&self) -> usize {
        self.ptr
    }
}

impl<T: ComInterface> ComPtr<T> {
    /// An empty handle.
    pub fn new() -> (r: Self)
        ensures
            r@ == 0,
    {
        ComPtr { ptr: 0, marker: PhantomData }
    }

    /// Adopts a view pointer together with the unit of reference count
    /// that comes with it; a null pointer gives an empty handle.
    pub fn from_raw(ptr: usize) -> (r: Self)
        ensures
            r@ == ptr,
    {
        ComPtr { ptr, marker: PhantomData }
    }

    /// Whether the handle is empty.
    pub fn is_null(&self) -> (r: bool)
        ensures
            r == (self@ == 0),
    {
        self.ptr == 0
    }

    /// Reads the owned view as a view of type `U`, which the view type `T`
    /// declares as its own table or an ancestor of it. Nothing is called
    /// and nothing is counted: the address is handed back as it stands.
    pub fn as_ptr<U>(&self) -> (r: usize)
        where
            T: AsComPtr<U>,
        ensures
            r == self@,
    {
        self.ptr
    }

    /// The address of the owned view, untyped; zero for an empty handle.
    pub fn as_raw(&self) -> (r: usize)
        ensures
            r == self@,
    {
        self.ptr
    }

    /// A second handle on the same view, with the call that gives it a unit
    /// of its own: one increment, or none when the handle is empty.
    pub fn duplicate(&self) -> (r: (Self, Option<LifecycleCall>))
        ensures
            r.0@ == self@,
            r.1 == add_ref_call(self@),
    {
        (ComPtr { ptr: self.ptr, marker: PhantomData }, if self.ptr == 0 {
            None
        } else {
            Some(LifecycleCall::AddRef { target: self.ptr })
        })
    }

    /// Destroys the handle, returning the call that gives back its unit:
    /// one decrement, or none when the handle is empty.
    pub fn release(self) -> (r: Option<LifecycleCall>)
        ensures
            r == release_call(self@),
    {
        if self.ptr == 0 {
            None
        } else {
            Some(LifecycleCall::Release { target: self.ptr })
        }
    }

    /// The query that asks the object behind this handle for its view of
    /// type `U`; none when the handle is empty. The handle itself is left
    /// as it is.
    pub fn query_request<U: ComInterface>(&self) -> (r: Option<LifecycleCall>)
        ensures
            r == query_call(self@, U::spec_iid()),
    {
        if self.ptr == 0 {
            None
        } else {
            Some(LifecycleCall::QueryInterface { target: self.ptr, iid: U::iid() })
        }
    }

    /// Finishes a dynamic cast from the answer to its query: a new handle
    /// that owns the unit the object counted on success, else the reason
    /// there is none.
    pub fn from_query(status: HResult, out: usize) -> (r: Result<Self, CastError>)
        ensures
            match query_outcome(status, out) {
                Ok(addr) => r is Ok && r->Ok_0@ == addr,
                Err(e) => r == Err::<Self, CastError>(e),
            },
    {
        if status < 0 {
            Err(CastError::Unsupported { status })
        } else if out == 0 {
            Err(CastError::NullView)
        } else {
            Ok(ComPtr { ptr: out, marker: PhantomData })
        }
    }
}

} // verus!

verus! {

proof fn lemma_count_effect_one(c: LifecycleCall, addr: usize)
    ensures
        count_effect(seq![c], addr) == call_effect(c, addr),
{
    assert(seq![c].drop_last() =~= Seq::<LifecycleCall>::empty());
    assert(seq![c].last() == c);
    assert(count_effect(Seq::<LifecycleCall>::empty(), addr) == 0);
}

proof fn lemma_count_effect_two(c: LifecycleCall, e: LifecycleCall, addr: usize)
    ensures
        count_effect(seq![c, e], addr) == call_effect(c, addr) + call_effect(e, addr),
{
    assert(seq![c, e].drop_last() =~= seq![c]);
    lemma_count_effect_one(c, addr);
}

/// Duplicating a non-empty handle counts exactly one more unit on its
/// object. The duplicate and the original each give back a unit of their
/// own when destroyed, so destroying both takes exactly two, in either
/// order.
pub proof fn lemma_duplicate_then_release_both<T>(h: ComPtr<T>, d: ComPtr<T>)
    requires
        h@ != 0,
        d@ == h@,
    ensures
        count_effect(calls_of(add_ref_call(h@)), h@) == 1,
        release_call(h@) is Some,
        release_call(d@) is Some,
        count_effect(calls_of(release_call(h@)) + calls_of(release_call(d@)), h@) == -2,
        count_effect(calls_of(release_call(d@)) + calls_of(release_call(h@)), h@) == -2,
{
    let a = LifecycleCall::AddRef { target: h@ };
    let r = LifecycleCall::Release { target: h@ };
    lemma_count_effect_one(a, h@);
    assert(calls_of(release_call(h@)) + calls_of(release_call(d@)) =~= seq![r, r]);
    assert(calls_of(release_call(d@)) + calls_of(release_call(h@)) =~= seq![r, r]);
    lemma_count_effect_two(r, r, h@);
}

/// A dynamic cast that the object refuses yields the failure result and no
/// handle, adds no unit to the object, and its query changes no count;
/// the source handle, which the query only borrows, stays as it was.
pub proof fn lemma_refused_query(addr: usize, iid: IID, status: i32, out: usize)
    requires
        status < 0,
    ensures
        query_outcome(status, out) == Err::<usize, CastError>(CastError::Unsupported { status }),
        query_effect(status, out) == 0,
        forall|a: usize| #[trigger] count_effect(calls_of(query_call(addr, iid)), a) == 0,
{
    assert forall|a: usize| #[trigger] count_effect(calls_of(query_call(addr, iid)), a) == 0 by {
        if addr != 0 {
            lemma_count_effect_one(LifecycleCall::QueryInterface { target: addr, iid }, a);
        }
    }
}

/// Destroying an empty handle makes no lifecycle call at all.
pub proof fn lemma_empty_release<T>(h: ComPtr<T>)
    requires
        h@ == 0,
    ensures
        calls_of(release_call(h@)).len() == 0,
        forall|a: usize| #[trigger] count_effect(calls_of(release_call(h@)), a) == 0,
{
}

} // verus!
