use com_rs::{AsComPtr, CastError, ComInterface, ComPtr, IUnknown, LifecycleCall, IID};

/// IFoo view
#[derive(Debug)]
struct IFoo;
impl ComInterface for IFoo {
    fn iid() -> IID {
        IID::new(0x11111111, 0, 0, [0; 8])
    }
}
impl AsComPtr<IFoo> for IFoo {}
impl AsComPtr<IUnknown> for IFoo {}

/// IBar view, derived from IFoo
#[derive(Debug)]
struct IBar;
impl ComInterface for IBar {
    fn iid() -> IID {
        IID::new(0x22222222, 0, 0, [0; 8])
    }
}
impl AsComPtr<IBar> for IBar {}
impl AsComPtr<IFoo> for IBar {}
impl AsComPtr<IUnknown> for IBar {}

/// IBaz view, derived from IBar
#[derive(Debug)]
struct IBaz;
impl ComInterface for IBaz {
    fn iid() -> IID {
        IID::new(0x33333333, 0, 0, [0; 8])
    }
}
impl AsComPtr<IBaz> for IBaz {}
impl AsComPtr<IBar> for IBaz {}
impl AsComPtr<IFoo> for IBaz {}
impl AsComPtr<IUnknown> for IBaz {}

const E_NOINTERFACE: i32 = 0x80004002u32 as i32;

#[test]
fn test_as_ptr() {
    let foo = ComPtr::<IFoo>::new();
    let bar = ComPtr::<IBar>::new();
    let baz = ComPtr::<IBaz>::new();

    let _foo_ptr1: usize = foo.as_raw();
    let _foo_ptr2: usize = foo.as_ptr::<IUnknown>();
    let _foo_ptr3: usize = foo.as_ptr::<IFoo>();

    let _bar_ptr1: usize = bar.as_raw();
    let _bar_ptr2: usize = bar.as_ptr::<IUnknown>();
    let _bar_ptr3: usize = bar.as_ptr::<IFoo>();
    let _bar_ptr4: usize = bar.as_ptr::<IBar>();

    let _baz_ptr1: usize = baz.as_raw();
    let _baz_ptr2: usize = baz.as_ptr::<IUnknown>();
    let _baz_ptr3: usize = baz.as_ptr::<IFoo>();
    let _baz_ptr4: usize = baz.as_ptr::<IBar>();
    let _baz_ptr5: usize = baz.as_ptr::<IBaz>();
}

#[test]
fn static_cast_along_three_level_chain_keeps_address() {
    let baz = ComPtr::<IBaz>::from_raw(0x7f00_1000);
    assert_eq!(baz.as_raw(), 0x7f00_1000);
    assert_eq!(baz.as_ptr::<IBaz>(), 0x7f00_1000);
    assert_eq!(baz.as_ptr::<IBar>(), 0x7f00_1000);
    assert_eq!(baz.as_ptr::<IFoo>(), 0x7f00_1000);
    assert_eq!(baz.as_ptr::<IUnknown>(), 0x7f00_1000);
    assert!(!baz.is_null());
    assert_eq!(baz.release(), Some(LifecycleCall::Release { target: 0x7f00_1000 }));
}

#[test]
fn empty_handle_is_null_and_releases_nothing() {
    let h = ComPtr::<IUnknown>::new();
    assert!(h.is_null());
    assert_eq!(h.as_raw(), 0);
    assert_eq!(h.release(), None);
    assert_eq!(ComPtr::<IFoo>::from_raw(0).release(), None);
}

#[test]
fn duplicate_adds_one_and_each_releases_once() {
    let h = ComPtr::<IFoo>::from_raw(0x4000);
    let (d, call) = h.duplicate();
    assert_eq!(call, Some(LifecycleCall::AddRef { target: 0x4000 }));
    assert_eq!(d.as_raw(), 0x4000);
    let mut count: i64 = 1;
    if let Some(LifecycleCall::AddRef { .. }) = call {
        count += 1;
    }
    assert_eq!(count, 2);
    for c in [d.release(), h.release()] {
        match c {
            Some(LifecycleCall::Release { target }) => {
                assert_eq!(target, 0x4000);
                count -= 1;
            }
            other => panic!("unexpected call {:?}", other),
        }
    }
    assert_eq!(count, 0);
}

#[test]
fn duplicate_of_empty_makes_no_call() {
    let h = ComPtr::<IFoo>::new();
    let (d, call) = h.duplicate();
    assert_eq!(call, None);
    assert!(d.is_null());
}

#[test]
fn query_request_names_target_view() {
    let h = ComPtr::<IFoo>::from_raw(0x5000);
    match h.query_request::<IBar>() {
        Some(LifecycleCall::QueryInterface { target, iid }) => {
            assert_eq!(target, 0x5000);
            assert!(iid == IBar::iid());
        }
        other => panic!("unexpected call {:?}", other),
    }
    assert_eq!(h.as_raw(), 0x5000);
    assert_eq!(ComPtr::<IFoo>::new().query_request::<IBar>(), None);
}

#[test]
fn refused_query_gives_unsupported() {
    let h = ComPtr::<IFoo>::from_raw(0x5000);
    let _ = h.query_request::<IBaz>();
    let r = ComPtr::<IBaz>::from_query(E_NOINTERFACE, 0);
    assert_eq!(r.unwrap_err(), CastError::Unsupported { status: E_NOINTERFACE });
    assert_eq!(h.as_raw(), 0x5000);
    assert_eq!(h.release(), Some(LifecycleCall::Release { target: 0x5000 }));
}

#[test]
fn accepted_query_gives_new_handle() {
    let r = ComPtr::<IBar>::from_query(0, 0x6000).unwrap();
    assert_eq!(r.as_ptr::<IBar>(), 0x6000);
    assert_eq!(r.release(), Some(LifecycleCall::Release { target: 0x6000 }));
    let r = ComPtr::<IBar>::from_query(1, 0x6100).unwrap();
    assert_eq!(r.as_raw(), 0x6100);
}

#[test]
fn success_with_null_view_is_an_error() {
    let r = ComPtr::<IBar>::from_query(0, 0);
    assert_eq!(r.unwrap_err(), CastError::NullView);
}
