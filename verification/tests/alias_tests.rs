use conquer_once::noblock;
use conquer_once::spin;
use conquer_once::{TryGetError, TryInitError, WouldBlockError};

#[test]
fn spin_once_runs_once() {
    let once = spin::Once::uninit();
    assert!(!once.is_initialized());
    assert_eq!(once.try_init_once(|| ()), Ok(Ok(())));
    assert!(once.is_initialized());
    assert_eq!(once.try_init_once(|| ()), Ok(Err(TryInitError::AlreadyInit)));
    assert_eq!(once.try_get(), Ok(Ok(&())));
}

#[test]
fn noblock_once_cell_strings() {
    let cell: noblock::OnceCell<String> = noblock::OnceCell::uninit();
    assert_eq!(cell.try_get(), Ok(Err(TryGetError::Uninit)));
    assert_eq!(cell.try_get_or_init(|| String::from("initialized")), Ok(Ok(&String::from("initialized"))));
    assert_eq!(cell.into_inner(), Ok(Some(String::from("initialized"))));
}

#[test]
fn lazy_recursive_access_would_block() {
    let lazy: spin::Lazy<i32, _> = spin::Lazy::new(|| 7);
    assert_eq!(spin::Lazy::try_get_or_init(&lazy), Ok(Ok(&7)));

    let inner = noblock::OnceCell::uninit();
    let res = inner.try_get_or_init(|| {
        assert!(matches!(inner.try_get_or_init(|| 1), Ok(Err(WouldBlockError { .. }))));
        2
    });
    assert_eq!(res, Ok(Ok(&2)));
}

#[test]
fn lazy_cell_accessor() {
    let lazy: noblock::Lazy<u64, _> = noblock::Lazy::new(|| 128);
    assert!(!noblock::Lazy::cell(&lazy).is_initialized());
    assert_eq!(noblock::Lazy::try_get_or_init(&lazy), Ok(Ok(&128)));
    assert_eq!(noblock::Lazy::cell(&lazy).try_get(), Ok(Ok(&128)));
}
