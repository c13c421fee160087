use spawned_concurrency::warn_on_block::{is_blocking, WarnOnBlocking};
use spawned_concurrency::Backend;

#[test]
fn backend_default_is_async() {
    assert_eq!(Backend::default(), Backend::Async);
}

#[test]
fn backend_enum_is_copy_and_clone() {
    let backend = Backend::Async;
    let copied = backend;
    let cloned = backend.clone();
    assert_eq!(backend, copied);
    assert_eq!(backend, cloned);
}

#[test]
fn backend_enum_debug_format() {
    assert_eq!(format!("{:?}", Backend::Async), "Async");
    assert_eq!(format!("{:?}", Backend::Blocking), "Blocking");
    assert_eq!(format!("{:?}", Backend::Thread), "Thread");
}

#[test]
fn backend_enum_equality() {
    assert_eq!(Backend::Async, Backend::Async);
    assert_eq!(Backend::Blocking, Backend::Blocking);
    assert_eq!(Backend::Thread, Backend::Thread);
    assert_ne!(Backend::Async, Backend::Blocking);
    assert_ne!(Backend::Async, Backend::Thread);
    assert_ne!(Backend::Blocking, Backend::Thread);
}

#[test]
fn a_watched_task_is_the_task_itself() {
    assert_eq!(WarnOnBlocking::new(7u8).inner, 7);
}

#[test]
fn a_task_blocks_after_more_than_ten_milliseconds() {
    assert!(!is_blocking(0));
    assert!(!is_blocking(10_000_000));
    assert!(is_blocking(10_000_001));
}
