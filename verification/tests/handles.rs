use opentok::enums::OtcError;
use opentok::handle::NativeHandle;
use opentok::registry::Registry;

#[test]
fn owned_handle_asks_for_deletion_once() {
    let mut handle = NativeHandle::wrap(0x1000);
    assert!(!handle.is_null());
    assert!(handle.is_owned());
    assert_eq!(handle.inner(), 0x1000);
    assert_eq!(handle.request_delete(), Some(0x1000));
    assert!(handle.is_null());
    assert_eq!(handle.inner(), 0);
    assert_eq!(handle.request_delete(), None);
    assert_eq!(handle.request_delete(), None);
}

#[test]
fn borrowed_handle_never_asks_for_deletion() {
    let mut handle = NativeHandle::borrow(0x2000);
    assert!(!handle.is_owned());
    assert_eq!(handle.checked(), Ok(0x2000));
    assert_eq!(handle.request_delete(), None);
    assert!(handle.is_null());
}

#[test]
fn null_handle_is_a_typed_error() {
    let handle = NativeHandle::null();
    assert!(handle.is_null());
    assert_eq!(handle.checked(), Err(OtcError::NullError));
    assert!(matches!(NativeHandle::adopt(0), Err(OtcError::NullError)));
    let adopted = NativeHandle::adopt(0x30).unwrap();
    assert_eq!(adopted.inner(), 0x30);
    assert!(adopted.is_owned());
}

#[test]
fn registry_keeps_the_order_of_registration() {
    let mut registry: Registry<u32> = Registry::new();
    assert!(registry.is_empty());
    assert_eq!(registry.insert(30, 3), None);
    assert_eq!(registry.insert(10, 1), None);
    assert_eq!(registry.insert(20, 2), None);
    assert_eq!(registry.len(), 3);
    assert_eq!(registry.key_list(), vec![30, 10, 20]);
    assert_eq!(registry.get(10), Some(&1));
    assert_eq!(registry.get(11), None);
    assert!(registry.contains_key(20));
}

#[test]
fn registry_replaces_in_place_and_removes() {
    let mut registry: Registry<u32> = Registry::new();
    registry.insert(30, 3);
    registry.insert(10, 1);
    registry.insert(20, 2);
    assert_eq!(registry.insert(10, 100), Some(1));
    assert_eq!(registry.key_list(), vec![30, 10, 20]);
    assert_eq!(registry.get(10), Some(&100));
    assert_eq!(registry.remove(30), Some(3));
    assert_eq!(registry.remove(30), None);
    assert_eq!(registry.key_list(), vec![10, 20]);
    assert_eq!(registry.len(), 2);
    assert!(!registry.contains_key(30));
}
