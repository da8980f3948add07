use uacpi::Registry;

#[test]
fn get_before_set_finds_nothing() {
    let r: Registry<u32> = Registry::new();
    assert!(!r.is_set());
    assert_eq!(r.try_get(), None);
}

#[test]
fn set_then_get() {
    let mut r: Registry<u32> = Registry::new();
    r.set(5);
    assert!(r.is_set());
    assert_eq!(*r.get(), 5);
    assert_eq!(r.try_get(), Some(&5));
}

#[test]
fn second_set_is_refused() {
    let mut r: Registry<&str> = Registry::new();
    assert_eq!(r.try_set("first"), Ok(()));
    assert_eq!(r.try_set("second"), Err("second"));
    assert_eq!(*r.get(), "first");
}
