use uacpi::{Object, ObjectType};

#[test]
fn integer_reads_back() {
    let o = Object::new_int(42).unwrap();
    assert_eq!(o.get_int(), Some(42));
    assert_eq!(o.object_type(), ObjectType::Integer);
    assert!(o.get_buffer().is_none());
    assert!(o.get_string().is_none());
    assert!(o.get_package().is_none());
}

#[test]
fn buffer_is_not_an_integer() {
    let o = Object::new_buffer(vec![1, 2, 3]);
    assert_eq!(o.get_int(), None);
    assert_eq!(o.get_buffer(), Some(&[1u8, 2, 3][..]));
    assert_eq!(o.object_type(), ObjectType::Buffer);
}

#[test]
fn string_reads_back() {
    let o = Object::new_string(b"PNP0A03".to_vec());
    assert_eq!(o.get_string(), Some(&b"PNP0A03"[..]));
    assert_eq!(o.get_buffer(), None);
    assert_eq!(o.object_type().code(), 2);
}

#[test]
fn package_shares_its_elements() {
    let one = Object::new_int(1).unwrap();
    let text = Object::new_string(b"x".to_vec());
    let pkg = Object::new_package(vec![one.clone(), text]);
    let elems = pkg.get_package().unwrap();
    assert_eq!(elems.len(), 2);
    assert_eq!(elems[0].get_int(), Some(1));
    assert_eq!(elems[1].get_string(), Some(&b"x"[..]));
    assert_eq!(one.get_int(), Some(1));
    assert_eq!(pkg.get_int(), None);
}

#[test]
fn object_type_tags() {
    assert_eq!(ObjectType::from_code(4), Some(ObjectType::Package));
    assert_eq!(ObjectType::from_code(5), None);
    assert_eq!(Object::new_uninitialized().object_type(), ObjectType::Uninitialized);
}

#[test]
fn string_keeps_bytes_that_are_not_utf8() {
    let o = Object::new_string(vec![0x41, 0xFF, 0x42]);
    assert_eq!(o.get_string(), Some(&[0x41u8, 0xFF, 0x42][..]));
}
