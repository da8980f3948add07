use uacpi::{IdString, NamespaceNode, Table};

#[test]
fn root_is_the_null_node() {
    assert!(NamespaceNode::root().is_root());
    assert_eq!(NamespaceNode::root().as_raw(), 0);
    let n = NamespaceNode::from_raw(0x1000);
    assert!(!n.is_root());
    assert_eq!(n.as_raw(), 0x1000);
}

#[test]
fn table_keeps_address_and_index() {
    let t = Table::new(0xFFFF_8000_0000_1000, 3);
    assert_eq!(t.get_virt_addr(), 0xFFFF_8000_0000_1000);
    assert_eq!(t.get_index(), 3);
}

#[test]
fn id_string_text() {
    let id = IdString::new(String::from("PNP0C0A"));
    assert_eq!(id.as_str(), "PNP0C0A");
}
