use chipgame::render::objectmap::{ObjectHandle, ObjectMap};

#[test]
fn handles_are_fresh_and_objects_read_back() {
    let mut m: ObjectMap<&str> = ObjectMap::new();
    let a = m.alloc_handle();
    let b = m.alloc_handle();
    assert_eq!((a, b), (ObjectHandle(1), ObjectHandle(2)));
    m.insert(a, "wall");
    assert_eq!(m.get(a), Some(&"wall"));
    assert_eq!(m.get(b), None);
    m.insert(a, "fire");
    assert_eq!(m.remove(a), Some("fire"));
    assert_eq!(m.remove(a), None);
    m.insert(b, "trap");
    m.clear();
    assert_eq!(m.get(b), None);
    assert_eq!(m.alloc_handle(), ObjectHandle(1));
}

#[test]
fn values_come_in_handle_order() {
    let mut m: ObjectMap<&str> = ObjectMap::new();
    let a = m.alloc_handle();
    let b = m.alloc_handle();
    let c = m.alloc_handle();
    m.insert(c, "third");
    m.insert(a, "first");
    m.insert(b, "second");
    m.remove(b);
    assert_eq!(m.values(), vec![&"first", &"third"]);
}
