use std::sync::Arc;

use notification_listener::registry::LinkRegistry;

#[test]
fn replace_then_remove_leaves_nothing() {
    let mut reg: LinkRegistry<Arc<String>> = LinkRegistry::new();
    let id = "phone-1".to_string();
    let a = Arc::new("A".to_string());
    let b = Arc::new("B".to_string());
    assert!(reg.put(id.clone(), a.clone()).is_none());
    let held = reg.get(&id).unwrap().clone();
    let displaced = reg.put(id.clone(), b.clone()).unwrap();
    assert_eq!(*displaced, "A");
    assert_eq!(**reg.get(&id).unwrap(), "B");
    let removed = reg.remove(&id).unwrap();
    assert_eq!(*removed, "B");
    assert!(!reg.contains(&id));
    assert!(reg.get(&id).is_none());
    assert_eq!(*held, "A");
    assert!(Arc::ptr_eq(&held, &a));
}

#[test]
fn ids_are_independent() {
    let mut reg: LinkRegistry<u32> = LinkRegistry::new();
    reg.put("a".to_string(), 1);
    reg.put("b".to_string(), 2);
    assert_eq!(reg.remove(&"a".to_string()), Some(1));
    assert_eq!(reg.get(&"b".to_string()), Some(&2));
    assert_eq!(reg.remove(&"a".to_string()), None);
    assert_eq!(reg.remove(&"zzz".to_string()), None);
}
