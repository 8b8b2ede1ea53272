use interning::{Interned, Interner, Label};
use std::collections::{HashMap, HashSet};

#[test]
fn same_label_twice_gives_one_handle() {
    let interner: Interner<Label> = Interner::new();
    let first = Label("a").intern(&interner);
    let second = Label("a").intern(&interner);
    assert_eq!(first, second);
    let mut handles: HashSet<Interned<Label>> = HashSet::new();
    handles.insert(first);
    handles.insert(second);
    assert_eq!(handles.len(), 1);
}

#[test]
fn different_labels_give_different_handles() {
    let interner: Interner<Label> = Interner::new();
    let a = Label("a").intern(&interner);
    let b = Label("b").intern(&interner);
    assert_ne!(a, b);
}

#[test]
fn handles_key_a_map() {
    let interner: Interner<Label> = Interner::new();
    let mut map: HashMap<Interned<Label>, &'static str> = HashMap::new();
    map.insert(Label("a").intern(&interner), "This is a value");
    map.insert(Label("b").intern(&interner), "This is another value");
    map.insert(Label("c").intern(&interner), "So many values");
    assert_eq!(map.len(), 3);
    let fresh = Label("a").intern(&interner);
    assert_eq!(map.get(&fresh), Some(&"This is a value"));
}

#[test]
fn repeated_interning_gives_one_handle() {
    let interner: Interner<Label> = Interner::new();
    let first = interner.intern(&Label("shared"));
    for _ in 0..16 {
        assert_eq!(interner.intern(&Label("shared")), first);
    }
    let other = interner.intern(&Label("other"));
    assert_ne!(other, first);
    assert_eq!(interner.intern(&Label("shared")), first);
}

#[test]
fn interning_a_canonical_instance_gives_its_handle() {
    let interner: Interner<Label> = Interner::new();
    interner.intern(&Label("x"));
    let handle = interner.intern(&Label("v"));
    interner.intern(&Label("y"));
    assert_eq!(interner.intern(handle.get()), handle);
    assert_eq!(handle.get().intern(&interner), handle);
}

#[test]
fn a_label_interns_as_the_interner_does() {
    let interner: Interner<Label> = Interner::new();
    let by_label = Label("a").intern(&interner);
    let by_interner = interner.intern(&Label("a"));
    assert_eq!(by_label, by_interner);
    assert_eq!(by_label.get().0, "a");
}

#[test]
fn an_interner_can_be_shared_by_reference() {
    let interner: Interner<Label> = Interner::new();
    let first_site = |name: &'static str| Label(name).intern(&interner);
    let second_site = |name: &'static str| interner.intern(&Label(name));
    assert_eq!(first_site("a"), second_site("a"));
    assert_ne!(first_site("a"), second_site("b"));
}
