use interning::{Interned, Label, Registry};

#[test]
fn new_registry_is_empty() {
    let registry: Registry<Label> = Registry::new();
    assert_eq!(registry.len(), 0);
    assert!(registry.lookup(&Label("a")).is_none());
}

#[test]
fn first_intern_adds_one_instance() {
    let mut registry: Registry<Label> = Registry::new();
    let handle = registry.intern(&Label("a"));
    assert_eq!(registry.len(), 1);
    assert_eq!(*handle.get(), Label("a"));
}

#[test]
fn equal_values_share_one_instance() {
    let mut registry: Registry<Label> = Registry::new();
    let text = String::from("shared");
    let leaked: &'static str = Box::leak(text.clone().into_boxed_str());
    let first = registry.intern(&Label("shared"));
    let second = registry.intern(&Label(leaked));
    assert_eq!(first, second);
    assert_eq!(registry.len(), 1);
}

#[test]
fn unequal_values_get_their_own_instances() {
    let mut registry: Registry<Label> = Registry::new();
    let a = registry.intern(&Label("a"));
    let b = registry.intern(&Label("b"));
    let c = registry.intern(&Label("c"));
    assert_ne!(a, b);
    assert_ne!(a, c);
    assert_ne!(b, c);
    assert_eq!(registry.len(), 3);
}

#[test]
fn handles_stay_valid_while_the_registry_grows() {
    let mut registry: Registry<Label> = Registry::new();
    let early = registry.intern(&Label("early"));
    let names = ["b", "c", "d", "e", "f", "g", "h"];
    for name in names {
        registry.intern(&Label(name));
    }
    assert_eq!(registry.len(), 8);
    let late = registry.intern(&Label("early"));
    assert_eq!(early, late);
    assert_eq!(registry.len(), 8);
}

#[test]
fn interning_the_canonical_instance_changes_nothing() {
    let mut registry: Registry<Label> = Registry::new();
    registry.intern(&Label("x"));
    let handle = registry.intern(&Label("v"));
    registry.intern(&Label("y"));
    let again = registry.intern(handle.get());
    assert_eq!(again, handle);
    assert_eq!(registry.len(), 3);
}

#[test]
fn lookup_finds_what_was_interned() {
    let mut registry: Registry<Label> = Registry::new();
    assert!(registry.lookup(&Label("a")).is_none());
    let a = registry.intern(&Label("a"));
    let b = registry.intern(&Label("b"));
    assert_eq!(registry.lookup(&Label("a")), Some(a));
    assert_eq!(registry.lookup(&Label("b")), Some(b));
    assert!(registry.lookup(&Label("c")).is_none());
    assert_eq!(registry.len(), 2);
}

#[test]
fn lookup_never_adds() {
    let mut registry: Registry<Label> = Registry::new();
    registry.intern(&Label("a"));
    assert!(registry.lookup(&Label("b")).is_none());
    assert!(registry.lookup(&Label("b")).is_none());
    assert_eq!(registry.len(), 1);
}

#[test]
fn the_empty_label_is_a_value_like_any_other() {
    let mut registry: Registry<Label> = Registry::new();
    let empty = registry.intern(&Label(""));
    let space = registry.intern(&Label(" "));
    assert_ne!(empty, space);
    assert_eq!(registry.intern(&Label("")), empty);
    assert_eq!(*empty.get(), Label(""));
    assert_eq!(registry.len(), 2);
}

#[test]
fn labels_are_compared_character_by_character() {
    let mut registry: Registry<Label> = Registry::new();
    let lower = registry.intern(&Label("label"));
    let upper = registry.intern(&Label("Label"));
    let longer = registry.intern(&Label("labels"));
    let accented = registry.intern(&Label("lab\u{e9}l"));
    let handles: [Interned<Label>; 4] = [lower, upper, longer, accented];
    for i in 0..4 {
        for j in 0..4 {
            assert_eq!(handles[i] == handles[j], i == j);
        }
    }
    assert_eq!(registry.len(), 4);
}

#[test]
fn the_canonical_instance_is_the_first_copy() {
    let mut registry: Registry<Label> = Registry::new();
    let first = registry.intern(&Label("a"));
    let second = registry.intern(&Label("a"));
    assert!(std::ptr::eq(first.get(), second.get()));
}

#[test]
fn any_order_of_calls_gives_one_handle_per_value() {
    let mut registry: Registry<Label> = Registry::new();
    let calls = ["b", "a", "b", "c", "a", "a", "d", "c", "b", "d"];
    let handles: Vec<Interned<Label>> =
        calls.iter().map(|name| registry.intern(&Label(name))).collect();
    for i in 0..calls.len() {
        for j in 0..calls.len() {
            assert_eq!(handles[i] == handles[j], calls[i] == calls[j]);
        }
        assert_eq!(handles[i].get().0, calls[i]);
    }
    assert_eq!(registry.len(), 4);
}

#[test]
fn handles_of_two_registries_are_never_equal() {
    let mut one: Registry<Label> = Registry::new();
    let mut two: Registry<Label> = Registry::new();
    let a_in_one = one.intern(&Label("a"));
    let a_in_two = two.intern(&Label("a"));
    let b_in_two = Registry::<Label>::new().intern(&Label("b"));
    assert_ne!(a_in_one, a_in_two);
    assert_ne!(a_in_one, b_in_two);
    assert_eq!(one.lookup(&Label("a")), Some(a_in_one));
    assert_eq!(two.lookup(&Label("a")), Some(a_in_two));
    assert_ne!(one.lookup(&Label("a")), two.lookup(&Label("a")));
}
