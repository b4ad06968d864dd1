use solti::env::{KeyValue, TaskEnv};

#[test]
fn env_new_is_empty() {
    let env = TaskEnv::new();
    assert_eq!(env.0.len(), 0);
    assert!(env.get("FOO").is_none());
}

#[test]
fn env_single_creates_one_entry() {
    let env = TaskEnv::single("FOO", "bar");
    let items: Vec<_> = env.iter().collect();
    assert_eq!(items.len(), 1);
    assert_eq!(items[0].key(), "FOO");
    assert_eq!(items[0].value(), "bar");
    assert_eq!(env.get("FOO"), Some("bar"));
}

#[test]
fn env_push_and_override_last_wins() {
    let mut env = TaskEnv::new();
    env.push("FOO", "one");
    env.push("BAR", "x");
    env.push("FOO", "two");

    assert_eq!(env.get("FOO"), Some("two"));
    assert_eq!(env.get("BAR"), Some("x"));
    assert!(env.get("BAZ").is_none());
}

#[test]
fn env_merged_other_overrides_base() {
    let base = {
        let mut e = TaskEnv::new();
        e.push("FOO", "base");
        e.push("BAR", "bar");
        e
    };

    let other = {
        let mut e = TaskEnv::new();
        e.push("FOO", "override");
        e.push("BAZ", "baz");
        e
    };

    let merged = base.merged(&other);

    assert_eq!(merged.get("FOO"), Some("override"));
    assert_eq!(merged.get("BAR"), Some("bar"));
    assert_eq!(merged.get("BAZ"), Some("baz"));
}

#[test]
fn env_len_counts_repeated_keys() {
    let mut env = TaskEnv::new();
    assert!(env.is_empty());
    env.push("A", "1");
    env.push("A", "2");
    assert_eq!(env.len(), 2);
    assert!(!env.is_empty());
}

#[test]
fn env_merged_keeps_order_and_length() {
    let mut a = TaskEnv::new();
    a.push("A", "1");
    let mut b = TaskEnv::new();
    b.push("B", "2");
    b.push("C", "3");
    let m = a.merged(&b);
    let keys: Vec<&str> = m.iter().map(|kv| kv.key()).collect();
    assert_eq!(keys, vec!["A", "B", "C"]);
    assert_eq!(m.len(), a.len() + b.len());
}

#[test]
fn env_clone_and_eq() {
    let mut a = TaskEnv::new();
    a.push("A", "1");
    let b = a.clone();
    assert!(a == b);
    let mut c = a.clone();
    c.push("B", "2");
    assert!(a != c);
    assert!(KeyValue::new("k", "v") == KeyValue::new("k", "v"));
    assert!(KeyValue::new("k", "v") != KeyValue::new("k", "w"));
    assert_eq!(TaskEnv::default().len(), 0);
}
