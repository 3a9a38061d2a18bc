use get_selected_text::cache::CAPACITY;
use get_selected_text::{MethodCache, MethodTag};

fn name(i: usize) -> String {
    format!("app-{}", i)
}

#[test]
fn tags_are_zero_and_one() {
    assert_eq!(MethodTag::Accessibility.tag(), 0);
    assert_eq!(MethodTag::ClipboardCopy.tag(), 1);
    assert_eq!(MethodTag::from_tag(0), Some(MethodTag::Accessibility));
    assert_eq!(MethodTag::from_tag(1), Some(MethodTag::ClipboardCopy));
    assert_eq!(MethodTag::from_tag(2), None);
    assert_eq!(MethodTag::from_tag(255), None);
}

#[test]
fn capacity_is_one_hundred() {
    assert_eq!(CAPACITY, 100);
}

#[test]
fn new_cache_is_empty() {
    let mut cache = MethodCache::new();
    assert!(cache.is_empty());
    assert_eq!(cache.len(), 0);
    assert_eq!(cache.get(&name(0)), None);
    assert_eq!(cache.peek(&name(0)), None);
}

#[test]
fn put_then_get() {
    let mut cache = MethodCache::new();
    cache.put(name(1), MethodTag::ClipboardCopy);
    cache.put(name(2), MethodTag::Accessibility);
    assert_eq!(cache.get(&name(1)), Some(MethodTag::ClipboardCopy));
    assert_eq!(cache.get(&name(2)), Some(MethodTag::Accessibility));
    assert_eq!(cache.get(&name(3)), None);
    assert_eq!(cache.len(), 2);
}

#[test]
fn put_replaces_the_tag() {
    let mut cache = MethodCache::new();
    cache.put(name(1), MethodTag::ClipboardCopy);
    cache.put(name(1), MethodTag::Accessibility);
    assert_eq!(cache.len(), 1);
    assert_eq!(cache.peek(&name(1)), Some(MethodTag::Accessibility));
}

#[test]
fn full_cache_forgets_the_least_recently_used() {
    let mut cache = MethodCache::new();
    for i in 0..100 {
        cache.put(name(i), MethodTag::Accessibility);
    }
    assert_eq!(cache.len(), 100);
    assert_eq!(cache.peek(&name(0)), Some(MethodTag::Accessibility));
    cache.put(name(100), MethodTag::ClipboardCopy);
    assert_eq!(cache.len(), 100);
    assert_eq!(cache.peek(&name(0)), None);
    for i in 1..100 {
        assert_eq!(cache.peek(&name(i)), Some(MethodTag::Accessibility));
    }
    assert_eq!(cache.peek(&name(100)), Some(MethodTag::ClipboardCopy));
}

#[test]
fn get_counts_as_a_use_and_peek_does_not() {
    let mut cache = MethodCache::new();
    for i in 0..100 {
        cache.put(name(i), MethodTag::Accessibility);
    }
    assert_eq!(cache.peek(&name(0)), Some(MethodTag::Accessibility));
    assert_eq!(cache.get(&name(1)), Some(MethodTag::Accessibility));
    cache.put(name(100), MethodTag::Accessibility);
    // 0 was only peeked at, so it was still the least recently used.
    assert_eq!(cache.peek(&name(0)), None);
    cache.put(name(101), MethodTag::Accessibility);
    // 1 was used, so 2 went before it.
    assert_eq!(cache.peek(&name(1)), Some(MethodTag::Accessibility));
    assert_eq!(cache.peek(&name(2)), None);
}

#[test]
fn replacing_in_a_full_cache_forgets_nothing() {
    let mut cache = MethodCache::new();
    for i in 0..100 {
        cache.put(name(i), MethodTag::Accessibility);
    }
    cache.put(name(0), MethodTag::ClipboardCopy);
    assert_eq!(cache.len(), 100);
    for i in 1..100 {
        assert_eq!(cache.peek(&name(i)), Some(MethodTag::Accessibility));
    }
    assert_eq!(cache.peek(&name(0)), Some(MethodTag::ClipboardCopy));
}

#[test]
fn many_applications_keep_the_last_hundred() {
    let mut cache = MethodCache::new();
    for i in 0..250 {
        cache.put(name(i), MethodTag::ClipboardCopy);
    }
    assert_eq!(cache.len(), 100);
    for i in 0..150 {
        assert_eq!(cache.peek(&name(i)), None);
    }
    for i in 150..250 {
        assert_eq!(cache.peek(&name(i)), Some(MethodTag::ClipboardCopy));
    }
}

#[test]
fn clear_forgets_everything() {
    let mut cache = MethodCache::new();
    cache.put(name(1), MethodTag::ClipboardCopy);
    cache.clear();
    assert!(cache.is_empty());
    assert_eq!(cache.get(&name(1)), None);
}

#[test]
fn get_or_init_makes_a_cache_once() {
    let mut slot: Option<MethodCache> = None;
    MethodCache::get_or_init(&mut slot);
    assert!(slot.as_ref().unwrap().is_empty());
    slot.as_mut().unwrap().put(name(1), MethodTag::ClipboardCopy);
    MethodCache::get_or_init(&mut slot);
    assert_eq!(slot.as_ref().unwrap().peek(&name(1)), Some(MethodTag::ClipboardCopy));
    assert_eq!(slot.as_ref().unwrap().len(), 1);
}
