use same::address::resolve;
use same::hashing::feed;
use same::{RefCmp, RefHash};
use std::collections::hash_map::DefaultHasher;
use std::hash::{Hash, Hasher};
use std::rc::Rc;
use std::sync::Arc;

struct Recorder {
    words: Vec<usize>,
    bytes: Vec<u8>,
}

impl Recorder {
    fn new() -> Recorder {
        Recorder { words: Vec::new(), bytes: Vec::new() }
    }
}

impl Hasher for Recorder {
    fn finish(&self) -> u64 {
        self.words.len() as u64
    }

    fn write(&mut self, bytes: &[u8]) {
        self.bytes.extend_from_slice(bytes);
    }

    fn write_usize(&mut self, word: usize) {
        self.words.push(word);
    }
}

fn digest<T: RefHash>(handle: &T) -> u64 {
    let mut hasher = DefaultHasher::new();
    handle.ref_hash(&mut hasher);
    hasher.finish()
}

fn digest_of_wrapper<T: same::Same + RefHash>(wrapper: &RefCmp<T>) -> u64 {
    let mut hasher = DefaultHasher::new();
    wrapper.hash(&mut hasher);
    hasher.finish()
}

#[test]
fn feed_hands_over_one_word() {
    let mut recorder = Recorder::new();
    feed(&mut recorder, 4096);
    assert_eq!(recorder.words, vec![4096]);
    assert!(recorder.bytes.is_empty());
    feed(&mut recorder, 7);
    assert_eq!(recorder.words, vec![4096, 7]);
    assert!(recorder.bytes.is_empty());
}

#[test]
fn a_reference_feeds_the_address_of_its_referent() {
    let a = 42;
    let r = &a;
    let mut recorder = Recorder::new();
    r.ref_hash(&mut recorder);
    assert_eq!(recorder.words, vec![resolve(&a)]);
    assert!(recorder.bytes.is_empty());
}

#[test]
fn a_box_feeds_the_address_of_what_it_owns() {
    let a = Box::new(42);
    let mut recorder = Recorder::new();
    a.ref_hash(&mut recorder);
    assert_eq!(recorder.words, vec![resolve(&*a)]);
    assert_ne!(recorder.words, vec![resolve(&a)]);
    assert!(recorder.bytes.is_empty());
}

#[test]
fn an_rc_feeds_the_address_of_the_shared_value() {
    let a = Rc::new(42);
    let mut recorder = Recorder::new();
    a.ref_hash(&mut recorder);
    assert_eq!(recorder.words, vec![resolve(&*a)]);
    assert_ne!(recorder.words, vec![resolve(&a)]);
    assert!(recorder.bytes.is_empty());
}

#[test]
fn an_arc_feeds_the_address_of_the_shared_value() {
    let a = Arc::new(42);
    let mut recorder = Recorder::new();
    a.ref_hash(&mut recorder);
    assert_eq!(recorder.words, vec![resolve(&*a)]);
    assert_ne!(recorder.words, vec![resolve(&a)]);
    assert!(recorder.bytes.is_empty());
}

#[test]
fn the_value_is_not_hashed() {
    let a = 42u64;
    let b = 43u64;
    let mut of_a = Recorder::new();
    let mut of_b = Recorder::new();
    (&a).ref_hash(&mut of_a);
    (&b).ref_hash(&mut of_b);
    assert_eq!(of_a.words.len(), 1);
    assert_eq!(of_b.words.len(), 1);
    assert!(of_a.bytes.is_empty());
    assert!(of_b.bytes.is_empty());

    let mut cell = Box::new(1u64);
    let before = digest(&cell);
    *cell = 2;
    assert_eq!(digest(&cell), before);
}

#[test]
fn the_same_references_hash_alike() {
    let a = 42;
    let r0 = &a;
    let r1 = &a;
    assert_eq!(digest(&r0), digest(&r1));
    assert_eq!(digest_of_wrapper(&RefCmp(r0)), digest_of_wrapper(&RefCmp(r1)));
}

#[test]
fn the_same_box_hashes_alike() {
    let a = Box::new(42);
    assert_eq!(digest(&a), digest(&a));
    assert_eq!(digest_of_wrapper(&RefCmp(&a)), digest_of_wrapper(&RefCmp(&a)));
}

#[test]
fn the_same_rcs_hash_alike() {
    let a = Rc::new(42);
    let b = a.clone();
    assert_eq!(digest(&a), digest(&b));
    assert_eq!(digest_of_wrapper(&RefCmp(a)), digest_of_wrapper(&RefCmp(b)));
}

#[test]
fn the_same_arcs_hash_alike() {
    let a = Arc::new(42);
    let b = a.clone();
    assert_eq!(digest(&a), digest(&b));
    assert_eq!(digest_of_wrapper(&RefCmp(a)), digest_of_wrapper(&RefCmp(b)));
}

#[test]
fn distinct_objects_feed_distinct_words() {
    let a = Rc::new(42);
    let b = Rc::new(42);
    let mut of_a = Recorder::new();
    let mut of_b = Recorder::new();
    a.ref_hash(&mut of_a);
    b.ref_hash(&mut of_b);
    assert_ne!(of_a.words, of_b.words);
}

#[test]
fn a_wrapper_hashes_as_its_handle_does() {
    let a = Arc::new(42);
    let mut by_handle = Recorder::new();
    a.ref_hash(&mut by_handle);
    let wrapper = RefCmp(a);
    let mut by_wrapper = Recorder::new();
    wrapper.hash(&mut by_wrapper);
    assert_eq!(by_wrapper.words, by_handle.words);
    assert!(by_wrapper.bytes.is_empty());
}

#[test]
fn an_unsized_referent_feeds_its_address_only() {
    let text: Rc<str> = Rc::from("identity");
    let mut recorder = Recorder::new();
    text.ref_hash(&mut recorder);
    assert_eq!(recorder.words, vec![resolve(&*text)]);
    assert!(recorder.bytes.is_empty());
}

#[test]
fn a_reference_hashes_as_its_pointer_does() {
    let a = 42u64;
    let mut by_handle = Recorder::new();
    (&a).ref_hash(&mut by_handle);
    let mut by_pointer = Recorder::new();
    std::ptr::hash(&a, &mut by_pointer);
    assert_eq!(by_handle.words, by_pointer.words);
    assert_eq!(by_handle.bytes, by_pointer.bytes);

    let shared = Arc::new(String::from("node"));
    let mut by_arc = Recorder::new();
    shared.ref_hash(&mut by_arc);
    let mut by_arc_pointer = Recorder::new();
    std::ptr::hash(&*shared, &mut by_arc_pointer);
    assert_eq!(by_arc.words, by_arc_pointer.words);
    assert_eq!(by_arc.bytes, by_arc_pointer.bytes);
}
