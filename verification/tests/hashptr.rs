use hashchain::hashptr::hash;
use hashchain::HashPointer;

#[test]
fn from_data() {
    let hptr = HashPointer::new("hello");
    assert!(hptr.validate());
}

#[test]
fn from_box() {
    let x = Box::new("world");
    let hptr = HashPointer::from_box(x);
    assert!(hptr.validate());
}

#[test]
fn detect_mutation() {
    let mut hptr = HashPointer::new("hello");
    *hptr.as_mut() = "abcd";
    assert!(!hptr.validate());
}

#[test]
fn same_data_after_mutation() {
    let mut hptr = HashPointer::new("same");
    *hptr.as_mut() = "same";
    assert!(hptr.validate());
}

#[test]
fn fresh_pointers_validate_for_every_payload_type() {
    assert!(HashPointer::new(0u8).validate());
    assert!(HashPointer::new(u16::MAX).validate());
    assert!(HashPointer::new(7u32).validate());
    assert!(HashPointer::new(u64::MAX).validate());
    assert!(HashPointer::new(12usize).validate());
    assert!(HashPointer::new(-1i8).validate());
    assert!(HashPointer::new(i16::MIN).validate());
    assert!(HashPointer::new(-42i32).validate());
    assert!(HashPointer::new(i64::MIN).validate());
    assert!(HashPointer::new(-3isize).validate());
    assert!(HashPointer::new(true).validate());
    assert!(HashPointer::new(String::from("owned")).validate());
    assert!(HashPointer::new(Some(5u32)).validate());
    assert!(HashPointer::new(None::<u32>).validate());
    assert!(HashPointer::new("").validate());
}

#[test]
fn as_ref_reads_the_value() {
    let hptr = HashPointer::new(17u32);
    assert_eq!(*hptr.as_ref(), 17);
    let boxed = HashPointer::from_box(Box::new(-5i64));
    assert_eq!(*boxed.as_ref(), -5);
}

#[test]
fn as_mut_starts_at_the_old_value_and_writes_through() {
    let mut hptr = HashPointer::new(3u64);
    let before = hptr.digest();
    assert_eq!(*hptr.as_mut(), 3);
    *hptr.as_mut() = 4;
    assert_eq!(*hptr.as_ref(), 4);
    assert_eq!(hptr.digest(), before);
}

#[test]
fn digest_is_the_hash_of_the_value() {
    let hptr = HashPointer::new(99u32);
    assert_eq!(hptr.digest(), hash(&99u32));
    assert_ne!(hptr.digest(), hash(&98u32));
}

#[test]
fn hash_depends_on_the_content_alone() {
    assert_eq!(hash(&5u32), hash(&5u32));
    assert_eq!(hash(&"text"), hash(&String::from("text")));
    assert_eq!(hash(&-1i32), hash(&u32::MAX));
    assert_eq!(hash(&7usize), hash(&7u64));
    assert_eq!(hash(&-7isize), hash(&-7i64));
    assert_eq!(hash(&true), hash(&1u8));
    assert_eq!(hash(&false), hash(&0u8));
}

#[test]
fn hash_tells_values_apart() {
    assert_ne!(hash(&5u32), hash(&6u32));
    assert_ne!(hash(&0x0102u16), hash(&0x0201u16));
    assert_ne!(hash(&1u8), hash(&1u16));
    assert_ne!(hash(&"ab"), hash(&"ba"));
    assert_ne!(hash(&""), hash(&"a"));
    assert_ne!(hash(&Some(0u8)), hash(&None::<u8>));
    assert_ne!(hash(&true), hash(&false));
}

#[test]
fn mutation_detected_on_integers() {
    let mut hptr = HashPointer::new(1u32);
    *hptr.as_mut() = 2;
    assert!(!hptr.validate());
    *hptr.as_mut() = 1;
    assert!(hptr.validate());
}

#[test]
fn value_preserving_write_keeps_the_pointer_valid() {
    let mut hptr = HashPointer::new(String::from("same"));
    *hptr.as_mut() = String::from("same");
    assert!(hptr.validate());
    let mut untouched = HashPointer::new(5i32);
    let _ = untouched.as_mut();
    assert!(untouched.validate());
}

#[test]
fn from_box_and_new_validate_alike() {
    let mut plain = HashPointer::new(21u32);
    let mut boxed = HashPointer::from_box(Box::new(21u32));
    assert_eq!(plain.digest(), boxed.digest());
    assert_eq!(plain.validate(), boxed.validate());
    *plain.as_mut() = 22;
    *boxed.as_mut() = 22;
    assert_eq!(plain.validate(), boxed.validate());
    assert!(!plain.validate());
}

#[test]
fn pointer_to_a_pointer_covers_digest_and_value() {
    let mut outer = HashPointer::new(HashPointer::new(1u32));
    assert!(outer.validate());
    *outer.as_mut().as_mut() = 2;
    assert!(!outer.validate());
    assert!(!outer.as_ref().validate());
}
