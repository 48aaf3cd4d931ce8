use singleton::singleton;
use singleton::IntoSingleton;

#[test]
fn produces_value_then_exhausted() {
    let mut s = singleton(7u32);
    assert_eq!(s.next(), Some(7u32));
    assert_eq!(s.next(), None);
}

#[test]
fn second_produce_is_end_of_sequence() {
    let mut s = singleton("hello".to_string());
    assert_eq!(s.next(), Some("hello".to_string()));
    assert_eq!(s.next(), None);
    assert_eq!(s.next(), None);
}

#[test]
fn exhaustion_is_idempotent() {
    let mut s = singleton(1u8);
    let mut produced: usize = 0;
    let mut ended: usize = 0;
    let mut i: usize = 0;
    while i < 10 {
        match s.next() {
            Some(_) => produced += 1,
            None => ended += 1,
        }
        i += 1;
    }
    assert_eq!(produced, 1);
    assert_eq!(ended, 9);
}

#[test]
fn size_is_one_then_zero() {
    let mut s = singleton(5i64);
    assert_eq!(s.len(), 1);
    let _ = s.next();
    assert_eq!(s.len(), 0);
}

#[test]
fn back_produce_matches_front_produce() {
    let mut front = singleton(11u16);
    let mut back = singleton(11u16);
    assert_eq!(back.next_back(), front.next());
    assert_eq!(back.next_back(), front.next());
}

#[test]
fn conversion_matches_construction() {
    let mut promoted = 42u64.singleton();
    let mut constructed = singleton(42u64);
    assert_eq!(promoted.next(), constructed.next());
}

#[test]
fn scenario_integer_forty_two() {
    let mut s = singleton(42i32);
    assert_eq!(s.next(), Some(42i32));
    assert_eq!(s.next(), None);
    assert_eq!(s.len(), 0);
}

#[test]
fn scenario_string_from_back() {
    let mut s = singleton("x".to_string());
    assert_eq!(s.next_back(), Some("x".to_string()));
    assert_eq!(s.next(), None);
}

#[test]
fn fold_applies_once() {
    let s = singleton(5u64);
    let total = s.fold(100u64, |acc, x| acc + x);
    assert_eq!(total, 105u64);
}

#[test]
fn fold_on_exhausted_returns_init() {
    let mut s = singleton(5u64);
    let _ = s.next();
    let total = s.fold(100u64, |acc, x| acc + x);
    assert_eq!(total, 100u64);
}

#[test]
fn rfold_matches_forward_fold() {
    let a = singleton(3u32);
    let b = singleton(3u32);
    let forward = a.fold(10u32, |acc, x| acc * x);
    let backward = b.rfold(10u32, |acc, x| acc * x);
    assert_eq!(forward, 30u32);
    assert_eq!(backward, forward);
}

#[test]
fn conversion_of_string_value() {
    let mut s = "abc".to_string().singleton();
    assert_eq!(s.len(), 1);
    assert_eq!(s.next(), Some("abc".to_string()));
    assert_eq!(s.next(), None);
}
