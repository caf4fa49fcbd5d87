use mc_codec::OneOf;
use mc_codec::error::DecodeError;

#[test]
fn resolve_prefers_left() {
    // Input decodable as both arms: the left arm must win, repeatably.
    for _ in 0..3 {
        let r: Result<OneOf<i32, i32>, DecodeError> = OneOf::resolve(Ok(1), Ok(2));
        match r.unwrap() {
            OneOf::Left(v) => assert_eq!(v, 1),
            OneOf::Right(_) => panic!("the right arm must never win a tie"),
        }
    }
}

#[test]
fn resolve_falls_back_to_right() {
    let r: Result<OneOf<i32, i32>, DecodeError> =
        OneOf::resolve(Err(DecodeError::Truncated), Ok(2));
    match r.unwrap() {
        OneOf::Right(v) => assert_eq!(v, 2),
        OneOf::Left(_) => panic!("a failed left attempt cannot produce a left value"),
    }
}

#[test]
fn resolve_surfaces_second_error() {
    let r: Result<OneOf<i32, i32>, DecodeError> = OneOf::resolve(
        Err(DecodeError::Truncated),
        Err(DecodeError::InvalidUtf8),
    );
    match r.unwrap_err() {
        DecodeError::UnionExhausted(inner) => assert_eq!(*inner, DecodeError::InvalidUtf8),
        other => panic!("expected UnionExhausted, got {:?}", other),
    }
}

#[test]
fn into_vec_wraps_single_item() {
    let one: OneOf<i32, Vec<i32>> = OneOf::Left(7);
    assert_eq!(one.into_vec(), vec![7]);
    let many: OneOf<i32, Vec<i32>> = OneOf::Right(vec![1, 2, 3]);
    assert_eq!(many.into_vec(), vec![1, 2, 3]);
}

#[test]
fn into_vec_list_first_arm() {
    let one: OneOf<Vec<i32>, i32> = OneOf::Right(7);
    assert_eq!(one.into_vec(), vec![7]);
    let many: OneOf<Vec<i32>, i32> = OneOf::Left(vec![1, 2, 3]);
    assert_eq!(many.into_vec(), vec![1, 2, 3]);
}

#[test]
fn from_vec_always_picks_list_arm() {
    // The single-to-list collapse is one way: a one-element list does not
    // come back as a bare item.
    let v = OneOf::<i32, Vec<i32>>::from_vec(vec![7]);
    assert!(matches!(v, OneOf::Right(ref list) if *list == vec![7]));
    let w = OneOf::<Vec<i32>, i32>::from_vec(vec![7]);
    assert!(matches!(w, OneOf::Left(ref list) if *list == vec![7]));
}
