use std::cmp::Ordering;

use arrayvec::ArrayString;
use new_type_derive::order::{compare_text, text_eq};
use new_type_derive::rules::check_length;
use new_type_derive::{
    serialize_text, AnyText, Borrowed, Owned, ArrStrWrap, ArrStrWrapRef, EmptyStringError, LengthError, ShortId, ShortIdRef,
    StrWrap, StrWrapRef, WireError,
};

#[test]
fn short_id_empty_fails_in_both_forms() {
    assert_eq!(ShortId::try_from(String::from("")).unwrap_err(), LengthError::Empty);
    assert_eq!(ShortIdRef::try_as_ref("").unwrap_err(), LengthError::Empty);
}

#[test]
fn short_id_of_eight_bytes_succeeds_in_both_forms() {
    let owned = ShortId::try_from(String::from("abcdefgh")).unwrap();
    let view = ShortIdRef::try_as_ref("abcdefgh").unwrap();
    assert_eq!(owned, view);
    assert_eq!(view, owned);
    assert_eq!(owned, "abcdefgh");
    assert_eq!(view, "abcdefgh");
    assert_eq!("abcdefgh", owned);
}

#[test]
fn short_id_of_nine_bytes_fails_in_both_forms() {
    let o = ShortId::try_from(String::from("abcdefghi")).unwrap_err();
    let r = ShortIdRef::try_as_ref("abcdefghi").unwrap_err();
    assert_eq!(o, LengthError::TooLong);
    assert_eq!(o, r);
}

#[test]
fn short_id_counts_bytes_not_characters() {
    // five characters, ten bytes
    assert_eq!(ShortIdRef::try_as_ref("ĉĉĉĉĉ").unwrap_err(), LengthError::TooLong);
    assert!(ShortIdRef::try_as_ref("ĉĉĉĉ").is_ok());
}

#[test]
fn short_id_wire_round_trip() {
    let owned = ShortId::try_from(String::from("abcdefgh")).unwrap();
    let bytes = owned.serialize();
    let back = ShortId::deserialize(&bytes).unwrap();
    assert_eq!(back, owned);
}

const SAMPLES: [&str; 8] = [
    "",
    "a",
    "TESTING",
    "Ĉu ĝustas?",
    "exactly sixteen!",
    "seventeen bytes!!",
    "ĉĉĉĉĉĉĉĉĉ",
    "a much longer text than any bound here",
];

#[test]
fn wrapped_equal_or_error_same() {
    for s in SAMPLES {
        match (StrWrap::try_from(s.to_owned()), StrWrapRef::try_as_ref(s)) {
            (Ok(o), Ok(r)) => assert_eq!(o, r),
            (Err(oe), Err(re)) => assert_eq!(oe, re),
            (Ok(_), Err(e)) => panic!("Owned succeeded while ref failed with: {:?}", e),
            (Err(e), Ok(_)) => panic!("Ref succeeded while owned failed with: {:?}", e),
        }
    }
}

#[test]
fn arr_wrapped_equal_or_error_same() {
    for s in SAMPLES {
        let or = ArrayString::<16>::from(s)
            .map_err(|e| format!("{:?}", e))
            .and_then(|s| ArrStrWrap::try_from(s).map_err(|e| format!("{:?}", e)));
        let rr = ArrStrWrapRef::try_as_ref(s).map_err(|e| format!("{:?}", e));
        match (or, rr) {
            (Ok(o), Ok(r)) => assert_eq!(o, r),
            (Err(_), Err(_)) => {}
            (Ok(_), Err(e)) => panic!("Owned succeeded while ref failed with: {:?}", e),
            (Err(e), Ok(_)) => panic!("Ref succeeded while owned failed with: {:?}", e),
        }
    }
}

#[test]
fn inline_bound_is_sixteen_bytes() {
    assert!(ArrStrWrapRef::try_as_ref("exactly sixteen!").is_ok());
    assert_eq!(ArrStrWrapRef::try_as_ref("seventeen bytes!!").unwrap_err(), LengthError::TooLong);
    assert_eq!(ArrStrWrapRef::try_as_ref("").unwrap_err(), LengthError::Empty);
}

#[test]
fn view_to_owned_to_view_is_equal() {
    let view = ArrStrWrapRef::try_as_ref("Ĉu ĝustas?").unwrap();
    let owned = view.to_owned();
    let again = owned.as_ref();
    assert_eq!(again, view);
    assert_eq!(owned.as_str(), "Ĉu ĝustas?");
    let inline: ArrayString<16> = owned.into_inner();
    assert_eq!(inline.as_str(), "Ĉu ĝustas?");
}

#[test]
fn owned_unwraps_to_the_same_text() {
    let raw = String::from("payload");
    let owned = StrWrap::try_from(raw.clone()).unwrap();
    assert_eq!(owned.into_inner(), raw);
}

#[test]
fn clone_keeps_the_text() {
    let owned = ArrStrWrap::try_from(ArrayString::from("abc").unwrap()).unwrap();
    let copy = owned.clone();
    assert_eq!(copy, owned);
    assert_eq!(copy.as_str(), "abc");
}

#[test]
fn wire_round_trip_and_bare_encoding() {
    let owned = StrWrap::try_from(String::from("Ĉu ĝustas?")).unwrap();
    let bytes = owned.serialize();
    assert_eq!(bytes, serialize_text("Ĉu ĝustas?"));
    assert_eq!(bytes, bincode::serialize("Ĉu ĝustas?").unwrap());
    let mut expected = vec![12u8, 0, 0, 0, 0, 0, 0, 0];
    expected.extend_from_slice("Ĉu ĝustas?".as_bytes());
    assert_eq!(bytes, expected);
    let back = StrWrap::deserialize(&bytes).unwrap();
    assert_eq!(back, owned);
}

#[test]
fn decoding_ignores_trailing_bytes_and_borrows_the_input() {
    let mut bytes = serialize_text("abc");
    bytes.extend_from_slice(&[1, 2, 3]);
    let view = StrWrapRef::deserialize(&bytes).unwrap();
    assert_eq!(view.as_str(), "abc");
    assert_eq!(view.as_str().as_ptr(), bytes[8..].as_ptr());
}

#[test]
fn decoding_malformed_bytes_fails() {
    assert_eq!(StrWrap::deserialize(&[3, 0, 0]).unwrap_err(), WireError::Malformed);
    assert_eq!(StrWrapRef::deserialize(&[5, 0, 0, 0, 0, 0, 0, 0, b'a']).unwrap_err(), WireError::Malformed);
    assert_eq!(StrWrapRef::deserialize(&[1, 0, 0, 0, 0, 0, 0, 0, 0xff]).unwrap_err(), WireError::Malformed);
}

#[test]
fn decoding_rejected_text_reports_the_rule_error() {
    let empty = serialize_text("");
    assert_eq!(StrWrap::deserialize(&empty).unwrap_err(), WireError::Invalid(EmptyStringError));
    let long = serialize_text("abcdefghi");
    assert_eq!(ShortIdRef::deserialize(&long).unwrap_err(), WireError::Invalid(LengthError::TooLong));
    let long16 = serialize_text("seventeen bytes!!");
    assert_eq!(ArrStrWrap::deserialize(&long16).unwrap_err(), WireError::Invalid(LengthError::TooLong));
}

#[test]
fn order_matches_the_order_of_str() {
    let texts = ["a", "b", "ab", "", "z", "é", "TESTING", "TESTINH", "Ĉu"];
    for x in texts {
        for y in texts {
            assert_eq!(compare_text(x, y), x.cmp(y));
            assert_eq!(text_eq(x, y), x == y);
        }
    }
    assert_eq!(compare_text("é", "z"), Ordering::Greater);
    assert_eq!(compare_text("ab", "a"), Ordering::Greater);
    assert_eq!(compare_text("", "a"), Ordering::Less);
}

#[test]
fn mixed_forms_order_transitively() {
    let a = StrWrap::try_from(String::from("apple")).unwrap();
    let b = StrWrapRef::try_as_ref("banana").unwrap();
    let c: &str = "cherry";
    assert!(a < b);
    assert!(b < c);
    assert!(a < c);
    assert!(c > a);
    let b2 = StrWrap::try_from(String::from("banana")).unwrap();
    assert!(b == b2 && b2 == "banana" && b == "banana");
    assert_eq!(a.partial_cmp(&b2), Some(Ordering::Less));
    assert_eq!(b2.partial_cmp(&a), Some(Ordering::Greater));
}

#[test]
fn check_length_reports_each_error() {
    assert_eq!(check_length("", 3), Err(LengthError::Empty));
    assert_eq!(check_length("abcd", 3), Err(LengthError::TooLong));
    assert_eq!(check_length("abc", 3), Ok(()));
}

#[test]
fn error_messages() {
    assert_eq!(EmptyStringError.message(), "string must not be empty");
    assert_eq!(LengthError::Empty.message(), "Empty string");
    assert_eq!(LengthError::TooLong.message(), "Too long");
}

#[test]
fn any_text_accepts_everything() {
    assert_eq!(Owned::<AnyText>::try_from(String::new()).unwrap(), "");
    assert_eq!(Borrowed::<AnyText>::try_as_ref("").unwrap(), "");
    assert_eq!(Borrowed::<AnyText>::try_as_ref("anything at all, however long").unwrap(), "anything at all, however long");
}

#[test]
fn view_points_into_its_source() {
    let source = String::from("borrowed");
    let view = StrWrapRef::try_as_ref(&source).unwrap();
    assert_eq!(view.as_str().as_ptr(), source.as_ptr());
    assert_eq!(view.len(), 8);
    assert_eq!(ShortIdRef::try_as_ref("ĉĉĉĉ").unwrap().len(), 8);
}

#[test]
fn owned_values_sort_as_their_texts() {
    let texts = ["pear", "apple", "é", "fig", "apples"];
    let mut owned: Vec<StrWrap> = texts.iter().map(|t| StrWrap::try_from(String::from(*t)).unwrap()).collect();
    owned.sort();
    let mut plain = texts.to_vec();
    plain.sort();
    for (o, p) in owned.iter().zip(plain.iter()) {
        assert_eq!(o.as_str(), *p);
    }
}
