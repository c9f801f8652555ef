use name_lookup::fallible;
use name_lookup::optional::{answer, get_id_from_name, message};

#[test]
fn known_name_is_present() {
    assert_eq!(get_id_from_name("duyet"), Some(123));
}

#[test]
fn unknown_name_is_absent() {
    assert_eq!(get_id_from_name("alice"), None);
}

#[test]
fn empty_name_is_absent() {
    assert_eq!(get_id_from_name(""), None);
}

#[test]
fn upper_case_marker_is_absent() {
    assert_eq!(get_id_from_name("Duyet"), None);
}

#[test]
fn optional_lookup_is_repeatable() {
    for name in ["duyet", "alice", "", "d", "dd", "xd"] {
        assert_eq!(get_id_from_name(name), get_id_from_name(name));
        assert_eq!(answer(name), answer(name));
    }
}

#[test]
fn both_lookups_decide_alike() {
    for name in ["duyet", "alice", "", "d", "D", "ad", "\u{111}uyet", "dave"] {
        assert_eq!(get_id_from_name(name), fallible::get_id_from_name(name).ok());
    }
}

#[test]
fn presence_is_reported_with_the_identifier() {
    assert_eq!(message(Some(123)), "User = 123");
    assert_eq!(message(Some(-1)), "User = -1");
    assert_eq!(message(Some(100)), "User = 100");
}

#[test]
fn absence_is_reported_plainly() {
    assert_eq!(message(None), "Not found");
}

#[test]
fn optional_answer_for_known_name() {
    assert_eq!(answer("duyet"), "User = 123");
}

#[test]
fn optional_answer_for_unknown_name() {
    assert_eq!(answer("alice"), "Not found");
}

#[test]
fn optional_answer_for_empty_name() {
    assert_eq!(answer(""), "Not found");
}
