use rust_tour::lifetimes::{lifetime_in_struct, longest, return_first_param};

#[test]
fn the_longer_string_is_returned() {
    assert_eq!(longest("abcd", "xyz"), "abcd");
    assert_eq!(longest("xyz", "abcd"), "abcd");
    let string1 = String::from("long string is long");
    {
        let string2 = String::from("xyz");
        assert_eq!(longest(string1.as_str(), string2.as_str()), "long string is long");
    }
}

#[test]
fn of_strings_of_one_length_the_second_is_returned() {
    assert_eq!(longest("abc", "xyz"), "xyz");
    assert_eq!(longest("", ""), "");
}

#[test]
fn length_is_measured_in_bytes() {
    assert_eq!(longest("ää", "xyz"), "ää");
    assert_eq!(longest("ä", "xyz"), "xyz");
}

#[test]
fn the_first_parameter_is_returned() {
    assert_eq!(return_first_param("a", "b"), "a");
}

#[test]
fn the_first_sentence_ends_before_the_first_full_stop() {
    let novel = String::from("Call me Ishmael. Some years ago...");
    assert_eq!(lifetime_in_struct(&novel).part, "Call me Ishmael");
    assert_eq!(lifetime_in_struct("no full stop").part, "no full stop");
    assert_eq!(lifetime_in_struct(".starts").part, "");
    assert_eq!(lifetime_in_struct("").part, "");
    assert_eq!(lifetime_in_struct("über alles. Ja.").part, "über alles");
}
