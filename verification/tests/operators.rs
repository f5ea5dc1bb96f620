use rust_tour::operators::{
    newtype_pattern, operator_overloading, outline, repeat, super_trait,
    traits_with_same_method_name, Human, Meters, Millimeters, Pilot, Point, Point2, Wizard,
    Wrapper,
};

#[test]
fn points_are_added_coordinate_by_coordinate() {
    assert_eq!(
        Point { x: 1, y: 0 } + Point { x: 2, y: 3 },
        Point { x: 3, y: 3 }
    );
    assert_eq!(operator_overloading(), Point { x: 3, y: 3 });
    assert_eq!(
        Point { x: -5, y: i32::MAX - 1 } + Point { x: 5, y: 1 },
        Point { x: 0, y: i32::MAX }
    );
}

#[test]
fn meters_are_added_to_millimeters() {
    assert_eq!(Millimeters(500) + Meters(2), Millimeters(2500));
    assert_eq!(Millimeters(0) + Meters(0), Millimeters(0));
    assert_eq!(Millimeters(295) + Meters(4294967), Millimeters(u32::MAX));
}

#[test]
fn a_human_flies_in_three_ways() {
    let person = Human;
    assert_eq!(person.fly(), "*waving arms furiously*");
    assert_eq!(Pilot::fly(&person), "This is your captain speaking.");
    assert_eq!(Wizard::fly(&person), "Up!");
    assert_eq!(
        traits_with_same_method_name(),
        (
            "*waving arms furiously*",
            "This is your captain speaking.",
            "Up!"
        )
    );
}

#[test]
fn a_text_is_repeated() {
    assert_eq!(repeat("ab", 3), "ababab");
    assert_eq!(repeat("ab", 0), "");
    assert_eq!(repeat("", 5), "");
    assert_eq!(repeat("*", 1), "*");
}

#[test]
fn a_point_is_printed_in_a_frame() {
    let point = Point2 { x: 3, y: 4 };
    assert_eq!(point.to_string(), "(3, 4)");
    let expected = vec![
        "len: 6",
        "**********",
        "*        *",
        "* (3, 4) *",
        "*        *",
        "**********",
    ];
    assert_eq!(point.outline_print(), expected);
    assert_eq!(super_trait(), expected);
    assert_eq!(
        Point2 {
            x: i32::MIN,
            y: -7
        }
        .to_string(),
        "(-2147483648, -7)"
    );
}

#[test]
fn a_frame_is_as_wide_as_the_text_in_bytes() {
    assert_eq!(
        outline(""),
        vec!["len: 0", "****", "*  *", "*  *", "*  *", "****"]
    );
    assert_eq!(
        outline("ä"),
        vec!["len: 2", "******", "*    *", "* ä *", "*    *", "******"]
    );
    assert_eq!(
        outline("0123456789"),
        vec![
            "len: 10",
            "**************",
            "*            *",
            "* 0123456789 *",
            "*            *",
            "**************"
        ]
    );
}

#[test]
fn a_list_is_written_in_square_brackets() {
    let w = Wrapper(vec![String::from("hello"), String::from("world")]);
    assert_eq!(w.to_string(), "[hello, world]");
    assert_eq!(newtype_pattern(), "[hello, world]");
    assert_eq!(Wrapper(vec![]).to_string(), "[]");
    assert_eq!(Wrapper(vec![String::from("one")]).to_string(), "[one]");
    assert_eq!(
        Wrapper(vec![String::from(""), String::from(""), String::from("x")]).to_string(),
        "[, , x]"
    );
}
