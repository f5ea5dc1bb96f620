use rust_tour::shapes::{area, build_user_update_syntax, Rectangle, User};

#[test]
fn the_area_is_width_times_height() {
    let rect1 = Rectangle {
        width: 30,
        height: 50,
    };
    assert_eq!(area(&rect1), 1500);
    assert_eq!(rect1.area(), 1500);
    let rect2 = Rectangle {
        width: 60,
        height: 50,
    };
    assert_eq!(rect2.area(), 3000);
    assert_eq!(Rectangle { width: 0, height: 9 }.area(), 0);
    assert_eq!(Rectangle { width: 65535, height: 65537 }.area(), u32::MAX);
}

#[test]
fn a_rectangle_holds_what_is_smaller_on_both_sides() {
    let rect1 = Rectangle {
        width: 30,
        height: 50,
    };
    let rect2 = Rectangle {
        width: 10,
        height: 40,
    };
    let rect3 = Rectangle {
        width: 60,
        height: 45,
    };
    assert!(rect1.can_hold(&rect2));
    assert!(!rect1.can_hold(&rect3));
    assert!(!rect1.can_hold(&rect1));
    assert!(!rect2.can_hold(&rect1));
}

#[test]
fn a_square_has_equal_sides() {
    assert_eq!(
        Rectangle::square(7),
        Rectangle {
            width: 7,
            height: 7
        }
    );
}

#[test]
fn an_update_changes_the_address_only() {
    let user = User {
        email: String::from("someone@example.com"),
        username: String::from("someone"),
        active: true,
        sign_in_count: 1,
    };
    let updated = build_user_update_syntax(user);
    assert_eq!(updated.email, "some@example.com");
    assert_eq!(updated.username, "someone");
    assert!(updated.active);
    assert_eq!(updated.sign_in_count, 1);
}
