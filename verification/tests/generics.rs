use rust_tour::generics::{largest, Pair, Point};

#[test]
fn the_largest_item_is_found() {
    assert_eq!(largest(&[34, 50, 25, 100, 65]), 100);
    assert_eq!(largest(&[7]), 7);
    assert_eq!(largest(&[-3, -1, -2]), -1);
    assert_eq!(largest(&[5, 5, 5]), 5);
    assert_eq!(largest(&['y', 'm', 'a', 'q']), 'y');
    assert_eq!(largest(&[1u8, 255, 0]), 255);
}

#[test]
fn of_equal_items_the_first_is_the_largest() {
    #[derive(Clone, Copy, Debug)]
    struct Tagged(i32, char);

    impl PartialEq for Tagged {
        fn eq(&self, other: &Tagged) -> bool {
            self.0 == other.0
        }
    }

    impl PartialOrd for Tagged {
        fn partial_cmp(&self, other: &Tagged) -> Option<std::cmp::Ordering> {
            self.0.partial_cmp(&other.0)
        }
    }

    let best = largest(&[Tagged(1, 'a'), Tagged(3, 'b'), Tagged(3, 'c'), Tagged(2, 'd')]);
    assert_eq!(best.0, 3);
    assert_eq!(best.1, 'b');
}

#[test]
fn a_point_gives_its_first_coordinate() {
    let integer = Point { x: 5, y: 10 };
    assert_eq!(*integer.x(), 5);
    let float = Point { x: 1.0, y: 4.0 };
    assert_eq!(*float.x(), 1.0);
    assert_eq!(format!("{:?}", integer), "Point { x: 5, y: 10 }");
}

#[test]
fn a_pair_knows_its_largest_member() {
    let pair = Pair::new(3, 2);
    assert_eq!(pair.x, 3);
    assert_eq!(pair.y, 2);
    assert!(pair.largest_is_x());
    assert!(Pair::new(2, 2).largest_is_x());
    assert!(!Pair::new(1, 2).largest_is_x());
    assert!(Pair::new("b", "a").largest_is_x());
}
