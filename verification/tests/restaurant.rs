use rust_tour::restaurant::eat_at_restaurant;
use rust_tour::restaurant::hosting;

#[test]
fn it_works() {
    let result = 2 + 2;
    assert_eq!(result, 4);
}

#[test]
fn a_guest_can_be_seated() {
    eat_at_restaurant();
    hosting::add_to_waitlist();
}
