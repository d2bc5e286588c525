use gameboy::ppu::object::Object;

#[test]
fn it_should_be_lesser_than() {
    let o1 = Object::new(1, 2, 5, 5, 3);
    let o2 = Object::new(2, 2, 5, 5, 5);

    assert!(o1 < o2)
}

#[test]
fn it_should_be_greater_than() {
    let o1 = Object::new(3, 2, 5, 5, 3);
    let o2 = Object::new(2, 2, 5, 5, 5);

    assert!(o1 > o2)
}

#[test]
fn it_should_be_less_if_eq() {
    let o1 = Object::new(2, 2, 5, 5, 3);
    let o2 = Object::new(2, 2, 5, 5, 5);

    assert!(o1 < o2)
}
