use gameboy::ppu::renderer::is_object_visible;

#[test]
fn it_should_be_visible() {
    let res = is_object_visible(9, 0, false);

    assert!(res);
}

#[test]
fn it_should_not_be_visible() {
    let res = is_object_visible(8, 0, false);

    assert!(!res);
}

#[test]
fn it_should_not_be_visible_for_big_sprite() {
    let res = is_object_visible(0, 0, true);

    assert!(!res);
}

#[test]
fn it_should_be_visible_16() {
    let res = is_object_visible(2, 0, true);

    assert!(res);
}

#[test]
fn it_should_not_be_visible_8() {
    let res = is_object_visible(160, 143, false);

    assert!(!res);
}

#[test]
fn it_should_be_visible_8_lower_part() {
    let res = is_object_visible(159, 143, false);

    assert!(res);
}

#[test]
fn it_should_not_be_visible_16_lower_limit() {
    let res = is_object_visible(40, 23, true);

    assert!(!res);
}

#[test]
fn it_should_be_visible_16_lower_limit() {
    let res = is_object_visible(40, 24, true);

    assert!(res);
}

#[test]
fn it_should_not_be_visible_16_higher_limit() {
    let res = is_object_visible(40, 40, true);

    assert!(!res);
}

#[test]
fn it_should_not_be_visible_8_higher_limit() {
    let res = is_object_visible(40, 32, false);

    assert!(!res);
}

#[test]
fn it_should_be_visible_16_higher_limit() {
    let res = is_object_visible(40, 39, true);

    assert!(res);
}

#[test]
fn it_should_be_visible_8_higher_limit() {
    let res = is_object_visible(40, 31, false);

    assert!(res);
}
