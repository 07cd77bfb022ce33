use bounded_guess::rectangle::Rectangle;

#[test]
fn larger_can_hold_smaller() {
    let larger = Rectangle {
        width: 8,
        height: 7,
    };
    let smaller = Rectangle {
        width: 5,
        height: 1,
    };

    assert!(larger.can_hold(&smaller));
}

#[test]
fn smaller_cannot_hold_larger() {
    let larger = Rectangle {
        width: 8,
        height: 7,
    };
    let smaller = Rectangle {
        width: 5,
        height: 1,
    };

    assert!(!smaller.can_hold(&larger));
}

#[test]
fn a_rectangle_cannot_hold_itself() {
    let rect = Rectangle { width: 8, height: 7 };
    assert!(!rect.can_hold(&rect));
}

#[test]
fn equal_width_or_height_does_not_fit() {
    let outer = Rectangle { width: 30, height: 50 };
    assert!(!outer.can_hold(&Rectangle { width: 30, height: 10 }));
    assert!(!outer.can_hold(&Rectangle { width: 10, height: 50 }));
    assert!(outer.can_hold(&Rectangle { width: 29, height: 49 }));
}

#[test]
fn wider_but_lower_does_not_hold() {
    let first = Rectangle { width: 30, height: 50 };
    let third = Rectangle { width: 60, height: 45 };
    assert!(!first.can_hold(&third));
    assert!(!third.can_hold(&first));
}

#[test]
fn holding_carries_through() {
    let outer = Rectangle { width: 30, height: 50 };
    let middle = Rectangle { width: 10, height: 40 };
    let inner = Rectangle { width: 5, height: 1 };
    assert!(outer.can_hold(&middle));
    assert!(middle.can_hold(&inner));
    assert!(outer.can_hold(&inner));
}

#[test]
fn square_has_equal_sides() {
    let square = Rectangle::square(25);
    assert_eq!(square.width, 25);
    assert_eq!(square.height, 25);
    let none = Rectangle::square(0);
    assert_eq!(none.width, 0);
    assert_eq!(none.height, 0);
}
