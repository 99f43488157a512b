use teletext::transform::{to_arrow, ToArrow, ToSquare, ToStar, ToSw};

fn assert_text_arrow(text: &str) {
    let mut lines = text.lines();
    assert_eq!(lines.next(), Some("T E X T"));
    assert_eq!(lines.next(), Some("E E"));
    assert_eq!(lines.next(), Some("X   X"));
    assert_eq!(lines.next(), Some("T     T"));
}

fn assert_text_square(text: &str) {
    let mut lines = text.lines();
    assert_eq!(lines.next(), Some("T T T T T T T"));
    assert_eq!(lines.next(), Some("T X X X X X T"));
    assert_eq!(lines.next(), Some("T X E E E X T"));
    assert_eq!(lines.next(), Some("T X E T E X T"));
    assert_eq!(lines.next(), Some("T X E E E X T"));
    assert_eq!(lines.next(), Some("T X X X X X T"));
    assert_eq!(lines.next(), Some("T T T T T T T"));
}

fn assert_text_star(text: &str) {
    let mut lines = text.lines();
    assert_eq!(lines.next(), Some("T     T     T"));
    assert_eq!(lines.next(), Some("  X   X   X"));
    assert_eq!(lines.next(), Some("    E E E"));
    assert_eq!(lines.next(), Some("T X E T E X T"));
    assert_eq!(lines.next(), Some("    E E E"));
    assert_eq!(lines.next(), Some("  X   X   X"));
    assert_eq!(lines.next(), Some("T     T     T"));
}

fn assert_text_sw(text: &str) {
    let mut lines = text.lines();
    assert_eq!(lines.next(), Some("R         T S U R U R "));
    assert_eq!(lines.next(), Some("U         S"));
    assert_eq!(lines.next(), Some("R         U"));
    assert_eq!(lines.next(), Some("U         R"));
    assert_eq!(lines.next(), Some("S         U"));
    assert_eq!(lines.next(), Some("T S U R U R U R U S T"));
    assert_eq!(lines.next(), Some("          U         S"));
    assert_eq!(lines.next(), Some("          R         U"));
    assert_eq!(lines.next(), Some("          U         R"));
    assert_eq!(lines.next(), Some("          S         U"));
    assert_eq!(lines.next(), Some("R U R U S T         R"));
}

#[test]
fn transform_transform_arrow() {
    assert_text_arrow(&"text".to_arrow().unwrap());
}

#[test]
fn transform_transform_square() {
    assert_text_square(&"text".to_square().unwrap());
}

#[test]
fn transform_transform_star() {
    assert_text_star(&"text".to_star().unwrap());
}

#[test]
fn transform_transform_sw() {
    assert_text_sw(&"rurust".to_sw().unwrap());
}

#[test]
fn arrow() {
    let transformed = to_arrow("text").unwrap();
    let mut lines = transformed.lines();
    assert_eq!(lines.next(), Some("T E X T"));
    assert_eq!(lines.next(), Some("E E"));
    assert_eq!(lines.next(), Some("X   X"));
    assert_eq!(lines.next(), Some("T     T"));
}
