use teletext::{Arrow, Square, Star, Sw};

fn assert_text_square(text: &str) {
    let mut lines = text.lines();
    assert_eq!(lines.next(), Some("T T T T T T T"));
    assert_eq!(lines.next(), Some("T X X X X X T"));
    assert_eq!(lines.next(), Some("T X E E E X T"));
    assert_eq!(lines.next(), Some("T X E T E X T"));
    assert_eq!(lines.next(), Some("T X E E E X T"));
    assert_eq!(lines.next(), Some("T X X X X X T"));
    assert_eq!(lines.next(), Some("T T T T T T T"));
}

fn assert_text_star(text: &str) {
    let mut lines = text.lines();
    assert_eq!(lines.next(), Some("T     T     T"));
    assert_eq!(lines.next(), Some("  X   X   X"));
    assert_eq!(lines.next(), Some("    E E E"));
    assert_eq!(lines.next(), Some("T X E T E X T"));
    assert_eq!(lines.next(), Some("    E E E"));
    assert_eq!(lines.next(), Some("  X   X   X"));
    assert_eq!(lines.next(), Some("T     T     T"));
}

fn assert_text_arrow(text: &str) {
    let mut lines = text.lines();
    assert_eq!(lines.next(), Some("T E X T"));
    assert_eq!(lines.next(), Some("E E"));
    assert_eq!(lines.next(), Some("X   X"));
    assert_eq!(lines.next(), Some("T     T"));
}

fn assert_text_sw(text: &str) {
    let mut lines = text.lines();
    assert_eq!(lines.next(), Some("R         T S U R U R "));
    assert_eq!(lines.next(), Some("U         S"));
    assert_eq!(lines.next(), Some("R         U"));
    assert_eq!(lines.next(), Some("U         R"));
    assert_eq!(lines.next(), Some("S         U"));
    assert_eq!(lines.next(), Some("T S U R U R U R U S T"));
    assert_eq!(lines.next(), Some("          U         S"));
    assert_eq!(lines.next(), Some("          R         U"));
    assert_eq!(lines.next(), Some("          U         R"));
    assert_eq!(lines.next(), Some("          S         U"));
    assert_eq!(lines.next(), Some("R U R U S T         R"));
}

#[test]
fn lib_transform_square() {
    let i = "text";
    let data = Square::try_from(i).unwrap().buf;
    assert_text_square(&data);
}

#[test]
fn lib_transform_star() {
    let i = "text";
    let data = Star::try_from(i).unwrap().buf;
    assert_text_star(&data);
}

#[test]
fn lib_transform_arrow() {
    let i = "text";
    let data = Arrow::try_from(i).unwrap().buf;
    assert_text_arrow(&data);
}

#[test]
fn lib_transform_sw() {
    let i = "rurust";
    let data = Sw::try_from(i).unwrap().buf;
    assert_text_sw(&data);
}

#[test]
fn structs_refuse_out_of_bounds_text() {
    assert!(Square::try_from("ab").is_err());
    assert!(Star::try_from("ab").is_err());
    assert!(Arrow::try_from(&"a".repeat(101)[..]).is_err());
    assert!(Sw::try_from("").is_err());
}

#[test]
fn struct_to_string_is_the_drawing() {
    let a = Arrow::try_from("abc").unwrap();
    assert_eq!(a.to_string(), "A B C\nB B\nC   C");
    assert_eq!(a.to_string(), a.buf);
}
