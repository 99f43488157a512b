use teletext::glyphs::collect_chars;
use teletext::shapes::{render_arrow, render_square, render_star, render_sw};
use teletext::transform::{bounds, render, ShapeKind, TransformError};

const KINDS: [ShapeKind; 4] = [
    ShapeKind::Square,
    ShapeKind::Star,
    ShapeKind::Arrow,
    ShapeKind::Diagonal,
];

#[test]
fn too_short_text_is_refused_with_the_bounds() {
    for kind in KINDS {
        assert_eq!(render(kind, "ab"), Err(TransformError { min: 3, max: 100 }));
        assert_eq!(render(kind, ""), Err(TransformError { min: 3, max: 100 }));
    }
}

#[test]
fn square_of_two_letters_is_refused() {
    assert_eq!(
        render(ShapeKind::Square, "ab"),
        Err(TransformError::invalid_length(3, 100))
    );
}

#[test]
fn too_long_text_is_refused_with_the_bounds() {
    let long = "x".repeat(101);
    for kind in KINDS {
        assert_eq!(render(kind, &long), Err(TransformError { min: 3, max: 100 }));
    }
}

#[test]
fn bounds_are_inclusive() {
    let longest = "x".repeat(100);
    for kind in KINDS {
        assert_eq!(bounds(kind), (3, 100));
        assert!(render(kind, "abc").is_ok());
        assert!(render(kind, &longest).is_ok());
    }
}

#[test]
fn length_is_counted_in_bytes() {
    // two characters, four bytes
    assert!(render(ShapeKind::Arrow, "éé").is_ok());
    // one character, three bytes
    assert_eq!(render(ShapeKind::Arrow, "€").unwrap(), "€");
    // two characters, two bytes
    assert!(render(ShapeKind::Arrow, "ab").is_err());
}

#[test]
fn error_message_names_the_bounds() {
    let e = render(ShapeKind::Star, "no").unwrap_err();
    assert_eq!(e.description(), "text must contain from 3 up to 100 characters");
    assert_eq!(e.to_string(), "text must contain from 3 up to 100 characters");
    assert_eq!(
        TransformError::invalid_length(7, 1234).description(),
        "text must contain from 7 up to 1234 characters"
    );
    assert_eq!(
        TransformError::invalid_length(0, 10).description(),
        "text must contain from 0 up to 10 characters"
    );
}

#[test]
fn glyphs_are_uppercase_and_foldings_kept_whole() {
    assert_eq!(collect_chars("teXt"), vec!['T', 'E', 'X', 'T']);
    assert_eq!(collect_chars("ßa"), vec!['S', 'S', 'A']);
    assert_eq!(collect_chars(""), Vec::<char>::new());
    assert_eq!(render(ShapeKind::Arrow, "ßab").unwrap(), "S S A B\nS S\nA   A\nB     B");
}

#[test]
fn square_scenario() {
    let s = render(ShapeKind::Square, "text").unwrap();
    let rows: Vec<&str> = s.lines().collect();
    assert_eq!(rows.len(), 7);
    assert_eq!(rows[0], "T T T T T T T");
    assert_eq!(rows[3], "T X E T E X T");
    assert_eq!(rows[6], "T T T T T T T");
    assert!(!s.ends_with('\n'));
}

#[test]
fn square_is_square_and_turns_onto_itself() {
    let s = render(ShapeKind::Square, "abcd").unwrap();
    let grid: Vec<Vec<char>> = s
        .split('\n')
        .map(|row| row.split(' ').map(|g| g.chars().next().unwrap()).collect())
        .collect();
    assert_eq!(grid.len(), 7);
    for row in &grid {
        assert_eq!(row.len(), 7);
    }
    for r in 0..7 {
        for c in 0..7 {
            assert_eq!(grid[r][c], grid[6 - r][6 - c]);
        }
    }
    assert_eq!(grid[3][3], 'A');
    assert_eq!(grid[0][0], 'D');
}

#[test]
fn square_renderer_on_glyphs() {
    assert_eq!(render_square(&vec!['A', 'B']), "B B B\nB A B\nB B B");
    assert_eq!(render_square(&vec!['Q']), "Q");
}

#[test]
fn star_scenario() {
    let s = render(ShapeKind::Star, "text").unwrap();
    let rows: Vec<&str> = s.split('\n').collect();
    assert_eq!(rows.len(), 7);
    assert_eq!(rows[3], "T X E T E X T");
    assert_eq!(rows[0], "T     T     T");
    assert_eq!(rows[6], "T     T     T");
}

#[test]
fn star_is_mirrored_about_the_middle_row() {
    let s = render(ShapeKind::Star, "hello").unwrap();
    let rows: Vec<&str> = s.split('\n').collect();
    assert_eq!(rows.len(), 9);
    for k in 0..9 {
        assert_eq!(rows[k], rows[8 - k]);
    }
    assert_eq!(rows[4], "O L L E H E L L O");
}

#[test]
fn star_renderer_on_glyphs() {
    assert_eq!(render_star(&vec!['A', 'B']), "B B B\nB A B\nB B B");
    assert_eq!(render_star(&vec!['Q']), "Q");
}

#[test]
fn arrow_scenario() {
    let s = render(ShapeKind::Arrow, "text").unwrap();
    let rows: Vec<&str> = s.split('\n').collect();
    assert_eq!(rows.len(), 4);
    assert_eq!(rows[0], "T E X T");
    assert_eq!(rows[3], "T     T");
}

#[test]
fn arrow_renderer_on_glyphs() {
    assert_eq!(render_arrow(&vec!['A', 'B', 'C']), "A B C\nB B\nC   C");
}

#[test]
fn diagonal_scenario() {
    let s = render(ShapeKind::Diagonal, "rurust").unwrap();
    let rows: Vec<&str> = s.split('\n').collect();
    assert_eq!(rows.len(), 11);
    assert_eq!(rows[0], "R         T S U R U R ");
    assert_eq!(rows[5], "T S U R U R U R U S T");
    assert!(!s.ends_with('\n'));
}

#[test]
fn diagonal_renderer_on_glyphs() {
    assert_eq!(render_sw(&vec!['A', 'B']), "A B A \nB A B\nA B A");
    assert_eq!(render_sw(&vec!['A', 'B', 'C']), "A   C B A \nB   B\nC B A B C\n    B   B\nA B C   A");
    assert_eq!(render_sw(&vec!['Q']), "Q");
}

#[test]
fn rendering_twice_gives_the_same_bytes() {
    for kind in KINDS {
        let a = render(kind, "rurust").unwrap();
        let b = render(kind, "rurust").unwrap();
        assert_eq!(a.as_bytes(), b.as_bytes());
    }
}

#[test]
fn case_does_not_matter() {
    for kind in KINDS {
        assert_eq!(render(kind, "text"), render(kind, "TEXT"));
        assert_eq!(render(kind, "TeXt"), render(kind, "tExT"));
    }
}
