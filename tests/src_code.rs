use langkit::src_code::{Line, Span};

#[test]
fn span_new_checks_order() {
    let span = Span::new(0, 0).unwrap();
    assert_eq!((span.start(), span.end()), (0, 0));
    assert_eq!(Span::new(1, 0), None);
    let span = Span::new(3, 9).unwrap();
    assert_eq!((span.start(), span.end()), (3, 9));
}

#[test]
fn span_new_unchecked_keeps_bounds() {
    let span = Span::new_unchecked(4, 4);
    assert_eq!(span, Span::new(4, 4).unwrap());
    assert_eq!(span.end(), 4);
}

#[test]
fn span_default_and_line() {
    let line: Line = Span::default();
    assert_eq!((line.start(), line.end()), (0, 0));
}
