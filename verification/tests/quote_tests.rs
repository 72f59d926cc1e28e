use qotd::quote::Quote;

#[test]
fn formats_body_in_single_quotes_then_hyphen_and_author() {
    let q = Quote::new("Hello", "X");
    assert_eq!(q.to_string(), "'Hello' -X");
}

#[test]
fn formats_without_trailing_newline() {
    let q = Quote::new("To be", "Shakespeare");
    let s = q.to_string();
    assert_eq!(s, "'To be' -Shakespeare");
    assert!(!s.ends_with('\n'));
    assert_eq!(s.len(), "To be".len() + "Shakespeare".len() + 4);
}

#[test]
fn formats_empty_body_and_author() {
    assert_eq!(Quote::new("", "").to_string(), "'' -");
}

#[test]
fn formats_quote_marks_and_spaces_as_they_are() {
    let q = Quote::new("it's 'fine' ", " A - B");
    assert_eq!(q.to_string(), "'it's 'fine' ' - A - B");
}

#[test]
fn formats_text_beyond_ascii() {
    let q = Quote::new("Größe", "Müller");
    assert_eq!(q.to_string(), "'Größe' -Müller");
}

#[test]
fn same_fields_give_same_text() {
    let a = Quote::new("B", "A");
    let b = Quote::new("B", "A");
    assert_eq!(a.to_string(), b.to_string());
    assert_eq!(a.to_string(), a.to_string());
    assert_eq!(a.to_string(), "'B' -A");
}

#[test]
fn clone_keeps_body_and_author() {
    let a = Quote::new("Stay", "Me");
    let b = a.clone();
    assert_eq!(b.text, "Stay");
    assert_eq!(b.author, "Me");
    assert_eq!(b.to_string(), a.to_string());
}
