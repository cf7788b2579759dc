use decay::{opt_text, Note};

#[test]
fn primitive() {
    assert_eq!(Note::none(), Note::none());
    assert_eq!(
        Note::from_text("Just some static text").text(),
        Some("Just some static text")
    );
    assert_eq!(
        Note::from_string("Just some dynamic text".to_owned()).text(),
        Some("Just some dynamic text")
    );
}

#[test]
fn absent_note_is_canonical() {
    let variants = vec![
        Note::none(),
        Note::from_text(""),
        Note::from_string(String::new()),
        Note::from_opt(None),
        Note::from_opt(Some(String::new())),
    ];
    for n in &variants {
        assert!(n.is_none());
        assert_eq!(n.text(), None);
        assert_eq!(n, &Note::none());
    }
}

#[test]
fn present_note_keeps_text() {
    let n = Note::from_string("context".to_owned());
    assert!(!n.is_none());
    assert_eq!(n.text(), Some("context"));
    let copy = n.clone();
    assert_eq!(copy, n);
}

#[test]
fn opt_text_normalizes() {
    assert_eq!(opt_text(String::new()), None);
    assert_eq!(opt_text("x".to_owned()), Some("x".to_owned()));
}
