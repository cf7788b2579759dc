use decay::{CodePlace, Decay, DecayRoot, Note};
use std::num::ParseIntError;

#[derive(Clone, Debug, PartialEq, Eq)]
enum FailKind {
    ParseInt(ParseIntError),
    Custom(String),
}

impl From<ParseIntError> for FailKind {
    fn from(src: ParseIntError) -> Self {
        FailKind::ParseInt(src)
    }
}

impl From<String> for FailKind {
    fn from(src: String) -> Self {
        FailKind::Custom(src)
    }
}

type Fail = Decay<FailKind>;

fn frame_count(chain: &Fail) -> usize {
    let mut count: usize = 0;
    let mut nodes = chain.iter();
    while let Some(node) = nodes.next() {
        if !matches!(node, Decay::External { .. }) {
            count += 1;
        }
    }
    count
}

#[test]
fn external_parse_error_all_steps() {
    let parse_u8_error = "definetely not a number"
        .parse::<u8>()
        .expect_err("Prasing attempt of presented text should cause an error");
    let fail_kind = FailKind::from(parse_u8_error.clone());
    let fail = Fail::from(fail_kind);

    match fail {
        Decay::External { error } => assert_eq!(error, FailKind::ParseInt(parse_u8_error)),
        _ => panic!("Fail variant should be Decay::External"),
    }
}

#[test]
fn external_custom_error_all_steps() {
    let custom_error = "Text representing some error".to_owned();
    let fail_kind = FailKind::from(custom_error.clone());
    let fail = Fail::from(fail_kind);

    match fail {
        Decay::External { error } => assert_eq!(error, FailKind::Custom(custom_error)),
        _ => panic!("Fail variant should be Decay::External"),
    }
}

#[test]
fn external_parse_error_morph_unnoted_once() {
    let parse_u8_error = "definetely not a number"
        .parse::<u8>()
        .expect_err("Prasing attempt of presented text should cause an error");
    let fail: Fail = Fail::morph_unnoted(CodePlace::new("src/decay/tests.rs", 52, 22))(
        parse_u8_error.clone(),
    );

    match fail {
        Decay::Further { error, note, place } => {
            match *error {
                Decay::External { error: inner } => {
                    assert_eq!(inner, FailKind::ParseInt(parse_u8_error))
                }
                _ => panic!("Fail variant should be Decay::External"),
            }
            assert_eq!(note, Note::none());
            let mut places_iter = place.iter();
            match places_iter.next() {
                None => panic!("Exactly one place should be added"),
                Some(cp) => {
                    assert_eq!(cp.file, "src/decay/tests.rs");
                    assert_eq!(cp.line, 52);
                    assert_eq!(cp.column, 22);
                }
            }
            assert_eq!(places_iter.next(), None);
        }
        _ => panic!("Fail variant should be Decay::Further"),
    }
}

#[test]
fn external_custom_error_morph_once_str() {
    let custom_error = "Text representing some error".to_owned();
    let fail: Fail = Fail::morph(
        CodePlace::new("src/decay/tests.rs", 81, 22),
        Note::from_text("Some note"),
    )(custom_error.clone());

    match fail {
        Decay::Further { error, note, place } => {
            match *error {
                Decay::External { error: inner } => {
                    assert_eq!(inner, FailKind::Custom(custom_error))
                }
                _ => panic!("Fail variant should be Decay::External"),
            }
            assert_eq!(note.text(), Some("Some note"));
            let mut places_iter = place.iter();
            match places_iter.next() {
                None => panic!("Exactly one place should be added"),
                Some(cp) => {
                    assert_eq!(cp.file, "src/decay/tests.rs");
                    assert_eq!(cp.line, 81);
                    assert_eq!(cp.column, 22);
                }
            }
            assert_eq!(places_iter.next(), None);
        }
        _ => panic!("Fail variant should be Decay::Further"),
    }
}

#[test]
fn new_error_morph_thrice_string() {
    let start: Fail = Decay::new(
        CodePlace::new("src/decay/tests.rs", 109, 23),
        Note::from_string(format!("Dumb sample error with text '{}'", "text of error")),
    );
    let fail: Fail = Fail::morph_unnoted(CodePlace::new("src/decay/tests.rs", 110, 22))(start);
    let fail: Fail = Fail::morph(
        CodePlace::new("src/decay/tests.rs", 111, 22),
        Note::from_string(format!("Some note #{}, formatted", 2)),
    )(fail);

    let next_level = match fail {
        Decay::Further { error, note, place } => {
            assert_eq!(note.text(), Some("Some note #2, formatted"));
            let mut places_iter = place.iter();
            match places_iter.next() {
                None => panic!("Exactly one place should be added"),
                Some(cp) => {
                    assert_eq!(cp.file, "src/decay/tests.rs");
                    assert_eq!(cp.line, 111);
                    assert_eq!(cp.column, 22);
                }
            }
            assert_eq!(places_iter.next(), None);
            error
        }
        _ => panic!("Fail variant should be Decay::Further"),
    };

    match *next_level {
        Decay::Internal { note, place } => {
            assert_eq!(
                note.text(),
                Some("Dumb sample error with text 'text of error'")
            );
            let mut places_iter = place.iter();
            match places_iter.next() {
                None => panic!("Exactly two places should be added (this should be the last one)"),
                Some(cp) => {
                    assert_eq!(cp.file, "src/decay/tests.rs");
                    assert_eq!(cp.line, 110);
                    assert_eq!(cp.column, 22);
                }
            }
            match places_iter.next() {
                None => panic!("Exactly two places should be added (this should be the first one)"),
                Some(cp) => {
                    assert_eq!(cp.file, "src/decay/tests.rs");
                    assert_eq!(cp.line, 109);
                    assert_eq!(cp.column, 23);
                }
            }
            assert_eq!(places_iter.next(), None);
        }
        _ => panic!("Fail variant should be Decay::Internal"),
    }
}

#[test]
fn external_custom_error_morph_once_from_o() {
    let custom_error = FailKind::Custom("Text representing some error".into());
    let fail: Fail = Fail::morph(
        CodePlace::new("src/decay/tests.rs", 163, 22),
        Note::from_text("Some note"),
    )(custom_error.clone());

    match fail {
        Decay::Further { error, note, place } => {
            match *error {
                Decay::External { error: inner } => assert_eq!(inner, custom_error),
                _ => panic!("Fail variant should be Decay::External"),
            }
            assert_eq!(note.text(), Some("Some note"));
            let mut places_iter = place.iter();
            match places_iter.next() {
                None => panic!("Exactly one place should be added"),
                Some(cp) => {
                    assert_eq!(cp.file, "src/decay/tests.rs");
                    assert_eq!(cp.line, 163);
                    assert_eq!(cp.column, 22);
                }
            }
            assert_eq!(places_iter.next(), None);
        }
        _ => panic!("Fail variant should be Decay::Further"),
    }
}

#[test]
fn decay_root_internal() {
    let start: Fail = Decay::new(
        CodePlace::new("src/decay/tests.rs", 191, 23),
        Note::from_string(format!("Dumb sample error with text '{}'", "text of error")),
    );
    let fail: Fail = Fail::morph_unnoted(CodePlace::new("src/decay/tests.rs", 192, 22))(start);
    let fail: Fail = Fail::morph(
        CodePlace::new("src/decay/tests.rs", 193, 22),
        Note::from_string(format!("Some note #{}, formatted", 2)),
    )(fail);

    match fail.root() {
        DecayRoot::External { .. } => panic!("Expected DecayRoot::Internal"),
        DecayRoot::Internal { note, place } => {
            assert_eq!(
                note.text(),
                Some("Dumb sample error with text 'text of error'")
            );
            let mut places_iter = place.iter();
            match places_iter.next() {
                None => panic!("Exactly two places should be added (no second found)"),
                Some(cp) => {
                    assert_eq!(cp.file, "src/decay/tests.rs");
                    assert_eq!(cp.line, 192);
                    assert_eq!(cp.column, 22);
                }
            }
            match places_iter.next() {
                None => panic!("Exactly two places should be added (no first found)"),
                Some(cp) => {
                    assert_eq!(cp.file, "src/decay/tests.rs");
                    assert_eq!(cp.line, 191);
                    assert_eq!(cp.column, 23);
                }
            }
            assert_eq!(places_iter.next(), None);
        }
    }
}

#[test]
fn decay_root_external() {
    let custom_error = FailKind::Custom("Text representing some error".into());
    let fail: Fail = Fail::morph(
        CodePlace::new("src/decay/tests.rs", 227, 22),
        Note::from_text("Some note"),
    )(custom_error.clone());

    match fail.root() {
        DecayRoot::Internal { .. } => panic!("Expected DecayRoot::External"),
        DecayRoot::External { error } => assert_eq!(error, &custom_error),
    }
}

#[test]
fn end_to_end_internal_chain() {
    let p0 = CodePlace::new("app.rs", 10, 5);
    let p1 = CodePlace::new("app.rs", 20, 5);
    let p2 = CodePlace::new("app.rs", 30, 5);
    let c0: Fail = Decay::new(p0.clone(), Note::from_text("root cause"));
    let c1 = c0.further_unnoted(p1.clone());
    let c2 = c1.further(p2.clone(), Note::from_text("note #2"));

    match &c2 {
        Decay::Further { note, place, error } => {
            assert_eq!(note.text(), Some("note #2"));
            let mut it = place.iter();
            assert_eq!(it.next(), Some(&p2));
            assert_eq!(it.next(), None);
            match error.as_ref() {
                Decay::Internal { note, place } => {
                    assert_eq!(note.text(), Some("root cause"));
                    let mut it = place.iter();
                    assert_eq!(it.next(), Some(&p1));
                    assert_eq!(it.next(), Some(&p0));
                    assert_eq!(it.next(), None);
                }
                _ => panic!("inner node should be Decay::Internal"),
            }
        }
        _ => panic!("chain should be Decay::Further"),
    }

    assert_eq!(frame_count(&c2), 2);

    match c2.root() {
        DecayRoot::External { .. } => panic!("root should be DecayRoot::Internal"),
        DecayRoot::Internal { note, place } => {
            assert_eq!(note.text(), Some("root cause"));
            let mut it = place.iter();
            assert_eq!(it.next(), Some(&p1));
            assert_eq!(it.next(), Some(&p0));
            assert_eq!(it.next(), None);
        }
    }
}

#[test]
fn unnoted_step_never_grows_annotated_chains() {
    let leaf: Fail = Decay::from(FailKind::Custom("x".into()));
    assert_eq!(frame_count(&leaf), 0);
    let wrapped = leaf.further_unnoted(CodePlace::new("a.rs", 1, 1));
    assert_eq!(frame_count(&wrapped), 1);
    match &wrapped {
        Decay::Further { note, place, .. } => {
            assert!(note.is_none());
            let mut it = place.iter();
            assert!(it.next().is_some());
            assert_eq!(it.next(), None);
        }
        _ => panic!("an unnoted step atop a leaf should wrap"),
    }

    let annotated: Fail = Decay::new(CodePlace::new("a.rs", 2, 1), Note::from_text("n"));
    assert_eq!(frame_count(&annotated), 1);
    let merged = annotated.further_unnoted(CodePlace::new("a.rs", 3, 1));
    assert_eq!(frame_count(&merged), 1);
    match &merged {
        Decay::Internal { place, .. } => {
            let mut it = place.iter();
            assert!(it.next().is_some());
            assert!(it.next().is_some());
            assert_eq!(it.next(), None);
        }
        _ => panic!("an unnoted step atop a rooted chain should merge"),
    }
}

#[test]
fn noted_step_always_wraps() {
    let rooted: Fail = Decay::new(CodePlace::new("a.rs", 1, 1), Note::from_text("a"));
    assert_eq!(frame_count(&rooted), 1);
    let once = rooted.further(CodePlace::new("a.rs", 2, 1), Note::from_text("b"));
    assert_eq!(frame_count(&once), 2);
    assert!(matches!(once, Decay::Further { .. }));

    let leaf: Fail = Decay::from(FailKind::Custom("x".into()));
    let lifted = leaf.further(CodePlace::new("a.rs", 3, 1), Note::from_text("c"));
    assert_eq!(frame_count(&lifted), 1);
    let twice = lifted.further(CodePlace::new("a.rs", 4, 1), Note::from_text("d"));
    assert_eq!(frame_count(&twice), 2);
    assert!(matches!(twice, Decay::Further { .. }));
}
