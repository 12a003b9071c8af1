use translator_bindings::bridge::{
    get_word_boxes_at, lookup_result, plan_transliteration, set_frame_at, set_page_seg_mode_at,
    TransliterationStep,
};
use translator_bindings::handle::HandleRegistry;
use translator_bindings::marshal::{
    Gloss, HostClass, HostValue, Sense, WordEntryComplete, WordWithTaggedEntries,
};
use translator_bindings::ocr::{BoundingRect, PageSegMode, RawWord, TesseractWrapper};

fn run_entry() -> WordWithTaggedEntries {
    WordWithTaggedEntries {
        word: "run".to_string(),
        tag: 1,
        entries: vec![WordEntryComplete {
            senses: vec![Sense {
                pos: "verb".to_string(),
                glosses: vec![Gloss { gloss_lines: vec!["to move swiftly".to_string()] }],
            }],
        }],
        sounds: None,
        hyphenations: Vec::new(),
        redirects: Vec::new(),
    }
}

#[test]
fn zero_handle_operations_return_sentinels() {
    let mut dicts: HandleRegistry<u32> = HandleRegistry::new();
    dicts.open(1);
    assert_eq!(plan_transliteration(&dicts, 0, Some("日本".to_string())), TransliterationStep::Null);
    assert!(dicts.close(0).is_none());

    let mut sessions: HandleRegistry<TesseractWrapper<u32>> = HandleRegistry::new();
    let h = sessions.open(TesseractWrapper::new(0u32));
    assert_ne!(h, 0);
    let called = std::cell::Cell::new(false);
    let r = set_frame_at(&mut sessions, 0, |e: u32| -> Result<u32, ()> {
        called.set(true);
        Ok(e)
    });
    assert_eq!(r, 0);
    set_page_seg_mode_at(&mut sessions, 0, 7, |e: u32, _m| {
        called.set(true);
        e
    });
    let words = get_word_boxes_at(
        &mut sessions,
        0,
        |e: u32| -> Result<u32, ()> {
            called.set(true);
            Ok(e)
        },
        |e: u32| (e, None),
    );
    assert!(words.is_none());
    assert!(!called.get());
    assert!(sessions.close(0).is_none());
    assert!(sessions.is_open(h));
}

#[test]
fn transliteration_runs_only_on_live_handle_and_readable_text() {
    let mut dicts: HandleRegistry<u32> = HandleRegistry::new();
    let h = dicts.open(1);
    assert_eq!(
        plan_transliteration(&dicts, h, Some("日本語".to_string())),
        TransliterationStep::Run("日本語".to_string())
    );
    assert_eq!(plan_transliteration(&dicts, h, None), TransliterationStep::Null);
    assert_eq!(plan_transliteration(&dicts, h, Some(String::new())), TransliterationStep::Empty);
    assert_eq!(plan_transliteration(&dicts, h + 1, Some("東京".to_string())), TransliterationStep::Null);
    dicts.close(h);
    assert_eq!(plan_transliteration(&dicts, h, Some("東京".to_string())), TransliterationStep::Null);
}

#[test]
fn lookup_found_word_becomes_object() {
    let r = lookup_result::<String>(Ok(Some(run_entry())));
    match r {
        Some(HostValue::Object(HostClass::WordWithTaggedEntries, args)) => match &args[2] {
            HostValue::List(entries) => assert!(!entries.is_empty()),
            other => panic!("expected entry list, got {:?}", other),
        },
        other => panic!("expected word object, got {:?}", other),
    }
}

#[test]
fn lookup_not_found_and_error_are_both_null() {
    assert!(lookup_result::<String>(Ok(None)).is_none());
    assert!(lookup_result::<String>(Err("corrupt index".to_string())).is_none());
}

#[test]
fn blank_frame_recognizes_no_words() {
    let mut sessions: HandleRegistry<TesseractWrapper<Vec<u8>>> = HandleRegistry::new();
    let h = sessions.open(TesseractWrapper::new(Vec::new()));
    assert_ne!(h, 0);
    let blank = vec![255u8; 100 * 100 * 4];
    let r = set_frame_at(&mut sessions, h, |_e: Vec<u8>| -> Result<Vec<u8>, ()> {
        Ok(blank.clone())
    });
    assert_eq!(r, 1);
    let words = get_word_boxes_at(
        &mut sessions,
        h,
        |e: Vec<u8>| -> Result<Vec<u8>, ()> { Ok(e) },
        |e: Vec<u8>| {
            let ink = e.iter().any(|&b| b != 255);
            let found = if ink {
                vec![RawWord {
                    text: Some("ink".to_string()),
                    bounding_rect: Some(BoundingRect { left: 0, top: 0, right: 1, bottom: 1 }),
                    confidence_bits: 0,
                    is_at_beginning_of_para: true,
                    end_line: true,
                    end_para: true,
                }]
            } else {
                Vec::new()
            };
            (e, Some(found))
        },
    );
    match words {
        Some(HostValue::List(items)) => assert!(items.is_empty()),
        other => panic!("expected empty list, got {:?}", other),
    }
    assert!(sessions.close(h).is_some());
    assert!(sessions.close(h).is_none());
}

#[test]
fn failed_frame_then_recognition_returns_null() {
    let mut sessions: HandleRegistry<TesseractWrapper<u32>> = HandleRegistry::new();
    let h = sessions.open(TesseractWrapper::new(1u32));
    let r = set_frame_at(&mut sessions, h, |_e: u32| -> Result<u32, ()> { Err(()) });
    assert_eq!(r, 0);
    let words = get_word_boxes_at(
        &mut sessions,
        h,
        |e: u32| -> Result<u32, ()> { Ok(e) },
        |e: u32| (e, Some(Vec::new())),
    );
    assert!(words.is_none());
    assert_eq!(set_frame_at(&mut sessions, h, |e: u32| -> Result<u32, ()> { Ok(e) }), 0);
    assert!(sessions.is_open(h));
    assert!(sessions.close(h).is_some());
}

#[test]
fn page_seg_mode_code_reaches_the_engine() {
    let mut sessions: HandleRegistry<TesseractWrapper<Option<PageSegMode>>> =
        HandleRegistry::new();
    let h = sessions.open(TesseractWrapper::new(None));
    set_page_seg_mode_at(&mut sessions, h, 8, |_e, m| Some(m));
    let seen = std::cell::Cell::new(None);
    let _ = get_word_boxes_at(
        &mut sessions,
        h,
        |e: Option<PageSegMode>| -> Result<Option<PageSegMode>, ()> {
            seen.set(e);
            Ok(e)
        },
        |e| (e, None),
    );
    assert_eq!(seen.get(), Some(PageSegMode::PsmSingleWord));
    set_page_seg_mode_at(&mut sessions, h, 99, |_e, m| Some(m));
    let _ = get_word_boxes_at(
        &mut sessions,
        h,
        |e: Option<PageSegMode>| -> Result<Option<PageSegMode>, ()> {
            seen.set(e);
            Ok(e)
        },
        |e| (e, None),
    );
    assert_eq!(seen.get(), Some(PageSegMode::PsmAuto));
}

#[test]
fn recognized_words_are_marshaled_in_order() {
    let mut sessions: HandleRegistry<TesseractWrapper<u32>> = HandleRegistry::new();
    let h = sessions.open(TesseractWrapper::new(0u32));
    let words = get_word_boxes_at(
        &mut sessions,
        h,
        |e: u32| -> Result<u32, ()> { Ok(e) },
        |e: u32| {
            let w = |t: &str, x: i32| RawWord {
                text: Some(t.to_string()),
                bounding_rect: Some(BoundingRect { left: x, top: 0, right: x + 5, bottom: 9 }),
                confidence_bits: 90.0f32.to_bits(),
                is_at_beginning_of_para: x == 0,
                end_line: x == 10,
                end_para: x == 10,
            };
            (e, Some(vec![w("left", 0), w("right", 10)]))
        },
    );
    match words {
        Some(HostValue::List(items)) => {
            assert_eq!(items.len(), 2);
            for (item, expected) in items.iter().zip(["left", "right"]) {
                match item {
                    HostValue::Object(HostClass::DetectedWord, args) => {
                        assert!(matches!(&args[0], HostValue::Str(s) if s == expected));
                    }
                    other => panic!("expected detected word, got {:?}", other),
                }
            }
        }
        other => panic!("expected list, got {:?}", other),
    }
}
