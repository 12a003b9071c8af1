//! The operations behind the host's entry points, on registries of live
//! sessions. Every operation on a handle that names no live session (in
//! particular `0`) returns its sentinel and changes nothing. The `*_at`
//! operations take a registry that owns its sessions; a host that locks each
//! session on its own looks the session up and calls its methods instead.
use vstd::prelude::*;
use crate::handle::HandleRegistry;
use crate::marshal::{
    create_detected_word_list,
    create_word_with_tagged_entries_jobject,
    is_detected_list,
    is_word_value,
    HostValue,
    WordWithTaggedEntries,
};
use crate::ocr::{
    detected_words,
    mode_of_code,
    page_seg_mode_from_code,
    PageSegMode,
    RawWord,
    TesseractWrapper,
};

verus! {

/// What a transliteration request comes to.
#[derive(Debug, PartialEq, Eq)]
pub enum TransliterationStep {
    /// The handle names no live dictionary, or the host text could not be
    /// read: the host gets null.
    Null,
    /// The text is empty, and so is its transliteration.
    Empty,
    /// Transliterate this text with the dictionary behind the handle.
    Run(String),
}

/// Decides what a transliteration request on handle `h` does with `text`
/// (`None` when the host text could not be read).
pub fn plan_transliteration<D>(dicts: &HandleRegistry<D>, h: i64, text: Option<String>) -> (r:
    TransliterationStep)
    ensures
        !dicts@.contains_key(h) ==> r is Null,
        dicts@.contains_key(h) && text is None ==> r is Null,
        dicts@.contains_key(h) && text is Some && text->Some_0@.len() == 0 ==> r is Empty,
        dicts@.contains_key(h) && text is Some && text->Some_0@.len() > 0 ==> r
            == TransliterationStep::Run(text->Some_0),
{
    if !dicts.is_open(h) {
        return TransliterationStep::Null;
    }
    match text {
        None => TransliterationStep::Null,
        Some(t) => if t.as_str().is_empty() {
            TransliterationStep::Empty
        } else {
            TransliterationStep::Run(t)
        },
    }
}

/// The host value of a dictionary lookup: the marshaled word when one was
/// found, `None` both when nothing was found and when the lookup failed.
pub fn lookup_result<X>(outcome: Result<Option<WordWithTaggedEntries>, X>) -> (r: Option<HostValue>)
    ensures
        match outcome {
            Ok(Some(w)) => r is Some && is_word_value(r->Some_0, w),
            _ => r is None,
        },
{
    match outcome {
        Ok(Some(w)) => Some(create_word_with_tagged_entries_jobject(&w)),
        _ => None,
    }
}

/// Feeds a frame to the session behind `h` through `feed`; returns `1` on
/// success and `0` when `h` names no live session, the session has lost its
/// engine, or `feed` failed (which loses the engine).
pub fn set_frame_at<E, X, F: FnOnce(E) -> Result<E, X>>(
    sessions: &mut HandleRegistry<TesseractWrapper<E>>,
    h: i64,
    feed: F,
) -> (r: i32)
    requires
        forall|e: E| feed.requires((e,)),
    ensures
        !old(sessions)@.contains_key(h) ==> r == 0 && final(sessions)@ == old(sessions)@,
        final(sessions).layout() == old(sessions).layout(),
        old(sessions)@.contains_key(h) ==> {
            let before = old(sessions)@[h].engine();
            let after = final(sessions)@[h].engine();
            &&& final(sessions)@ == old(sessions)@.insert(h, final(sessions)@[h])
            &&& before is None ==> r == 0 && after is None
            &&& before is Some ==> exists|out: Result<E, X>|
                #![trigger feed.ensures((before->Some_0,), out)]
                feed.ensures((before->Some_0,), out) && match out {
                    Ok(n) => r == 1 && after == Some(n),
                    Err(_) => r == 0 && after is None,
                }
        },
{
    match sessions.get_mut(h) {
        None => 0,
        Some(session) => match session.set_frame(feed) {
            Ok(()) => 1,
            Err(_) => 0,
        },
    }
}

/// Sets the segmentation mode that host code `code` selects on the session
/// behind `h`, through `apply`; a no-op when `h` names no live session or
/// the session has lost its engine.
pub fn set_page_seg_mode_at<E, F: FnOnce(E, PageSegMode) -> E>(
    sessions: &mut HandleRegistry<TesseractWrapper<E>>,
    h: i64,
    code: i32,
    apply: F,
)
    requires
        forall|e: E| apply.requires((e, mode_of_code(code as int))),
    ensures
        !old(sessions)@.contains_key(h) ==> final(sessions)@ == old(sessions)@,
        final(sessions).layout() == old(sessions).layout(),
        old(sessions)@.contains_key(h) ==> {
            let before = old(sessions)@[h].engine();
            let after = final(sessions)@[h].engine();
            &&& final(sessions)@ == old(sessions)@.insert(h, final(sessions)@[h])
            &&& before is None ==> after is None
            &&& before is Some ==> after is Some && apply.ensures(
                (before->Some_0, mode_of_code(code as int)),
                after->Some_0,
            )
        },
{
    match sessions.get_mut(h) {
        None => {},
        Some(session) => {
            let mode = page_seg_mode_from_code(code);
            session.set_page_seg_mode(mode, apply);
        },
    }
}

/// Recognizes the frame of the session behind `h` and marshals the words
/// found into a host list. `None` when `h` names no live session, the
/// session has lost its engine, or recognition failed (which loses the
/// engine); an empty list when the engine offers no word stream.
pub fn get_word_boxes_at<
    E,
    X,
    R: FnOnce(E) -> Result<E, X>,
    W: FnOnce(E) -> (E, Option<Vec<RawWord>>),
>(sessions: &mut HandleRegistry<TesseractWrapper<E>>, h: i64, recognize: R, read_words: W) -> (r:
    Option<HostValue>)
    requires
        forall|e: E| recognize.requires((e,)),
        forall|n: E| read_words.requires((n,)),
    ensures
        !old(sessions)@.contains_key(h) ==> r is None && final(sessions)@ == old(sessions)@,
        final(sessions).layout() == old(sessions).layout(),
        old(sessions)@.contains_key(h) ==> {
            let before = old(sessions)@[h].engine();
            let after = final(sessions)@[h].engine();
            &&& final(sessions)@ == old(sessions)@.insert(h, final(sessions)@[h])
            &&& before is None ==> r is None && after is None
            &&& before is Some ==> exists|out: Result<E, X>|
                #![trigger recognize.ensures((before->Some_0,), out)]
                recognize.ensures((before->Some_0,), out) && match out {
                    Err(_) => r is None && after is None,
                    Ok(n) => exists|read: (E, Option<Vec<RawWord>>)|
                        #![trigger read_words.ensures((n,), read)]
                        read_words.ensures((n,), read) && after == Some(read.0) && r is Some
                            && is_detected_list(
                            r->Some_0,
                            match read.1 {
                                Some(raw) => detected_words(raw@),
                                None => Seq::empty(),
                            },
                        ),
                }
        },
{
    match sessions.get_mut(h) {
        None => None,
        Some(session) => match session.get_word_boxes(recognize, read_words) {
            Ok(words) => Some(create_detected_word_list(&words)),
            Err(_) => None,
        },
    }
}

} // verus!
