//! The OCR session: an engine slot that is emptied for the duration of each
//! consuming call and refilled with what the call hands back.
//!
//! The engine itself is a move-only value of the caller's choosing; each
//! consuming step (feeding a frame, recognizing) is passed in as a function
//! from the old engine to the new one.
use vstd::prelude::*;

verus! {

/// How the engine partitions an image into text regions before recognition.
#[derive(Clone, Copy, Debug, PartialEq, Eq)]
pub enum PageSegMode {
    PsmOsdOnly,
    PsmAutoOsd,
    PsmAutoOnly,
    PsmAuto,
    PsmSingleColumn,
    PsmSingleBlockVertText,
    PsmSingleBlock,
    PsmSingleLine,
    PsmSingleWord,
    PsmCircleWord,
    PsmSingleChar,
    PsmSparseText,
    PsmSparseTextOsd,
    PsmRawLine,
}

/// The host's integer code of each mode.
pub open spec fn mode_code(m: PageSegMode) -> int {
    match m {
        PageSegMode::PsmOsdOnly => 0,
        PageSegMode::PsmAutoOsd => 1,
        PageSegMode::PsmAutoOnly => 2,
        PageSegMode::PsmAuto => 3,
        PageSegMode::PsmSingleColumn => 4,
        PageSegMode::PsmSingleBlockVertText => 5,
        PageSegMode::PsmSingleBlock => 6,
        PageSegMode::PsmSingleLine => 7,
        PageSegMode::PsmSingleWord => 8,
        PageSegMode::PsmCircleWord => 9,
        PageSegMode::PsmSingleChar => 10,
        PageSegMode::PsmSparseText => 11,
        PageSegMode::PsmSparseTextOsd => 12,
        PageSegMode::PsmRawLine => 13,
    }
}

/// The mode that host code `code` selects: the mode with that code, or the
/// automatic mode for a code outside `0..=13`.
pub open spec fn mode_of_code(code: int) -> PageSegMode {
    if code == 0 {
        PageSegMode::PsmOsdOnly
    } else if code == 1 {
        PageSegMode::PsmAutoOsd
    } else if code == 2 {
        PageSegMode::PsmAutoOnly
    } else if code == 4 {
        PageSegMode::PsmSingleColumn
    } else if code == 5 {
        PageSegMode::PsmSingleBlockVertText
    } else if code == 6 {
        PageSegMode::PsmSingleBlock
    } else if code == 7 {
        PageSegMode::PsmSingleLine
    } else if code == 8 {
        PageSegMode::PsmSingleWord
    } else if code == 9 {
        PageSegMode::PsmCircleWord
    } else if code == 10 {
        PageSegMode::PsmSingleChar
    } else if code == 11 {
        PageSegMode::PsmSparseText
    } else if code == 12 {
        PageSegMode::PsmSparseTextOsd
    } else if code == 13 {
        PageSegMode::PsmRawLine
    } else {
        PageSegMode::PsmAuto
    }
}

/// The codes `0..=13` name the fourteen modes one to one.
pub proof fn lemma_mode_codes_one_to_one(m: PageSegMode, code: int)
    ensures
        0 <= mode_code(m) <= 13,
        mode_of_code(mode_code(m)) == m,
        0 <= code <= 13 ==> mode_code(mode_of_code(code)) == code,
{
}

/// The mode with host code `code`; codes outside `0..=13` fall back to the
/// automatic mode.
pub fn page_seg_mode_from_code(code: i32) -> (r: PageSegMode)
    ensures
        r == mode_of_code(code as int),
        0 <= code <= 13 ==> mode_code(r) == code,
        !(0 <= code <= 13) ==> r == PageSegMode::PsmAuto,
{
    match code {
        0 => PageSegMode::PsmOsdOnly,
        1 => PageSegMode::PsmAutoOsd,
        2 => PageSegMode::PsmAutoOnly,
        3 => PageSegMode::PsmAuto,
        4 => PageSegMode::PsmSingleColumn,
        5 => PageSegMode::PsmSingleBlockVertText,
        6 => PageSegMode::PsmSingleBlock,
        7 => PageSegMode::PsmSingleLine,
        8 => PageSegMode::PsmSingleWord,
        9 => PageSegMode::PsmCircleWord,
        10 => PageSegMode::PsmSingleChar,
        11 => PageSegMode::PsmSparseText,
        12 => PageSegMode::PsmSparseTextOsd,
        13 => PageSegMode::PsmRawLine,
        _ => PageSegMode::PsmAuto,
    }
}

/// A word's box in image pixels.
#[derive(Clone, Copy, Debug, PartialEq, Eq)]
pub struct BoundingRect {
    pub left: i32,
    pub top: i32,
    pub right: i32,
    pub bottom: i32,
}

/// One word as the engine's result iterator reports it. The confidence is
/// carried as the bit pattern of the engine's `f32` score.
#[derive(Clone, Debug)]
pub struct RawWord {
    pub text: Option<String>,
    pub bounding_rect: Option<BoundingRect>,
    pub confidence_bits: u32,
    pub is_at_beginning_of_para: bool,
    pub end_line: bool,
    pub end_para: bool,
}

/// A recognized word handed to the host.
#[derive(Clone, Debug)]
pub struct DetectedWord {
    pub text: String,
    pub bounding_rect: BoundingRect,
    pub confidence_bits: u32,
    pub is_at_beginning_of_para: bool,
    pub end_para: bool,
    pub end_line: bool,
}

/// The word that `w` yields: one exists only where both text and box do.
pub open spec fn detected(w: RawWord) -> Option<DetectedWord> {
    if w.text is Some && w.bounding_rect is Some {
        Some(
            DetectedWord {
                text: w.text->Some_0,
                bounding_rect: w.bounding_rect->Some_0,
                confidence_bits: w.confidence_bits,
                is_at_beginning_of_para: w.is_at_beginning_of_para,
                end_para: w.end_para,
                end_line: w.end_line,
            },
        )
    } else {
        None
    }
}

/// The words of `raw` that have both text and a box, in document order.
pub open spec fn detected_words(raw: Seq<RawWord>) -> Seq<DetectedWord>
    decreases raw.len(),
{
    if raw.len() == 0 {
        Seq::empty()
    } else {
        let before = detected_words(raw.drop_last());
        match detected(raw.last()) {
            Some(w) => before.push(w),
            None => before,
        }
    }
}

/// A raw word's boundary flags: beginning of paragraph, end of line, end of
/// paragraph.
pub open spec fn raw_flags(w: RawWord) -> (bool, bool, bool) {
    (w.is_at_beginning_of_para, w.end_line, w.end_para)
}

/// A detected word's boundary flags, in the order of `raw_flags`.
pub open spec fn word_flags(w: DetectedWord) -> (bool, bool, bool) {
    (w.is_at_beginning_of_para, w.end_line, w.end_para)
}

/// Where every word of the stream has text and a box, extraction keeps each
/// word and its boundary flags, in order, so whatever the engine's flags
/// say of paragraphs and lines holds of the result too.
pub proof fn lemma_complete_words_keep_flags(raw: Seq<RawWord>)
    requires
        forall|i: int|
            0 <= i < raw.len() ==> (#[trigger] raw[i]).text is Some && raw[i].bounding_rect is Some,
    ensures
        detected_words(raw).len() == raw.len(),
        forall|i: int|
            0 <= i < raw.len() ==> word_flags(#[trigger] detected_words(raw)[i]) == raw_flags(
                raw[i],
            ),
    decreases raw.len(),
{
    if raw.len() > 0 {
        lemma_complete_words_keep_flags(raw.drop_last());
        assert(raw.last() == raw[raw.len() - 1]);
    }
}

/// Keeps, in order, the words that have both text and a bounding box.
pub fn extract_words(raw: &Vec<RawWord>) -> (r: Vec<DetectedWord>)
    ensures
        r@ == detected_words(raw@),
{
    let mut out: Vec<DetectedWord> = Vec::new();
    let mut i: usize = 0;
    while i < raw.len()
        invariant
            i <= raw.len(),
            out@ == detected_words(raw@.take(i as int)),
        decreases raw.len() - i,
    {
        assert(raw@.take(i + 1).drop_last() =~= raw@.take(i as int));
        assert(raw@.take(i + 1).last() == raw@[i as int]);
        let w = &raw[i];
        match (&w.text, &w.bounding_rect) {
            (Some(text), Some(rect)) => {
                out.push(
                    DetectedWord {
                        text: text.clone(),
                        bounding_rect: *rect,
                        confidence_bits: w.confidence_bits,
                        is_at_beginning_of_para: w.is_at_beginning_of_para,
                        end_para: w.end_para,
                        end_line: w.end_line,
                    },
                );
            },
            _ => {},
        }
        i += 1;
    }
    assert(raw@.take(raw.len() as int) =~= raw@);
    out
}

/// Why a session operation produced no result.
#[derive(Debug)]
pub enum SessionError<X> {
    /// The engine was lost by an earlier failed step; the session must be
    /// recreated.
    EngineAbsent,
    /// The engine reported this failure; the engine is gone with it.
    Engine(X),
}

/// What feeding a frame does to the engine slot: with no engine it fails
/// with `EngineAbsent`; otherwise `feed` gets the engine, and its new engine
/// fills the slot, or its failure is returned and the slot stays empty.
pub open spec fn set_frame_post<E, X, F: FnOnce(E) -> Result<E, X>>(
    before: Option<E>,
    feed: F,
    r: Result<(), SessionError<X>>,
    after: Option<E>,
) -> bool {
    match before {
        None => r is Err && r->Err_0 is EngineAbsent && after is None,
        Some(e) => exists|out: Result<E, X>|
            #![trigger feed.ensures((e,), out)]
            feed.ensures((e,), out) && match out {
                Ok(n) => r is Ok && after == Some(n),
                Err(x) => r is Err && r->Err_0 == SessionError::<X>::Engine(x) && after is None,
            },
    }
}

/// What recognition does to the engine slot: with no engine it fails with
/// `EngineAbsent`; a failed `recognize` is returned and leaves the slot
/// empty; otherwise `read_words` gets the recognized engine, the engine it
/// hands back fills the slot, and the result is the words it read that have
/// both text and a box, in order.
pub open spec fn word_boxes_post<
    E,
    X,
    R: FnOnce(E) -> Result<E, X>,
    W: FnOnce(E) -> (E, Option<Vec<RawWord>>),
>(
    before: Option<E>,
    recognize: R,
    read_words: W,
    r: Result<Vec<DetectedWord>, SessionError<X>>,
    after: Option<E>,
) -> bool {
    match before {
        None => r is Err && r->Err_0 is EngineAbsent && after is None,
        Some(e) => exists|out: Result<E, X>|
            #![trigger recognize.ensures((e,), out)]
            recognize.ensures((e,), out) && match out {
                Err(x) => r is Err && r->Err_0 == SessionError::<X>::Engine(x) && after is None,
                Ok(n) => exists|read: (E, Option<Vec<RawWord>>)|
                    #![trigger read_words.ensures((n,), read)]
                    read_words.ensures((n,), read) && after == Some(read.0) && r is Ok
                        && r->Ok_0@ == match read.1 {
                        Some(raw) => detected_words(raw@),
                        None => Seq::<DetectedWord>::empty(),
                    },
            },
    }
}

/// A failed frame feed leaves no engine behind, so a later recognition
/// fails cleanly with `EngineAbsent` instead of running on a stale engine,
/// and the session stays without one.
pub proof fn lemma_failed_frame_fails_recognition<
    E,
    X,
    F: FnOnce(E) -> Result<E, X>,
    R: FnOnce(E) -> Result<E, X>,
    W: FnOnce(E) -> (E, Option<Vec<RawWord>>),
>(
    before: Option<E>,
    feed: F,
    fed: Result<(), SessionError<X>>,
    between: Option<E>,
    recognize: R,
    read_words: W,
    words: Result<Vec<DetectedWord>, SessionError<X>>,
    after: Option<E>,
)
    requires
        set_frame_post(before, feed, fed, between),
        fed is Err,
        word_boxes_post(between, recognize, read_words, words, after),
    ensures
        words is Err,
        words->Err_0 is EngineAbsent,
        after is None,
{
}

/// An OCR session whose engine is either present or absent, never partly
/// built.
pub struct TesseractWrapper<E> {
    engine: Option<E>,
}

impl<E> TesseractWrapper<E> {
    /// The engine in the slot, if any.
    pub closed spec fn engine(&self) -> Option<E> {
        self.engine
    }

    /// A session around a freshly constructed engine.
    pub fn new(engine: E) -> (r: Self)
        ensures
            r.engine() == Some(engine),
    {
        TesseractWrapper { engine: Some(engine) }
    }

    /// Whether the engine is present, that is, the session is usable.
    pub fn has_engine(&self) -> (r: bool)
        ensures
            r == self.engine() is Some,
    {
        self.engine.is_some()
    }

    /// Hands the engine to `feed` together with the frame it captured, and
    /// keeps what `feed` returns. When `feed` fails the engine is gone and
    /// every later operation fails with `EngineAbsent`.
    pub fn set_frame<X, F: FnOnce(E) -> Result<E, X>>(&mut self, feed: F) -> (r: Result<
        (),
        SessionError<X>,
    >)
        requires
            old(self).engine() is Some ==> feed.requires((old(self).engine()->Some_0,)),
        ensures
            set_frame_post(old(self).engine(), feed, r, final(self).engine()),
    {
        match self.engine.take() {
            None => Err(SessionError::EngineAbsent),
            Some(engine) => match feed(engine) {
                Ok(n) => {
                    self.engine = Some(n);
                    Ok(())
                },
                Err(x) => Err(SessionError::Engine(x)),
            },
        }
    }

    /// Applies `mode` to a present engine through `apply`; returns whether
    /// there was an engine to apply it to.
    pub fn set_page_seg_mode<F: FnOnce(E, PageSegMode) -> E>(
        &mut self,
        mode: PageSegMode,
        apply: F,
    ) -> (r: bool)
        requires
            old(self).engine() is Some ==> apply.requires((old(self).engine()->Some_0, mode)),
        ensures
            r == old(self).engine() is Some,
            old(self).engine() is None ==> final(self).engine() is None,
            old(self).engine() is Some ==> final(self).engine() is Some && apply.ensures(
                (old(self).engine()->Some_0, mode),
                final(self).engine()->Some_0,
            ),
    {
        match self.engine.take() {
            None => false,
            Some(engine) => {
                self.engine = Some(apply(engine, mode));
                true
            },
        }
    }

    /// Recognizes the current frame with `recognize`, reads the word stream
    /// of the recognized engine with `read_words` (`None` when the engine
    /// offers no result iterator) and keeps, in order, the words that have
    /// both text and a box. The engine is put back afterwards; a failed
    /// recognition loses it.
    pub fn get_word_boxes<
        X,
        R: FnOnce(E) -> Result<E, X>,
        W: FnOnce(E) -> (E, Option<Vec<RawWord>>),
    >(&mut self, recognize: R, read_words: W) -> (r: Result<Vec<DetectedWord>, SessionError<X>>)
        requires
            old(self).engine() is Some ==> recognize.requires((old(self).engine()->Some_0,)),
            forall|n: E| read_words.requires((n,)),
        ensures
            word_boxes_post(old(self).engine(), recognize, read_words, r, final(self).engine()),
    {
        match self.engine.take() {
            None => Err(SessionError::EngineAbsent),
            Some(engine) => match recognize(engine) {
                Err(x) => Err(SessionError::Engine(x)),
                Ok(recognized) => {
                    let (n, raw) = read_words(recognized);
                    self.engine = Some(n);
                    match raw {
                        Some(raw) => Ok(extract_words(&raw)),
                        None => Ok(Vec::new()),
                    }
                },
            },
        }
    }
}

/// A construction setting as the host passes it: empty text means "use the
/// engine's default".
pub fn optional_setting(s: String) -> (r: Option<String>)
    ensures
        s@.len() == 0 ==> r is None,
        s@.len() > 0 ==> r == Some(s),
{
    if s.as_str().is_empty() {
        None
    } else {
        Some(s)
    }
}

} // verus!
