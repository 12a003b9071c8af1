//! Converting native result trees into the object graphs the host builds.
//!
//! A `HostValue` describes, bottom-up, the objects the host constructs: each
//! `Object` lists its constructor arguments in order, and each `List` its
//! elements in order. The host builds the whole graph or nothing.
use vstd::prelude::*;
use crate::ocr::DetectedWord;

verus! {

/// One gloss of a sense: its text lines in order.
#[derive(Clone, Debug)]
pub struct Gloss {
    pub gloss_lines: Vec<String>,
}

/// One sense of an entry: its part of speech and its glosses in order.
#[derive(Clone, Debug)]
pub struct Sense {
    pub pos: String,
    pub glosses: Vec<Gloss>,
}

/// One dictionary entry: its senses in order.
#[derive(Clone, Debug)]
pub struct WordEntryComplete {
    pub senses: Vec<Sense>,
}

/// A looked-up word with its entries, optional pronunciation, hyphenations
/// and redirects.
#[derive(Clone, Debug)]
pub struct WordWithTaggedEntries {
    pub word: String,
    pub tag: i32,
    pub entries: Vec<WordEntryComplete>,
    pub sounds: Option<String>,
    pub hyphenations: Vec<String>,
    pub redirects: Vec<String>,
}

/// The host classes that marshaled objects are instances of.
#[derive(Clone, Copy, Debug, PartialEq, Eq)]
pub enum HostClass {
    Gloss,
    Sense,
    WordEntryComplete,
    WordWithTaggedEntries,
    DetectedWord,
}

/// The path of each class in the host runtime.
pub open spec fn host_class_path(c: HostClass) -> Seq<char> {
    match c {
        HostClass::Gloss => "dev/davidv/translator/Gloss"@,
        HostClass::Sense => "dev/davidv/translator/Sense"@,
        HostClass::WordEntryComplete => "dev/davidv/translator/WordEntryComplete"@,
        HostClass::WordWithTaggedEntries => "dev/davidv/translator/WordWithTaggedEntries"@,
        HostClass::DetectedWord => "dev/davidv/translator/DetectedWord"@,
    }
}

/// The signature of the constructor that marshaling calls on each class.
pub open spec fn host_constructor_signature(c: HostClass) -> Seq<char> {
    match c {
        HostClass::Gloss => "(Ljava/util/List;)V"@,
        HostClass::Sense => "(Ljava/lang/String;Ljava/util/List;)V"@,
        HostClass::WordEntryComplete => "(Ljava/util/List;)V"@,
        HostClass::WordWithTaggedEntries => "(Ljava/lang/String;ILjava/util/List;Ljava/lang/String;Ljava/util/List;Ljava/util/List;)V"@,
        HostClass::DetectedWord => "(Ljava/lang/String;IIIIFZZZ)V"@,
    }
}

impl HostClass {
    /// The class's path in the host runtime.
    pub fn class_path(&self) -> (r: &'static str)
        ensures
            r@ == host_class_path(*self),
    {
        match self {
            HostClass::Gloss => {
                proof {
                    reveal_strlit("dev/davidv/translator/Gloss");
                }
                "dev/davidv/translator/Gloss"
            },
            HostClass::Sense => {
                proof {
                    reveal_strlit("dev/davidv/translator/Sense");
                }
                "dev/davidv/translator/Sense"
            },
            HostClass::WordEntryComplete => {
                proof {
                    reveal_strlit("dev/davidv/translator/WordEntryComplete");
                }
                "dev/davidv/translator/WordEntryComplete"
            },
            HostClass::WordWithTaggedEntries => {
                proof {
                    reveal_strlit("dev/davidv/translator/WordWithTaggedEntries");
                }
                "dev/davidv/translator/WordWithTaggedEntries"
            },
            HostClass::DetectedWord => {
                proof {
                    reveal_strlit("dev/davidv/translator/DetectedWord");
                }
                "dev/davidv/translator/DetectedWord"
            },
        }
    }

    /// The signature of the constructor that marshaling calls.
    pub fn constructor_signature(&self) -> (r: &'static str)
        ensures
            r@ == host_constructor_signature(*self),
    {
        match self {
            HostClass::Gloss => {
                proof {
                    reveal_strlit("(Ljava/util/List;)V");
                }
                "(Ljava/util/List;)V"
            },
            HostClass::Sense => {
                proof {
                    reveal_strlit("(Ljava/lang/String;Ljava/util/List;)V");
                }
                "(Ljava/lang/String;Ljava/util/List;)V"
            },
            HostClass::WordEntryComplete => {
                proof {
                    reveal_strlit("(Ljava/util/List;)V");
                }
                "(Ljava/util/List;)V"
            },
            HostClass::WordWithTaggedEntries => {
                proof {
                    reveal_strlit("(Ljava/lang/String;ILjava/util/List;Ljava/lang/String;Ljava/util/List;Ljava/util/List;)V");
                }
                "(Ljava/lang/String;ILjava/util/List;Ljava/lang/String;Ljava/util/List;Ljava/util/List;)V"
            },
            HostClass::DetectedWord => {
                proof {
                    reveal_strlit("(Ljava/lang/String;IIIIFZZZ)V");
                }
                "(Ljava/lang/String;IIIIFZZZ)V"
            },
        }
    }
}

/// A value for the host to construct.
#[derive(Debug)]
pub enum HostValue {
    Null,
    Str(String),
    Int(i32),
    Bool(bool),
    /// A 32-bit float, as its bit pattern.
    FloatBits(u32),
    /// A list, its elements in order.
    List(Vec<HostValue>),
    /// An instance of a class, its constructor arguments in order.
    Object(HostClass, Vec<HostValue>),
}

/// `v` is a host list of exactly the strings `s`, in order.
pub open spec fn is_string_list(v: HostValue, s: Seq<String>) -> bool {
    match v {
        HostValue::List(items) => items@.len() == s.len() && forall|i: int|
            0 <= i < s.len() ==> #[trigger] items@[i] == HostValue::Str(s[i]),
        _ => false,
    }
}

/// `v` is the host object for gloss `g`.
pub open spec fn is_gloss_value(v: HostValue, g: Gloss) -> bool {
    match v {
        HostValue::Object(c, args) => c == HostClass::Gloss && args@.len() == 1 && is_string_list(
            args@[0],
            g.gloss_lines@,
        ),
        _ => false,
    }
}

/// `v` is the host object for sense `s`.
pub open spec fn is_sense_value(v: HostValue, s: Sense) -> bool {
    match v {
        HostValue::Object(c, args) => c == HostClass::Sense && args@.len() == 2 && args@[0]
            == HostValue::Str(s.pos) && match args@[1] {
            HostValue::List(items) => items@.len() == s.glosses@.len() && forall|i: int|
                0 <= i < items@.len() ==> is_gloss_value(#[trigger] items@[i], s.glosses@[i]),
            _ => false,
        },
        _ => false,
    }
}

/// `v` is the host object for entry `e`.
pub open spec fn is_entry_value(v: HostValue, e: WordEntryComplete) -> bool {
    match v {
        HostValue::Object(c, args) => c == HostClass::WordEntryComplete && args@.len() == 1
            && match args@[0] {
            HostValue::List(items) => items@.len() == e.senses@.len() && forall|i: int|
                0 <= i < items@.len() ==> is_sense_value(#[trigger] items@[i], e.senses@[i]),
            _ => false,
        },
        _ => false,
    }
}

/// `v` is the host value of an optional text: the text, or null when absent.
pub open spec fn is_optional_text(v: HostValue, s: Option<String>) -> bool {
    match s {
        Some(t) => v == HostValue::Str(t),
        None => v == HostValue::Null,
    }
}

/// `v` is the host object for looked-up word `w`.
pub open spec fn is_word_value(v: HostValue, w: WordWithTaggedEntries) -> bool {
    match v {
        HostValue::Object(c, args) => c == HostClass::WordWithTaggedEntries && args@.len() == 6
            && args@[0] == HostValue::Str(w.word) && args@[1] == HostValue::Int(w.tag)
            && match args@[2] {
            HostValue::List(items) => items@.len() == w.entries@.len() && forall|i: int|
                0 <= i < items@.len() ==> is_entry_value(#[trigger] items@[i], w.entries@[i]),
            _ => false,
        } && is_optional_text(args@[3], w.sounds) && is_string_list(args@[4], w.hyphenations@)
            && is_string_list(args@[5], w.redirects@),
        _ => false,
    }
}

/// `v` is the host object for detected word `w`.
pub open spec fn is_detected_word_value(v: HostValue, w: DetectedWord) -> bool {
    match v {
        HostValue::Object(c, args) => c == HostClass::DetectedWord && args@ == seq![
            HostValue::Str(w.text),
            HostValue::Int(w.bounding_rect.left),
            HostValue::Int(w.bounding_rect.top),
            HostValue::Int(w.bounding_rect.right),
            HostValue::Int(w.bounding_rect.bottom),
            HostValue::FloatBits(w.confidence_bits),
            HostValue::Bool(w.is_at_beginning_of_para),
            HostValue::Bool(w.end_line),
            HostValue::Bool(w.end_para),
        ],
        _ => false,
    }
}

/// `v` is a host list of the objects for `words`, in order.
pub open spec fn is_detected_list(v: HostValue, words: Seq<DetectedWord>) -> bool {
    match v {
        HostValue::List(items) => items@.len() == words.len() && forall|i: int|
            0 <= i < words.len() ==> is_detected_word_value(#[trigger] items@[i], words[i]),
        _ => false,
    }
}

/// A host list of copies of `strings`, in order.
pub fn create_string_list(strings: &Vec<String>) -> (r: HostValue)
    ensures
        is_string_list(r, strings@),
{
    let mut items: Vec<HostValue> = Vec::new();
    let mut i: usize = 0;
    while i < strings.len()
        invariant
            i <= strings.len(),
            items@.len() == i,
            forall|j: int| 0 <= j < i ==> #[trigger] items@[j] == HostValue::Str(strings@[j]),
        decreases strings.len() - i,
    {
        items.push(HostValue::Str(strings[i].clone()));
        i += 1;
    }
    HostValue::List(items)
}

/// The host object for `gloss`.
pub fn create_gloss_jobject(gloss: &Gloss) -> (r: HostValue)
    ensures
        is_gloss_value(r, *gloss),
{
    let mut args: Vec<HostValue> = Vec::new();
    args.push(create_string_list(&gloss.gloss_lines));
    HostValue::Object(HostClass::Gloss, args)
}

/// The host object for `sense`.
pub fn create_sense_jobject(sense: &Sense) -> (r: HostValue)
    ensures
        is_sense_value(r, *sense),
{
    let mut items: Vec<HostValue> = Vec::new();
    let mut i: usize = 0;
    while i < sense.glosses.len()
        invariant
            i <= sense.glosses.len(),
            items@.len() == i,
            forall|j: int| 0 <= j < i ==> is_gloss_value(#[trigger] items@[j], sense.glosses@[j]),
        decreases sense.glosses.len() - i,
    {
        items.push(create_gloss_jobject(&sense.glosses[i]));
        i += 1;
    }
    let mut args: Vec<HostValue> = Vec::new();
    args.push(HostValue::Str(sense.pos.clone()));
    args.push(HostValue::List(items));
    HostValue::Object(HostClass::Sense, args)
}

/// The host object for `entry`.
pub fn create_word_entry_complete_jobject(entry: &WordEntryComplete) -> (r: HostValue)
    ensures
        is_entry_value(r, *entry),
{
    let mut items: Vec<HostValue> = Vec::new();
    let mut i: usize = 0;
    while i < entry.senses.len()
        invariant
            i <= entry.senses.len(),
            items@.len() == i,
            forall|j: int| 0 <= j < i ==> is_sense_value(#[trigger] items@[j], entry.senses@[j]),
        decreases entry.senses.len() - i,
    {
        items.push(create_sense_jobject(&entry.senses[i]));
        i += 1;
    }
    let mut args: Vec<HostValue> = Vec::new();
    args.push(HostValue::List(items));
    HostValue::Object(HostClass::WordEntryComplete, args)
}

/// The host object for `word`; an absent pronunciation becomes null.
pub fn create_word_with_tagged_entries_jobject(word: &WordWithTaggedEntries) -> (r: HostValue)
    ensures
        is_word_value(r, *word),
{
    let mut entries: Vec<HostValue> = Vec::new();
    let mut i: usize = 0;
    while i < word.entries.len()
        invariant
            i <= word.entries.len(),
            entries@.len() == i,
            forall|j: int|
                0 <= j < i ==> is_entry_value(#[trigger] entries@[j], word.entries@[j]),
        decreases word.entries.len() - i,
    {
        entries.push(create_word_entry_complete_jobject(&word.entries[i]));
        i += 1;
    }
    let sounds = match &word.sounds {
        Some(s) => HostValue::Str(s.clone()),
        None => HostValue::Null,
    };
    let mut args: Vec<HostValue> = Vec::new();
    args.push(HostValue::Str(word.word.clone()));
    args.push(HostValue::Int(word.tag));
    args.push(HostValue::List(entries));
    args.push(sounds);
    args.push(create_string_list(&word.hyphenations));
    args.push(create_string_list(&word.redirects));
    HostValue::Object(HostClass::WordWithTaggedEntries, args)
}

/// The host object for a detected word.
pub fn create_detected_word_jobject(word: &DetectedWord) -> (r: HostValue)
    ensures
        is_detected_word_value(r, *word),
{
    let mut args: Vec<HostValue> = Vec::new();
    args.push(HostValue::Str(word.text.clone()));
    args.push(HostValue::Int(word.bounding_rect.left));
    args.push(HostValue::Int(word.bounding_rect.top));
    args.push(HostValue::Int(word.bounding_rect.right));
    args.push(HostValue::Int(word.bounding_rect.bottom));
    args.push(HostValue::FloatBits(word.confidence_bits));
    args.push(HostValue::Bool(word.is_at_beginning_of_para));
    args.push(HostValue::Bool(word.end_line));
    args.push(HostValue::Bool(word.end_para));
    assert(args@ =~= seq![
        HostValue::Str(word.text),
        HostValue::Int(word.bounding_rect.left),
        HostValue::Int(word.bounding_rect.top),
        HostValue::Int(word.bounding_rect.right),
        HostValue::Int(word.bounding_rect.bottom),
        HostValue::FloatBits(word.confidence_bits),
        HostValue::Bool(word.is_at_beginning_of_para),
        HostValue::Bool(word.end_line),
        HostValue::Bool(word.end_para),
    ]);
    HostValue::Object(HostClass::DetectedWord, args)
}

/// A host list of the objects for `words`, in order.
pub fn create_detected_word_list(words: &Vec<DetectedWord>) -> (r: HostValue)
    ensures
        is_detected_list(r, words@),
{
    let mut items: Vec<HostValue> = Vec::new();
    let mut i: usize = 0;
    while i < words.len()
        invariant
            i <= words.len(),
            items@.len() == i,
            forall|j: int|
                0 <= j < i ==> is_detected_word_value(#[trigger] items@[j], words@[j]),
        decreases words.len() - i,
    {
        items.push(create_detected_word_jobject(&words[i]));
        i += 1;
    }
    HostValue::List(items)
}

/// The text of a host string, empty for anything else.
pub open spec fn host_text(v: HostValue) -> Seq<char> {
    match v {
        HostValue::Str(s) => s@,
        _ => Seq::empty(),
    }
}

/// The elements of a host list, none for anything else.
pub open spec fn host_items(v: HostValue) -> Seq<HostValue> {
    match v {
        HostValue::List(items) => items@,
        _ => Seq::empty(),
    }
}

/// The constructor arguments of a host object, none for anything else.
pub open spec fn host_args(v: HostValue) -> Seq<HostValue> {
    match v {
        HostValue::Object(_, args) => args@,
        _ => Seq::empty(),
    }
}

/// The texts of a host list of strings, in order.
pub open spec fn host_texts(v: HostValue) -> Seq<Seq<char>> {
    host_items(v).map_values(|x: HostValue| host_text(x))
}

/// What a host gloss object reads back as: its lines.
pub open spec fn gloss_read_back(v: HostValue) -> Seq<Seq<char>> {
    host_texts(host_args(v)[0])
}

/// What a host sense object reads back as: its part of speech and the lines
/// of each gloss.
pub open spec fn sense_read_back(v: HostValue) -> (Seq<char>, Seq<Seq<Seq<char>>>) {
    (
        host_text(host_args(v)[0]),
        host_items(host_args(v)[1]).map_values(|g: HostValue| gloss_read_back(g)),
    )
}

/// What a host entry object reads back as: each sense in turn.
pub open spec fn entry_read_back(v: HostValue) -> Seq<(Seq<char>, Seq<Seq<Seq<char>>>)> {
    host_items(host_args(v)[0]).map_values(|s: HostValue| sense_read_back(s))
}

/// The lines of a gloss as text.
pub open spec fn gloss_shape(g: Gloss) -> Seq<Seq<char>> {
    g.gloss_lines@.map_values(|l: String| l@)
}

/// A sense's part of speech and the lines of each of its glosses.
pub open spec fn sense_shape(s: Sense) -> (Seq<char>, Seq<Seq<Seq<char>>>) {
    (s.pos@, s.glosses@.map_values(|g: Gloss| gloss_shape(g)))
}

/// Each sense of an entry in turn.
pub open spec fn entry_shape(e: WordEntryComplete) -> Seq<(Seq<char>, Seq<Seq<Seq<char>>>)> {
    e.senses@.map_values(|s: Sense| sense_shape(s))
}

proof fn lemma_string_list_read_back(v: HostValue, s: Seq<String>)
    requires
        is_string_list(v, s),
    ensures
        host_texts(v) == s.map_values(|l: String| l@),
{
    assert(host_texts(v) =~= s.map_values(|l: String| l@));
}

proof fn lemma_gloss_read_back(v: HostValue, g: Gloss)
    requires
        is_gloss_value(v, g),
    ensures
        gloss_read_back(v) == gloss_shape(g),
{
    lemma_string_list_read_back(host_args(v)[0], g.gloss_lines@);
}

proof fn lemma_sense_read_back(v: HostValue, s: Sense)
    requires
        is_sense_value(v, s),
    ensures
        sense_read_back(v) == sense_shape(s),
{
    let items = host_items(host_args(v)[1]);
    assert forall|i: int| 0 <= i < items.len() implies gloss_read_back(items[i]) == gloss_shape(
        s.glosses@[i],
    ) by {
        lemma_gloss_read_back(items[i], s.glosses@[i]);
    }
    assert(items.map_values(|g: HostValue| gloss_read_back(g)) =~= s.glosses@.map_values(
        |g: Gloss| gloss_shape(g),
    ));
}

/// Marshaling keeps the structure of an entry: reading the host object back
/// gives its senses, each sense's glosses and each gloss's lines, in the
/// entry's order and with the entry's counts.
pub proof fn lemma_entry_round_trip(v: HostValue, e: WordEntryComplete)
    requires
        is_entry_value(v, e),
    ensures
        entry_read_back(v) == entry_shape(e),
        entry_read_back(v).len() == e.senses@.len(),
        forall|i: int|
            0 <= i < e.senses@.len() ==> (#[trigger] entry_read_back(v)[i]).1.len()
                == e.senses@[i].glosses@.len(),
        forall|i: int, j: int|
            0 <= i < e.senses@.len() && 0 <= j < e.senses@[i].glosses@.len() ==> (
            #[trigger] entry_read_back(v)[i].1[j]).len() == e.senses@[i].glosses@[j].gloss_lines@.len(),
{
    let items = host_items(host_args(v)[0]);
    assert forall|i: int| 0 <= i < items.len() implies sense_read_back(items[i]) == sense_shape(
        e.senses@[i],
    ) by {
        lemma_sense_read_back(items[i], e.senses@[i]);
    }
    assert(entry_read_back(v) =~= entry_shape(e));
}

/// Marshaling keeps a word's entries, hyphenations and redirects in order.
pub proof fn lemma_word_round_trip(v: HostValue, w: WordWithTaggedEntries)
    requires
        is_word_value(v, w),
    ensures
        host_text(host_args(v)[0]) == w.word@,
        host_items(host_args(v)[2]).len() == w.entries@.len(),
        forall|i: int|
            0 <= i < w.entries@.len() ==> entry_read_back(#[trigger] host_items(host_args(v)[2])[i])
                == entry_shape(w.entries@[i]),
        host_texts(host_args(v)[4]) == w.hyphenations@.map_values(|l: String| l@),
        host_texts(host_args(v)[5]) == w.redirects@.map_values(|l: String| l@),
{
    let items = host_items(host_args(v)[2]);
    assert forall|i: int| 0 <= i < w.entries@.len() implies entry_read_back(#[trigger] items[i])
        == entry_shape(w.entries@[i]) by {
        lemma_entry_round_trip(items[i], w.entries@[i]);
    }
    lemma_string_list_read_back(host_args(v)[4], w.hyphenations@);
    lemma_string_list_read_back(host_args(v)[5], w.redirects@);
}

} // verus!
