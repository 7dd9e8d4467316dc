use vstd::prelude::*;

verus! {

/// What a `WordEntry` holds: its four fields, in order.
pub struct EntryView {
    pub conlang_word: Seq<char>,
    pub origlang_word: Seq<char>,
    pub part_of_speech: Seq<char>,
    pub definition: Seq<char>,
}

/// A vocabulary record: a word of the constructed language, the word of the
/// original language, its part of speech and its definition.
#[derive(Clone, Debug, PartialEq, Eq)]
pub struct WordEntry {
    pub conlang_word: String,
    pub origlang_word: String,
    pub part_of_speech: String,
    pub definition: String,
}

impl View for WordEntry {
    type V = EntryView;

    open spec fn view(&self) -> EntryView {
        EntryView {
            conlang_word: self.conlang_word@,
            origlang_word: self.origlang_word@,
            part_of_speech: self.part_of_speech@,
            definition: self.definition@,
        }
    }
}

/// The view of each entry of a list, in order.
pub open spec fn entries_view(v: Seq<WordEntry>) -> Seq<EntryView> {
    v.map_values(|e: WordEntry| e@)
}

impl WordEntry {
    pub fn new(
        conlang_word: String,
        origlang_word: String,
        part_of_speech: String,
        definition: String,
    ) -> (r: WordEntry)
        ensures
            r.conlang_word == conlang_word,
            r.origlang_word == origlang_word,
            r.part_of_speech == part_of_speech,
            r.definition == definition,
    {
        WordEntry { conlang_word, origlang_word, part_of_speech, definition }
    }

    pub fn new_str(
        conlang_word: &str,
        origlang_word: &str,
        part_of_speech: &str,
        definition: &str,
    ) -> (r: WordEntry)
        ensures
            r@ == (EntryView {
                conlang_word: conlang_word@,
                origlang_word: origlang_word@,
                part_of_speech: part_of_speech@,
                definition: definition@,
            }),
    {
        WordEntry {
            conlang_word: conlang_word.to_string(),
            origlang_word: origlang_word.to_string(),
            part_of_speech: part_of_speech.to_string(),
            definition: definition.to_string(),
        }
    }
}

} // verus!
