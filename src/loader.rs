use crate::entries::{entries_view, EntryView, WordEntry};
use vstd::prelude::*;

verus! {

/// The message of a schema violation.
pub open spec fn schema_message() -> Seq<char> {
    "must have columns for conlang word, original language word, part of speech, and definition"@
}

/// Why a list could not be read or written.
#[derive(Clone, Debug, PartialEq, Eq)]
pub enum LoadError {
    /// A record has fewer than four fields.
    SchemaViolation,
    /// The delimited syntax is malformed; the parser's own message.
    Syntax { message: String },
    /// The file could not be read or written.
    Io { path: String, message: String },
    /// The writer refused a record.
    Encode { message: String },
}

/// What a `LoadError` holds.
pub enum LoadErrorView {
    SchemaViolation,
    Syntax(Seq<char>),
    Io(Seq<char>, Seq<char>),
    Encode(Seq<char>),
}

impl View for LoadError {
    type V = LoadErrorView;

    open spec fn view(&self) -> LoadErrorView {
        match self {
            LoadError::SchemaViolation => LoadErrorView::SchemaViolation,
            LoadError::Syntax { message } => LoadErrorView::Syntax(message@),
            LoadError::Io { path, message } => LoadErrorView::Io(path@, message@),
            LoadError::Encode { message } => LoadErrorView::Encode(message@),
        }
    }
}

impl LoadError {
    /// The message shown to the user.
    pub fn message(&self) -> (r: String)
        ensures
            r@ == match self@ {
                LoadErrorView::SchemaViolation => schema_message(),
                LoadErrorView::Syntax(m) => m,
                LoadErrorView::Io(_, m) => m,
                LoadErrorView::Encode(m) => m,
            },
    {
        match self {
            LoadError::SchemaViolation => {
                let m = "must have columns for conlang word, original language word, part of speech, and definition";
                proof {
                    reveal_strlit("must have columns for conlang word, original language word, part of speech, and definition");
                }
                m.to_string()
            },
            LoadError::Syntax { message } => message.clone(),
            LoadError::Io { message, .. } => message.clone(),
            LoadError::Encode { message } => message.clone(),
        }
    }
}

/// The fields of a record.
pub open spec fn record_view(r: Vec<String>) -> Seq<Seq<char>> {
    r@.map_values(|f: String| f@)
}

/// The fields of each record, in order.
pub open spec fn records_view(rs: Seq<Vec<String>>) -> Seq<Seq<Seq<char>>> {
    rs.map_values(|r: Vec<String>| record_view(r))
}

/// What csv's reader yields on `data`, when no record is taken as a header:
/// the records read before the first error, and that error's message if one
/// stopped the reading.
pub uninterp spec fn csv_parse(data: Seq<u8>) -> (Seq<Seq<Seq<char>>>, Option<Seq<char>>);

/// The bytes csv's writer produces for one record, terminator included.
pub uninterp spec fn csv_record(fields: Seq<Seq<char>>) -> Seq<u8>;

/// Relies on `csv::Reader` (built with `has_headers(false)`) and its
/// `records` iterator: the fields of each record up to the first error, and
/// the message of that error.
#[verifier::external_body]
fn parse_records(data: &[u8]) -> (r: (Vec<Vec<String>>, Option<String>))
    ensures
        csv_parse(data@) == (records_view(r.0@), match r.1 {
            Some(m) => Some(m@),
            None => None::<Seq<char>>,
        }),
{
    let mut reader = csv::ReaderBuilder::new().has_headers(false).from_reader(data);
    let mut records = Vec::new();
    for record in reader.records() {
        match record {
            Ok(fields) => records.push(fields.iter().map(|f| f.to_string()).collect()),
            Err(e) => return (records, Some(e.to_string())),
        }
    }
    (records, None)
}

/// Relies on `csv::Writer::write_record` and `into_inner` on a new writer
/// into a `Vec`: the bytes of one record. A first record passes the field
/// count check and writing into memory does not fail.
#[verifier::external_body]
fn encode_record(fields: &Vec<String>) -> (r: Result<Vec<u8>, String>)
    ensures
        r is Ok,
        r->Ok_0@ == csv_record(record_view(*fields)),
{
    let mut writer = csv::Writer::from_writer(Vec::new());
    if let Err(e) = writer.write_record(fields) {
        return Err(e.to_string());
    }
    match writer.into_inner() {
        Ok(bytes) => Ok(bytes),
        Err(e) => Err(e.to_string()),
    }
}

/// The entry that the first four fields of a record make.
pub open spec fn entry_of(fields: Seq<Seq<char>>) -> EntryView
    recommends
        fields.len() >= 4,
{
    EntryView {
        conlang_word: fields[0],
        origlang_word: fields[1],
        part_of_speech: fields[2],
        definition: fields[3],
    }
}

/// The four fields of an entry, in order.
pub open spec fn fields_of(e: EntryView) -> Seq<Seq<char>> {
    seq![e.conlang_word, e.origlang_word, e.part_of_speech, e.definition]
}

/// The header row's fields.
pub open spec fn header_fields() -> Seq<Seq<char>> {
    seq!["SYMPHAN WORD"@, "ENGLISH WORD"@, "PoS"@, "DEFINITIONS"@]
}

/// Whether some record after the header has fewer than four fields.
pub open spec fn has_short_record(records: Seq<Seq<Seq<char>>>) -> bool {
    exists|i: int| 1 <= i < records.len() && #[trigger] records[i].len() < 4
}

/// The list that the records make, the first one being the header: a schema
/// violation if a record after the header has fewer than four fields, else
/// the syntax error that stopped the reading, if any, else one entry per record.
pub open spec fn decode_records(records: Seq<Seq<Seq<char>>>, failure: Option<Seq<char>>) -> Result<Seq<EntryView>, LoadErrorView> {
    if has_short_record(records) {
        Err(LoadErrorView::SchemaViolation)
    } else if failure is Some {
        Err(LoadErrorView::Syntax(failure->Some_0))
    } else if records.len() == 0 {
        Ok(Seq::empty())
    } else {
        Ok(records.drop_first().map_values(|r: Seq<Seq<char>>| entry_of(r)))
    }
}

/// The file's contents decoded.
pub open spec fn decode(data: Seq<u8>) -> Result<Seq<EntryView>, LoadErrorView> {
    decode_records(csv_parse(data).0, csv_parse(data).1)
}

/// The header row and one record per entry, in order.
pub open spec fn encode_records(entries: Seq<EntryView>) -> Seq<Seq<Seq<char>>> {
    seq![header_fields()] + entries.map_values(|e: EntryView| fields_of(e))
}

/// The bytes of the records, one after the other.
pub open spec fn concat_records(records: Seq<Seq<Seq<char>>>) -> Seq<u8>
    decreases records.len(),
{
    if records.len() == 0 {
        Seq::empty()
    } else {
        concat_records(records.drop_last()) + csv_record(records.last())
    }
}

/// The bytes of the file that holds the entries.
pub open spec fn encode(entries: Seq<EntryView>) -> Seq<u8> {
    concat_records(encode_records(entries))
}

/// The view of a load result.
pub open spec fn load_result_view(r: Result<Vec<WordEntry>, LoadError>) -> Result<Seq<EntryView>, LoadErrorView> {
    match r {
        Ok(v) => Ok(entries_view(v@)),
        Err(e) => Err(e@),
    }
}

/// Builds the list from the records that the parser read, the first being
/// the header, and the message of the error that stopped it, if any.
pub fn entries_from_records(records: &Vec<Vec<String>>, failure: Option<String>) -> (r: Result<Vec<WordEntry>, LoadError>)
    ensures
        load_result_view(r) == decode_records(records_view(records@), match failure {
            Some(m) => Some(m@),
            None => None::<Seq<char>>,
        }),
{
    let ghost rv = records_view(records@);
    let mut i: usize = 1;
    while i < records.len()
        invariant
            1 <= i,
            rv == records_view(records@),
            forall|k: int| 1 <= k < i && k < records@.len() ==> #[trigger] rv[k].len() >= 4,
        decreases records.len() - i,
    {
        if records[i].len() < 4 {
            assert(rv[i as int].len() < 4);
            return Err(LoadError::SchemaViolation);
        }
        i = i + 1;
    }
    assert(!has_short_record(rv));
    if let Some(message) = failure {
        return Err(LoadError::Syntax { message });
    }
    let mut entries: Vec<WordEntry> = Vec::new();
    let mut i: usize = 1;
    while i < records.len()
        invariant
            1 <= i,
            i <= records.len() || i == 1,
            rv == records_view(records@),
            !has_short_record(rv),
            entries@.len() == i - 1,
            forall|k: int| 0 <= k < entries@.len() ==> #[trigger] entries@[k]@ == entry_of(rv[k + 1]),
        decreases records.len() - i,
    {
        let record = &records[i];
        assert(rv[i as int].len() >= 4);
        let entry = WordEntry::new(record[0].clone(), record[1].clone(), record[2].clone(), record[3].clone());
        entries.push(entry);
        i = i + 1;
    }
    proof {
        if rv.len() > 0 {
            assert(entries_view(entries@) =~= rv.drop_first().map_values(|r: Seq<Seq<char>>| entry_of(r)));
        } else {
            assert(entries_view(entries@) =~= Seq::<EntryView>::empty());
        }
    }
    Ok(entries)
}

/// Decodes the contents of a file: the first record is the header and is
/// discarded; each further record gives one entry from its first four fields.
pub fn read_words(data: &[u8]) -> (r: Result<Vec<WordEntry>, LoadError>)
    ensures
        load_result_view(r) == decode(data@),
{
    let (records, failure) = parse_records(data);
    entries_from_records(&records, failure)
}

proof fn lemma_concat_take(records: Seq<Seq<Seq<char>>>, k: int)
    requires
        0 <= k < records.len(),
    ensures
        concat_records(records.take(k + 1)) == concat_records(records.take(k)) + csv_record(records[k]),
{
    assert(records.take(k + 1).drop_last() =~= records.take(k));
}

fn four_fields(a: &String, b: &String, c: &String, d: &String) -> (r: Vec<String>)
    ensures
        record_view(r) == seq![a@, b@, c@, d@],
{
    let mut r: Vec<String> = Vec::new();
    r.push(a.clone());
    r.push(b.clone());
    r.push(c.clone());
    r.push(d.clone());
    assert(record_view(r) =~= seq![a@, b@, c@, d@]);
    r
}

/// Encodes the list: the fixed header row, then one record per entry, in
/// order.
pub fn write_words(words: &Vec<WordEntry>) -> (r: Result<Vec<u8>, LoadError>)
    ensures
        r is Ok,
        r->Ok_0@ == encode(entries_view(words@)),
{
    let ghost recs = encode_records(entries_view(words@));
    let h0 = "SYMPHAN WORD".to_string();
    let h1 = "ENGLISH WORD".to_string();
    let h2 = "PoS".to_string();
    let h3 = "DEFINITIONS".to_string();
    let header = four_fields(&h0, &h1, &h2, &h3);
    proof {
        reveal_strlit("SYMPHAN WORD");
        reveal_strlit("ENGLISH WORD");
        reveal_strlit("PoS");
        reveal_strlit("DEFINITIONS");
        assert(record_view(header) =~= header_fields());
    }
    let mut out = match encode_record(&header) {
        Ok(bytes) => bytes,
        Err(message) => return Err(LoadError::Encode { message }),
    };
    proof {
        lemma_concat_take(recs, 0);
        assert(recs.take(0) =~= Seq::<Seq<Seq<char>>>::empty());
        assert(out@ =~= concat_records(recs.take(1)));
    }
    let mut i: usize = 0;
    while i < words.len()
        invariant
            i <= words@.len(),
            recs == encode_records(entries_view(words@)),
            recs.len() == words@.len() + 1,
            out@ == concat_records(recs.take(i + 1)),
        decreases words.len() - i,
    {
        let w = &words[i];
        let fields = four_fields(&w.conlang_word, &w.origlang_word, &w.part_of_speech, &w.definition);
        let mut bytes = match encode_record(&fields) {
            Ok(bytes) => bytes,
            Err(message) => return Err(LoadError::Encode { message }),
        };
        proof {
            assert(recs[i + 1] == fields_of(words@[i as int]@));
            assert(record_view(fields) =~= recs[i + 1]);
            lemma_concat_take(recs, i + 1);
        }
        out.append(&mut bytes);
        i = i + 1;
    }
    assert(recs.take(i + 1) =~= recs);
    Ok(out)
}

/// Round trip at the level of records: the records that encoding writes for a
/// list (the header row, then four fields per entry) decode to that list.
pub proof fn lemma_records_round_trip(entries: Seq<EntryView>)
    ensures
        decode_records(encode_records(entries), None) == Ok::<Seq<EntryView>, LoadErrorView>(entries),
{
    let recs = encode_records(entries);
    assert forall|i: int| 1 <= i < recs.len() implies #[trigger] recs[i].len() >= 4 by {
        assert(recs[i] == fields_of(entries[i - 1]));
    }
    assert(!has_short_record(recs));
    let back = recs.drop_first().map_values(|r: Seq<Seq<char>>| entry_of(r));
    assert forall|i: int| 0 <= i < entries.len() implies back[i] == entries[i] by {
        assert(recs[i + 1] == fields_of(entries[i]));
    }
    assert(back =~= entries);
}

/// A record after the header with fewer than four fields makes the whole
/// decoding a schema violation, whatever follows it.
pub proof fn lemma_schema_guard(records: Seq<Seq<Seq<char>>>, failure: Option<Seq<char>>, i: int)
    requires
        1 <= i < records.len(),
        records[i].len() < 4,
    ensures
        decode_records(records, failure) == Err::<Seq<EntryView>, LoadErrorView>(LoadErrorView::SchemaViolation),
{
    assert(has_short_record(records));
}

} // verus!
