use wordlist::entries::WordEntry;
use wordlist::loader::{read_words, write_words, LoadError};

#[test]
fn test_read_words() {
    let input = "
SYMPHAN WORD,ENGLISH WORD,PoS,DEFINITIONS
(+1)(+1+5),how,Adverb,
(+1)(+4),long,Adjective,
(+1)(+5)(+3),when,Adverb,";

    assert_eq!(
        read_words(input.as_bytes()).unwrap(),
        vec![
            WordEntry::new_str("(+1)(+1+5)", "how", "Adverb", ""),
            WordEntry::new_str("(+1)(+4)", "long", "Adjective", ""),
            WordEntry::new_str("(+1)(+5)(+3)", "when", "Adverb", "")
        ]
    );

    let failing_input = "
SYMPHAN WORD,ENGLISH WORD,PoS,DEFINITIONS
(+1)(+1+5),how,Adverb,
(+1)(+4),long,
(+1)(+5)(+3),when,Adverb,";

    assert_eq!(
        read_words(failing_input.as_bytes()).unwrap_err().message(),
        "CSV error: record 2 (line: 4, byte: 66): found record with 3 fields, but the previous record has 4 fields".to_string()
    );

    let failing_input = "
SYMPHAN WORD,ENGLISH WORD,PoS
(+1)(+1+5),how,Adverb
(+1)(+4),long,
(+1)(+5)(+3),when,Adverb";

    assert_eq!(
        read_words(failing_input.as_bytes()).unwrap_err().message(),
        "must have columns for conlang word, original language word, part of speech, and definition".to_string()
    );
}

#[test]
fn test_write_words() {
    let words = vec![
        WordEntry::new_str("A", "B", "C", ""),
        WordEntry::new_str("D", "E", "F", "G"),
        WordEntry::new_str("H", "I", "J", ""),
    ];

    let data = String::from_utf8(write_words(&words).unwrap()).unwrap();
    assert_eq!(data, "SYMPHAN WORD,ENGLISH WORD,PoS,DEFINITIONS\nA,B,C,\nD,E,F,G\nH,I,J,\n");
}

#[test]
fn three_column_file_is_a_schema_violation() {
    let err = read_words("H,E,P\nA,B,C\n".as_bytes()).unwrap_err();
    assert_eq!(err, LoadError::SchemaViolation);
    assert_eq!(
        err.message(),
        "must have columns for conlang word, original language word, part of speech, and definition"
    );
}

#[test]
fn ragged_file_is_a_syntax_error() {
    match read_words("H,E,P,D\nA,B,C,D\nA,B,C\n".as_bytes()) {
        Err(LoadError::Syntax { message }) => {
            assert!(message.contains("record 2"));
            assert!(message.contains("line: 3"));
        }
        other => panic!("expected a syntax error, got {:?}", other),
    }
}

#[test]
fn one_record_decodes_and_encodes() {
    let words = read_words("H,E,P,D\nA,B,C,D\n".as_bytes()).unwrap();
    assert_eq!(words, vec![WordEntry::new_str("A", "B", "C", "D")]);
    let data = String::from_utf8(write_words(&words).unwrap()).unwrap();
    assert_eq!(data, "SYMPHAN WORD,ENGLISH WORD,PoS,DEFINITIONS\nA,B,C,D\n");
}

#[test]
fn empty_and_header_only_files_give_empty_lists() {
    assert_eq!(read_words(b"").unwrap(), vec![]);
    assert_eq!(read_words(b"H,E,P,D\n").unwrap(), vec![]);
}

#[test]
fn extra_fields_are_ignored() {
    let words = read_words("H,E,P,D,X\nA,B,C,D,extra\n".as_bytes()).unwrap();
    assert_eq!(words, vec![WordEntry::new_str("A", "B", "C", "D")]);
}

#[test]
fn record_shorter_than_header_is_a_syntax_error() {
    let err = read_words("H,E,P,D\nA,B,C\n".as_bytes()).unwrap_err();
    assert!(matches!(err, LoadError::Syntax { .. }));
}

#[test]
fn short_records_after_a_short_header_are_a_schema_violation() {
    let err = read_words("H,E,P\nA,B,C\nA,B\n".as_bytes()).unwrap_err();
    assert_eq!(err, LoadError::SchemaViolation);
}

#[test]
fn encoding_quotes_and_round_trips() {
    let words = vec![
        WordEntry::new_str("a,b", "say \"hi\"", "two\nlines", ""),
        WordEntry::new_str("", "", "", ""),
        WordEntry::new_str("x", "y", "z", "w"),
        WordEntry::new_str("x", "y", "z", "w"),
    ];
    let data = write_words(&words).unwrap();
    let text = String::from_utf8(data.clone()).unwrap();
    assert!(text.starts_with("SYMPHAN WORD,ENGLISH WORD,PoS,DEFINITIONS\n\"a,b\",\"say \"\"hi\"\"\",\"two\nlines\",\n"));
    assert_eq!(read_words(&data).unwrap(), words);
}

#[test]
fn empty_list_encodes_to_header_only() {
    let data = String::from_utf8(write_words(&vec![]).unwrap()).unwrap();
    assert_eq!(data, "SYMPHAN WORD,ENGLISH WORD,PoS,DEFINITIONS\n");
}

#[test]
fn entry_constructors_agree() {
    let a = WordEntry::new("a".to_string(), "b".to_string(), "c".to_string(), "d".to_string());
    let b = WordEntry::new_str("a", "b", "c", "d");
    assert_eq!(a, b);
    assert_eq!(a.definition, "d");
}

#[test]
fn error_messages() {
    let io = LoadError::Io { path: "p".to_string(), message: "gone".to_string() };
    assert_eq!(io.message(), "gone");
    let enc = LoadError::Encode { message: "bad".to_string() };
    assert_eq!(enc.message(), "bad");
}
