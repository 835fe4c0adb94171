use icu_segmenter_lstm::decimal::{get_invariant, symbols_v1_key, DataKey, SymbolsV1};
use icu_segmenter_lstm::error::Error;
use icu_segmenter_lstm::lstm::{Lstm, TestText, MAX_DICTIONARY_LEN};
use icu_segmenter_lstm::structs::{Dictionary, LstmData, TestCase, TestTextData};
use icu_segmenter_lstm::tokenize::{code_point_tokens, grapheme_tokens, granularity, Granularity};

fn model(name: &str, tokens: &[(&str, i16)]) -> LstmData {
    let mut dic = Dictionary::new();
    for (t, id) in tokens {
        dic.insert(t.to_string(), *id);
    }
    LstmData { model: name.to_string(), dic }
}

fn dictionary_of_len(n: usize) -> Dictionary {
    let mut dic = Dictionary::new();
    for i in 0..n {
        dic.insert(format!("t{}", i), (i % 32768) as i16);
    }
    dic
}

#[test]
fn test_model_loading() {
    let lstm_data = model("Thai_graphclust_exclusive_model4_heavy", &[("ก", 0), ("ข", 1)]);
    let lstm = Lstm::try_new(lstm_data).unwrap();
    assert_eq!(
        lstm.get_model_name(),
        String::from("Thai_graphclust_exclusive_model4_heavy")
    );
}

#[test]
fn segment_file_by_lstm() {
    let embedding: &str = "graphclust";
    let mut model_name = "Thai_".to_owned();
    model_name.push_str(embedding);
    model_name.push_str("_exclusive_model4_heavy");
    let lstm = Lstm::try_new(model(&model_name, &[("ก", 0), ("า", 1)])).unwrap();
    let test_text = TestText::new(TestTextData {
        testcases: vec![TestCase {
            unseg: "กากข".to_string(),
            expected_bies: "BIIE".to_string(),
            true_bies: "BIIE".to_string(),
        }],
    });
    for test_case in test_text.data.testcases {
        let ids = lstm.token_ids(&test_case.unseg).unwrap();
        assert_eq!(ids, vec![0, 1, 0, 2]);
        assert_eq!(ids.len(), test_case.true_bies.chars().count());
    }
}

#[test]
fn end_to_end_two_tokens() {
    let lstm = Lstm::try_new(model("test_graphclust", &[("a", 0), ("b", 1)])).unwrap();
    let ids = lstm.token_ids("ab").unwrap();
    assert_eq!(ids, vec![0, 1]);
    let classes: Vec<usize> = ids.iter().map(|&i| i as usize).collect();
    let tags = Lstm::bies_of_classes(&classes).unwrap();
    assert_eq!(tags, "BI");
    assert_eq!(lstm.token_ids("ab").unwrap(), ids);
    assert_eq!(Lstm::bies_of_classes(&classes).unwrap(), tags);
}

#[test]
fn dictionary_at_limit_is_accepted() {
    let dic = dictionary_of_len(32767);
    assert_eq!(dic.len(), MAX_DICTIONARY_LEN);
    let lstm = Lstm::try_new(LstmData { model: "m_codepoints".to_string(), dic }).unwrap();
    assert_eq!(lstm.return_id("unseen"), 32767);
}

#[test]
fn dictionary_over_limit_is_refused() {
    let dic = dictionary_of_len(32768);
    let r = Lstm::try_new(LstmData { model: "m_codepoints".to_string(), dic });
    assert!(matches!(r, Err(Error::Limit)));
}

#[test]
fn unknown_granularity_is_a_syntax_error() {
    let lstm = Lstm::try_new(model("test_unknown", &[("a", 0), ("b", 1)])).unwrap();
    assert_eq!(lstm.token_ids("ab"), Err(Error::Syntax));
    assert_eq!(granularity("test_unknown"), Err(Error::Syntax));
}

#[test]
fn granularity_follows_model_name() {
    assert_eq!(granularity("Thai_codepoints_exclusive"), Ok(Granularity::CodePoints));
    assert_eq!(granularity("Thai_graphclust_exclusive"), Ok(Granularity::GraphemeClusters));
    assert_eq!(granularity("graphclust_codepoints"), Ok(Granularity::CodePoints));
    let text = "e\u{301}x";
    let cp = Lstm::try_new(model("x_codepoints", &[("e", 5)])).unwrap();
    assert_eq!(cp.token_ids(text).unwrap(), vec![5, 1, 1]);
    let gc = Lstm::try_new(model("x_graphclust", &[("e\u{301}", 7)])).unwrap();
    assert_eq!(gc.token_ids(text).unwrap(), vec![7, 1]);
}

#[test]
fn empty_text_gives_empty_output() {
    for name in ["a_codepoints", "a_graphclust"] {
        let lstm = Lstm::try_new(model(name, &[("a", 0)])).unwrap();
        let ids = lstm.token_ids("").unwrap();
        assert!(ids.is_empty());
        assert_eq!(Lstm::bies_of_classes(&Vec::new()).unwrap(), "");
    }
}

#[test]
fn unseen_tokens_share_the_oov_id() {
    let lstm = Lstm::try_new(model("m_codepoints", &[("a", 0), ("b", 1), ("c", 2)])).unwrap();
    assert_eq!(lstm.return_id("x"), 3);
    assert_eq!(lstm.return_id("y"), 3);
    assert_eq!(lstm.return_id("b"), 1);
    assert_eq!(lstm.token_ids("xay").unwrap(), vec![3, 0, 3]);
}

#[test]
fn classes_map_to_bies_tags() {
    assert_eq!(Lstm::compute_bies(0), Ok('B'));
    assert_eq!(Lstm::compute_bies(1), Ok('I'));
    assert_eq!(Lstm::compute_bies(2), Ok('E'));
    assert_eq!(Lstm::compute_bies(3), Ok('S'));
    assert_eq!(Lstm::compute_bies(4), Err(Error::Syntax));
    let tags = Lstm::bies_of_classes(&vec![3, 0, 1, 2]).unwrap();
    assert_eq!(tags, "SBIE");
    assert!(tags.chars().all(|c| "BIES".contains(c)));
    assert_eq!(Lstm::bies_of_classes(&vec![0, 9, 1]), Err(Error::Syntax));
}

#[test]
fn sweeps_visit_positions_in_order() {
    assert_eq!(Lstm::sweep_order(4, false), vec![0, 1, 2, 3]);
    assert_eq!(Lstm::sweep_order(4, true), vec![3, 2, 1, 0]);
    assert!(Lstm::sweep_order(0, true).is_empty());
}

#[test]
fn tokenizers_split_text() {
    let cps = code_point_tokens("ก\u{e31}b");
    assert_eq!(cps, vec!["ก".to_string(), "\u{e31}".to_string(), "b".to_string()]);
    let gcs = grapheme_tokens("ก\u{e31}b\r\n");
    assert_eq!(gcs, vec!["ก\u{e31}", "b", "\r\n"]);
    assert!(grapheme_tokens("").is_empty());
}

#[test]
fn dictionary_lookup() {
    let mut dic = Dictionary::new();
    assert_eq!(dic.len(), 0);
    dic.insert("ab".to_string(), 4);
    dic.insert("ab".to_string(), 6);
    assert_eq!(dic.len(), 1);
    assert_eq!(dic.get("ab"), Some(6));
    assert_eq!(dic.get("a"), None);
}

#[test]
fn invariant_decimal_symbols() {
    let s = get_invariant(&symbols_v1_key()).unwrap();
    assert_eq!(s.zero_digit, '0');
    assert_eq!(s.decimal_separator, ".");
    assert_eq!(s.grouping_separator, ",");
    let d = SymbolsV1::default();
    assert_eq!(d.decimal_separator, ".");
    let other = DataKey { category: "decimal".to_string(), sub_category: "symbols".to_string(), version: 2 };
    assert!(get_invariant(&other).is_none());
    assert!(!other.matches(&symbols_v1_key()));
}
