use str_similarity::catalog::list_algorithms;
use str_similarity::engine::{all_supported, compare_strings, compute_all, compute_one};
use str_similarity::score::ComputationResult;

fn fractional(x: f64) -> ComputationResult {
    ComputationResult::Fractional(x.to_bits())
}

#[test]
fn levenshtein_of_nutshell_and_nushell() {
    let one = ComputationResult::Integer(1);
    assert_eq!(compute_one("levenshtein", "nutshell", "nushell", false), one);
    assert_eq!(compute_one("levenshtein", "nushell", "nutshell", false), one);
    assert_eq!(compute_one("levenshtein", "nutshell", "nushell", true), fractional(0.125));
}

#[test]
fn alias_gives_what_the_canonical_name_gives() {
    assert_eq!(compute_one("lev", "nu", "nu", true), ComputationResult::Integer(0));
    assert_eq!(compute_one("levenshtein", "nu", "nu", true), ComputationResult::Integer(0));
    for row in list_algorithms() {
        if row.canonical_name == "entropy_ncd" || row.canonical_name == "roberts" {
            continue;
        }
        for normalize in [false, true] {
            assert_eq!(
                compute_one(row.alias, "nutshell", "nushell", normalize),
                compute_one(row.canonical_name, "nutshell", "nushell", normalize),
            );
        }
    }
}

#[test]
fn unknown_identifier_gives_levenshtein() {
    assert_eq!(
        compute_one("unknown_algo_xyz", "a", "b", false),
        compute_one("levenshtein", "a", "b", false),
    );
    assert_eq!(compute_one("unknown_algo_xyz", "a", "b", false), ComputationResult::Integer(1));
    assert_eq!(
        compute_one("", "kitten", "sitting", true),
        compute_one("levenshtein", "kitten", "sitting", true),
    );
}

#[test]
fn identical_texts_have_levenshtein_zero() {
    for s in ["", "a", "nushell", "h\u{e9}llo w\u{f6}rld"] {
        assert_eq!(compute_one("levenshtein", s, s, false), ComputationResult::Integer(0));
    }
}

#[test]
fn levenshtein_result_is_symmetric() {
    for (s, t) in [("kitten", "sitting"), ("", "abc"), ("flaw", "lawn"), ("nutshell", "nushell")] {
        assert_eq!(
            compute_one("levenshtein", s, t, false),
            compute_one("levenshtein", t, s, false),
        );
    }
}

#[test]
fn prefix_keeps_the_order_of_its_texts() {
    assert_eq!(compute_one("prefix", "abcd", "abxy", false), ComputationResult::Integer(2));
    assert_eq!(compute_one("pre", "abcd", "ab", true), fractional(0.5));
    assert_eq!(compute_one("suffix", "abcd", "xycd", false), ComputationResult::Integer(2));
}

#[test]
fn results_are_integers_exactly_where_the_score_is_whole() {
    assert_eq!(compute_one("jaro", "same", "same", false), ComputationResult::Integer(1));
    assert_eq!(compute_one("jaro", "abc", "xyz", false), ComputationResult::Integer(0));
    assert_eq!(compute_one("jaro", "abc", "acbd", false), fractional(0.8055555555555555));
    assert_eq!(compute_one("hamming", "abc", "acbd", true), fractional(0.75));
    assert_eq!(compute_one("hamming", "abc", "acbd", false), ComputationResult::Integer(3));
    assert_eq!(compute_one("length", "abc", "abcdef", true), fractional(0.5));
    assert_eq!(compute_one("mlipns", "abc", "abc", true), ComputationResult::Integer(1));
}

#[test]
fn jaro_winkler_result_lies_between_zero_and_one() {
    let pairs = [
        ("", ""),
        ("a", ""),
        ("martha", "marhta"),
        ("dixon", "dicksonx"),
        ("abc", "xyz"),
        ("same", "same"),
    ];
    for (s, t) in pairs {
        match compute_one("jaro_winkler", s, t, true) {
            ComputationResult::Integer(v) => assert!(v == 0 || v == 1),
            ComputationResult::Fractional(bits) => {
                let x = f64::from_bits(bits);
                assert!(0.0 < x && x < 1.0);
            }
        }
    }
    assert_eq!(
        compute_one("jaro_winkler", "martha", "marhta", true),
        fractional(0.9611111111111111),
    );
}

#[test]
fn compare_strings_takes_the_input_first() {
    assert_eq!(
        compare_strings("levenshtein", "nushell", false, "nutshell"),
        ComputationResult::Integer(1),
    );
    assert_eq!(
        compare_strings("sift4_simple", "abcdefgh", false, "xxabcdefgh"),
        compute_one("sift4_simple", "xxabcdefgh", "abcdefgh", false),
    );
    assert_eq!(compare_strings("pre", "ab", true, "abcd"), fractional(0.5));
}

#[test]
fn report_has_every_algorithm_in_catalog_order() {
    let cases = [
        ("nutshell", "nushell", false),
        ("nutshell", "nushell", true),
        ("", "", false),
        ("a", "", true),
    ];
    for (s, t, normalize) in cases {
        let rows = compute_all(s, t, normalize);
        let catalog = list_algorithms();
        assert_eq!(rows.len(), 25);
        for i in 0..25 {
            assert_eq!(rows[i].algorithm, catalog[i].canonical_name);
            if rows[i].algorithm != "entropy_ncd" && rows[i].algorithm != "roberts" {
                assert_eq!(rows[i].distance, compute_one(rows[i].algorithm, s, t, normalize));
            }
        }
    }
}

#[test]
fn report_of_two_empty_texts() {
    let rows = compute_all("", "", false);
    let expected: [(&str, i64); 25] = [
        ("bag", 0),
        ("cosine", 1),
        ("damerau_levenshtein", 0),
        ("entropy_ncd", 0),
        ("hamming", 0),
        ("jaccard", 1),
        ("jaro", 1),
        ("jaro_winkler", 1),
        ("levenshtein", 0),
        ("longest_common_subsequence", 0),
        ("longest_common_substring", 0),
        ("length", 0),
        ("lig3", 1),
        ("mlipns", 1),
        ("overlap", 1),
        ("prefix", 0),
        ("ratcliff_obershelp", 1),
        ("roberts", 1),
        ("sift4_common", 0),
        ("sift4_simple", 0),
        ("smith_waterman", 0),
        ("sorensen_dice", 1),
        ("suffix", 0),
        ("tversky", 1),
        ("yujian_bo", 0),
    ];
    assert_eq!(rows.len(), 25);
    for i in 0..25 {
        let (name, value) = expected[i];
        assert_eq!(rows[i].algorithm, name);
        assert_eq!(rows[i].distance, ComputationResult::Integer(value), "{name}");
    }
}

#[test]
fn report_mixes_integers_and_fractions() {
    let rows = compute_all("nutshell", "nushell", true);
    assert_eq!(rows[8].algorithm, "levenshtein");
    assert_eq!(rows[8].distance, fractional(0.125));
    assert_eq!(rows[13].algorithm, "mlipns");
    assert_eq!(rows[13].distance, ComputationResult::Integer(0));
    assert_eq!(rows[15].algorithm, "prefix");
    assert_eq!(rows[15].distance, fractional(0.25));
    let raw = compute_all("nutshell", "nushell", false);
    assert_eq!(raw[8].distance, ComputationResult::Integer(1));
    assert_eq!(raw[11].algorithm, "length");
    assert_eq!(raw[11].distance, ComputationResult::Integer(1));
}

#[test]
fn ordinary_texts_are_supported_by_every_algorithm() {
    assert!(all_supported("", ""));
    assert!(all_supported("nutshell", "nushell"));
    let long = "ab".repeat(40_000);
    assert_eq!(all_supported(&long, &long), usize::BITS > 32);
}
