use str_similarity::catalog::{list_algorithms, AlgorithmId, CATALOG_LEN};

const EXPECTED: [(&str, &str); 25] = [
    ("bag", "bag"),
    ("cosine", "cos"),
    ("damerau_levenshtein", "dlev"),
    ("entropy_ncd", "entncd"),
    ("hamming", "ham"),
    ("jaccard", "jac"),
    ("jaro", "jar"),
    ("jaro_winkler", "jarw"),
    ("levenshtein", "lev"),
    ("longest_common_subsequence", "lcsubseq"),
    ("longest_common_substring", "lcsubstr"),
    ("length", "len"),
    ("lig3", "lig"),
    ("mlipns", "mli"),
    ("overlap", "olap"),
    ("prefix", "pre"),
    ("ratcliff_obershelp", "rat"),
    ("roberts", "rob"),
    ("sift4_common", "scom"),
    ("sift4_simple", "ssim"),
    ("smith_waterman", "smithw"),
    ("sorensen_dice", "soredice"),
    ("suffix", "suf"),
    ("tversky", "tv"),
    ("yujian_bo", "ybo"),
];

#[test]
fn list_has_every_algorithm_in_catalog_order() {
    let rows = list_algorithms();
    assert_eq!(rows.len(), 25);
    assert_eq!(CATALOG_LEN, 25);
    for (i, row) in rows.iter().enumerate() {
        assert_eq!(row.canonical_name, EXPECTED[i].0);
        assert_eq!(row.alias, EXPECTED[i].1);
        assert_eq!(row.id, AlgorithmId::at(i));
        assert_eq!(row.id.index(), i);
    }
}

#[test]
fn list_names_are_pairwise_distinct() {
    let rows = list_algorithms();
    for a in 0..rows.len() {
        for b in 0..rows.len() {
            if a != b {
                assert_ne!(rows[a].canonical_name, rows[b].canonical_name);
                assert_ne!(rows[a].alias, rows[b].alias);
                assert_ne!(rows[a].canonical_name, rows[b].alias);
            }
        }
    }
}

#[test]
fn list_is_the_same_at_every_call() {
    let first = list_algorithms();
    let second = list_algorithms();
    for i in 0..25 {
        assert_eq!(first[i].canonical_name, second[i].canonical_name);
        assert_eq!(first[i].alias, second[i].alias);
    }
}

#[test]
fn identifier_knows_its_own_names() {
    assert_eq!(AlgorithmId::Bag.canonical_name(), "bag");
    assert_eq!(AlgorithmId::Bag.alias(), "bag");
    let subsequence = AlgorithmId::LongestCommonSubsequence;
    assert_eq!(subsequence.canonical_name(), "longest_common_subsequence");
    assert_eq!(subsequence.alias(), "lcsubseq");
    assert_eq!(AlgorithmId::YujianBo.index(), 24);
    assert_eq!(AlgorithmId::at(8), AlgorithmId::Levenshtein);
    let entry = AlgorithmId::Tversky.entry();
    assert_eq!(entry.id, AlgorithmId::Tversky);
    assert_eq!(entry.canonical_name, "tversky");
    assert_eq!(entry.alias, "tv");
}
