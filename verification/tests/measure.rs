use std::collections::HashMap;

use str_similarity::catalog::AlgorithmId;
use str_similarity::dispatch::compute;
use str_similarity::score::Score;

fn count(id: AlgorithmId, left: &str, right: &str) -> usize {
    match compute(id, left, right, false) {
        Score::Count(n) => n,
        Score::Double(_) => panic!("not a count"),
    }
}

fn levenshtein(s: &[char], t: &[char]) -> usize {
    if s.is_empty() {
        t.len()
    } else if t.is_empty() {
        s.len()
    } else if s[s.len() - 1] == t[t.len() - 1] {
        levenshtein(&s[..s.len() - 1], &t[..t.len() - 1])
    } else {
        let a = levenshtein(&s[..s.len() - 1], t);
        let b = levenshtein(s, &t[..t.len() - 1]);
        let c = levenshtein(&s[..s.len() - 1], &t[..t.len() - 1]);
        1 + a.min(b).min(c)
    }
}

fn hamming(s: &[char], t: &[char]) -> usize {
    if s.is_empty() {
        t.len()
    } else if t.is_empty() {
        s.len()
    } else if s[0] == t[0] {
        hamming(&s[1..], &t[1..])
    } else {
        1 + hamming(&s[1..], &t[1..])
    }
}

fn common_prefix(s: &[char], t: &[char]) -> usize {
    if s.is_empty() || t.is_empty() || s[0] != t[0] {
        0
    } else {
        1 + common_prefix(&s[1..], &t[1..])
    }
}

fn common_suffix(s: &[char], t: &[char]) -> usize {
    if s.is_empty() || t.is_empty() || s[s.len() - 1] != t[t.len() - 1] {
        0
    } else {
        1 + common_suffix(&s[..s.len() - 1], &t[..t.len() - 1])
    }
}

fn common_subsequence(s: &[char], t: &[char]) -> usize {
    if s.is_empty() || t.is_empty() {
        0
    } else if s[s.len() - 1] == t[t.len() - 1] {
        1 + common_subsequence(&s[..s.len() - 1], &t[..t.len() - 1])
    } else {
        common_subsequence(&s[..s.len() - 1], t).max(common_subsequence(s, &t[..t.len() - 1]))
    }
}

fn common_substring(s: &[char], t: &[char]) -> usize {
    if s.is_empty() || t.is_empty() {
        0
    } else {
        common_suffix(s, t)
            .max(common_substring(&s[..s.len() - 1], t))
            .max(common_substring(s, &t[..t.len() - 1]))
    }
}

fn alignment(s: &[char], t: &[char]) -> usize {
    let mut table = vec![vec![0i64; t.len() + 1]; s.len() + 1];
    for i in 1..=s.len() {
        for j in 1..=t.len() {
            let gain = if s[i - 1] == t[j - 1] { 1 } else { 0 };
            table[i][j] = 0
                .max(table[i - 1][j - 1] + gain)
                .max(table[i - 1][j] - 1)
                .max(table[i][j - 1] - 1);
        }
    }
    table[s.len()][t.len()] as usize
}

fn bag(s: &[char], t: &[char]) -> usize {
    let mut left: HashMap<char, usize> = HashMap::new();
    let mut right: HashMap<char, usize> = HashMap::new();
    for c in s {
        *left.entry(*c).or_insert(0) += 1;
    }
    for c in t {
        *right.entry(*c).or_insert(0) += 1;
    }
    let mut only_left = 0;
    for (c, n) in &left {
        only_left += n.saturating_sub(*right.get(c).unwrap_or(&0));
    }
    let mut only_right = 0;
    for (c, n) in &right {
        only_right += n.saturating_sub(*left.get(c).unwrap_or(&0));
    }
    only_left.max(only_right)
}

fn texts() -> Vec<(String, String)> {
    random_texts(1500, 8)
}

fn random_texts(pairs: usize, longest: u64) -> Vec<(String, String)> {
    let alphabet = ['a', 'b', 'c', '\u{e9}', '\u{1f600}'];
    let mut state: u64 = 0x2545_f491_4f6c_dd1d;
    let mut next = move || {
        state ^= state << 13;
        state ^= state >> 7;
        state ^= state << 17;
        state
    };
    let mut found = Vec::new();
    for _ in 0..pairs {
        let mut pair = Vec::new();
        for _ in 0..2 {
            let len = (next() % longest) as usize;
            let letters = 1 + (next() % 5) as usize;
            let text: String = (0..len).map(|_| alphabet[(next() as usize) % letters]).collect();
            pair.push(text);
        }
        let right = pair.pop().unwrap_or_default();
        let left = pair.pop().unwrap_or_default();
        found.push((left, right));
    }
    found
}

#[test]
fn stated_measures_agree_with_their_definitions() {
    for (left, right) in texts() {
        let s: Vec<char> = left.chars().collect();
        let t: Vec<char> = right.chars().collect();
        let (l, r) = (left.as_str(), right.as_str());
        assert_eq!(count(AlgorithmId::Levenshtein, l, r), levenshtein(&s, &t), "{l:?} {r:?}");
        assert_eq!(count(AlgorithmId::Hamming, l, r), hamming(&s, &t), "{l:?} {r:?}");
        assert_eq!(count(AlgorithmId::Length, l, r), s.len().abs_diff(t.len()));
        assert_eq!(count(AlgorithmId::Prefix, l, r), common_prefix(&s, &t), "{l:?} {r:?}");
        assert_eq!(count(AlgorithmId::Suffix, l, r), common_suffix(&s, &t), "{l:?} {r:?}");
        assert_eq!(
            count(AlgorithmId::LongestCommonSubsequence, &left, &right),
            common_subsequence(&s, &t),
            "{left:?} {right:?}"
        );
        assert_eq!(
            count(AlgorithmId::LongestCommonSubstring, &left, &right),
            common_substring(&s, &t),
            "{left:?} {right:?}"
        );
        assert_eq!(count(AlgorithmId::Bag, &left, &right), bag(&s, &t), "{left:?} {right:?}");
        assert_eq!(
            count(AlgorithmId::SmithWaterman, &left, &right),
            alignment(&s, &t),
            "{left:?} {right:?}"
        );
    }
}

#[test]
fn repeatable_algorithms_repeat() {
    for (left, right) in texts().into_iter().take(300) {
        for i in 0..25 {
            let id = AlgorithmId::at(i);
            if id == AlgorithmId::EntropyNcd || id == AlgorithmId::Roberts {
                continue;
            }
            for normalize in [false, true] {
                assert_eq!(
                    compute(id, &left, &right, normalize),
                    compute(id, &left, &right, normalize),
                );
            }
        }
    }
}

#[test]
fn normalized_jaro_winkler_stays_in_the_unit_interval() {
    for (left, right) in texts() {
        match compute(AlgorithmId::JaroWinkler, &left, &right, true) {
            Score::Double(bits) => assert!(bits <= 1.0f64.to_bits(), "{left:?} {right:?}"),
            Score::Count(_) => panic!("not a number"),
        }
    }
}

#[test]
fn no_algorithm_fails_on_short_texts() {
    for (left, right) in texts() {
        for i in 0..25 {
            let id = AlgorithmId::at(i);
            assert!(id.supports(&left, &right));
            for normalize in [false, true] {
                let score = compute(id, &left, &right, normalize);
                if let Score::Double(bits) = score {
                    assert!(f64::from_bits(bits).is_finite());
                }
            }
        }
    }
}

#[test]
fn no_algorithm_fails_on_longer_texts() {
    for (left, right) in random_texts(400, 60) {
        let s: Vec<char> = left.chars().collect();
        let t: Vec<char> = right.chars().collect();
        assert_eq!(count(AlgorithmId::Hamming, &left, &right), hamming(&s, &t));
        assert_eq!(count(AlgorithmId::Prefix, &left, &right), common_prefix(&s, &t));
        assert_eq!(count(AlgorithmId::Suffix, &left, &right), common_suffix(&s, &t));
        assert_eq!(count(AlgorithmId::Bag, &left, &right), bag(&s, &t));
        for i in 0..25 {
            let id = AlgorithmId::at(i);
            for normalize in [false, true] {
                match compute(id, &left, &right, normalize) {
                    Score::Double(bits) => {
                        assert!(f64::from_bits(bits).is_finite());
                        if id == AlgorithmId::JaroWinkler && normalize {
                            assert!(bits <= 1.0f64.to_bits());
                        }
                    }
                    Score::Count(n) => assert!(n <= 2 * (s.len() + t.len())),
                }
            }
        }
    }
}

fn levenshtein_table(s: &[char], t: &[char]) -> usize {
    let mut table = vec![vec![0usize; t.len() + 1]; s.len() + 1];
    for i in 0..=s.len() {
        for j in 0..=t.len() {
            table[i][j] = if i == 0 {
                j
            } else if j == 0 {
                i
            } else if s[i - 1] == t[j - 1] {
                table[i - 1][j - 1]
            } else {
                1 + table[i - 1][j].min(table[i][j - 1]).min(table[i - 1][j - 1])
            };
        }
    }
    table[s.len()][t.len()]
}

fn common_subsequence_table(s: &[char], t: &[char]) -> usize {
    let mut table = vec![vec![0usize; t.len() + 1]; s.len() + 1];
    for i in 1..=s.len() {
        for j in 1..=t.len() {
            table[i][j] = if s[i - 1] == t[j - 1] {
                1 + table[i - 1][j - 1]
            } else {
                table[i - 1][j].max(table[i][j - 1])
            };
        }
    }
    table[s.len()][t.len()]
}

fn common_substring_table(s: &[char], t: &[char]) -> usize {
    let mut best = 0;
    for i in 0..=s.len() {
        for j in 0..=t.len() {
            best = best.max(common_suffix(&s[..i], &t[..j]));
        }
    }
    best
}

#[test]
fn stated_measures_agree_with_their_definitions_on_longer_texts() {
    for (left, right) in random_texts(400, 60) {
        let s: Vec<char> = left.chars().collect();
        let t: Vec<char> = right.chars().collect();
        assert_eq!(count(AlgorithmId::Levenshtein, &left, &right), levenshtein_table(&s, &t));
        assert_eq!(
            count(AlgorithmId::LongestCommonSubsequence, &left, &right),
            common_subsequence_table(&s, &t),
        );
        assert_eq!(
            count(AlgorithmId::LongestCommonSubstring, &left, &right),
            common_substring_table(&s, &t),
        );
        assert_eq!(count(AlgorithmId::SmithWaterman, &left, &right), alignment(&s, &t));
    }
}
