//! The catalog of supported algorithms: a closed set of identifiers, each with a
//! canonical name and a short alias, in one fixed order.

use vstd::prelude::*;

verus! {

/// One supported similarity or distance algorithm.
///
/// The variants are declared in catalog order.
#[derive(Clone, Copy, Debug, PartialEq, Eq, Hash, Structural)]
pub enum AlgorithmId {
    /// Bag distance: the larger of the two multiset differences.
    Bag,
    /// Cosine similarity of the two character multisets.
    Cosine,
    /// Unrestricted Damerau-Levenshtein edit distance.
    DamerauLevenshtein,
    /// Entropy-based normalized compression distance.
    EntropyNcd,
    /// Hamming distance, counting the surplus of the longer text.
    Hamming,
    /// Jaccard index of the two character multisets.
    Jaccard,
    /// Jaro similarity.
    Jaro,
    /// Jaro-Winkler similarity.
    JaroWinkler,
    /// Levenshtein edit distance.
    Levenshtein,
    /// Length of the longest common subsequence.
    LongestCommonSubsequence,
    /// Length of the longest common substring.
    LongestCommonSubstring,
    /// Difference of the two lengths.
    Length,
    /// LIG3 similarity.
    Lig3,
    /// MLIPNS similarity.
    Mlipns,
    /// Overlap coefficient.
    Overlap,
    /// Length of the longest common prefix.
    Prefix,
    /// Ratcliff-Obershelp (gestalt pattern matching) similarity.
    RatcliffObershelp,
    /// Roberts similarity.
    Roberts,
    /// Sift4 distance, the common variant.
    Sift4Common,
    /// Sift4 distance, the simplest variant.
    Sift4Simple,
    /// Smith-Waterman local alignment score.
    SmithWaterman,
    /// Sorensen-Dice coefficient.
    SorensenDice,
    /// Length of the longest common suffix.
    Suffix,
    /// Tversky index with both weights equal to one.
    Tversky,
    /// Yujian-Bo normalized edit distance.
    YujianBo,
}

/// Number of algorithms in the catalog.
pub const CATALOG_LEN: usize = 25;

/// One line of the catalog.
#[derive(Clone, Copy, Debug, PartialEq, Eq)]
pub struct CatalogEntry {
    pub id: AlgorithmId,
    pub canonical_name: &'static str,
    pub alias: &'static str,
}

/// The catalog as a sequence of identifiers, in its fixed order.
pub open spec fn catalog() -> Seq<AlgorithmId> {
    seq![
        AlgorithmId::Bag,
        AlgorithmId::Cosine,
        AlgorithmId::DamerauLevenshtein,
        AlgorithmId::EntropyNcd,
        AlgorithmId::Hamming,
        AlgorithmId::Jaccard,
        AlgorithmId::Jaro,
        AlgorithmId::JaroWinkler,
        AlgorithmId::Levenshtein,
        AlgorithmId::LongestCommonSubsequence,
        AlgorithmId::LongestCommonSubstring,
        AlgorithmId::Length,
        AlgorithmId::Lig3,
        AlgorithmId::Mlipns,
        AlgorithmId::Overlap,
        AlgorithmId::Prefix,
        AlgorithmId::RatcliffObershelp,
        AlgorithmId::Roberts,
        AlgorithmId::Sift4Common,
        AlgorithmId::Sift4Simple,
        AlgorithmId::SmithWaterman,
        AlgorithmId::SorensenDice,
        AlgorithmId::Suffix,
        AlgorithmId::Tversky,
        AlgorithmId::YujianBo,
    ]
}

impl AlgorithmId {
    /// Position of the algorithm in the catalog.
    pub open spec fn spec_index(self) -> int {
        match self {
            AlgorithmId::Bag => 0,
            AlgorithmId::Cosine => 1,
            AlgorithmId::DamerauLevenshtein => 2,
            AlgorithmId::EntropyNcd => 3,
            AlgorithmId::Hamming => 4,
            AlgorithmId::Jaccard => 5,
            AlgorithmId::Jaro => 6,
            AlgorithmId::JaroWinkler => 7,
            AlgorithmId::Levenshtein => 8,
            AlgorithmId::LongestCommonSubsequence => 9,
            AlgorithmId::LongestCommonSubstring => 10,
            AlgorithmId::Length => 11,
            AlgorithmId::Lig3 => 12,
            AlgorithmId::Mlipns => 13,
            AlgorithmId::Overlap => 14,
            AlgorithmId::Prefix => 15,
            AlgorithmId::RatcliffObershelp => 16,
            AlgorithmId::Roberts => 17,
            AlgorithmId::Sift4Common => 18,
            AlgorithmId::Sift4Simple => 19,
            AlgorithmId::SmithWaterman => 20,
            AlgorithmId::SorensenDice => 21,
            AlgorithmId::Suffix => 22,
            AlgorithmId::Tversky => 23,
            AlgorithmId::YujianBo => 24,
        }
    }

    /// Canonical name, as a sequence of characters.
    pub open spec fn spec_canonical_name(self) -> Seq<char> {
        match self {
            AlgorithmId::Bag => "bag"@,
            AlgorithmId::Cosine => "cosine"@,
            AlgorithmId::DamerauLevenshtein => "damerau_levenshtein"@,
            AlgorithmId::EntropyNcd => "entropy_ncd"@,
            AlgorithmId::Hamming => "hamming"@,
            AlgorithmId::Jaccard => "jaccard"@,
            AlgorithmId::Jaro => "jaro"@,
            AlgorithmId::JaroWinkler => "jaro_winkler"@,
            AlgorithmId::Levenshtein => "levenshtein"@,
            AlgorithmId::LongestCommonSubsequence => "longest_common_subsequence"@,
            AlgorithmId::LongestCommonSubstring => "longest_common_substring"@,
            AlgorithmId::Length => "length"@,
            AlgorithmId::Lig3 => "lig3"@,
            AlgorithmId::Mlipns => "mlipns"@,
            AlgorithmId::Overlap => "overlap"@,
            AlgorithmId::Prefix => "prefix"@,
            AlgorithmId::RatcliffObershelp => "ratcliff_obershelp"@,
            AlgorithmId::Roberts => "roberts"@,
            AlgorithmId::Sift4Common => "sift4_common"@,
            AlgorithmId::Sift4Simple => "sift4_simple"@,
            AlgorithmId::SmithWaterman => "smith_waterman"@,
            AlgorithmId::SorensenDice => "sorensen_dice"@,
            AlgorithmId::Suffix => "suffix"@,
            AlgorithmId::Tversky => "tversky"@,
            AlgorithmId::YujianBo => "yujian_bo"@,
        }
    }

    /// Short alias, as a sequence of characters.
    pub open spec fn spec_alias(self) -> Seq<char> {
        match self {
            AlgorithmId::Bag => "bag"@,
            AlgorithmId::Cosine => "cos"@,
            AlgorithmId::DamerauLevenshtein => "dlev"@,
            AlgorithmId::EntropyNcd => "entncd"@,
            AlgorithmId::Hamming => "ham"@,
            AlgorithmId::Jaccard => "jac"@,
            AlgorithmId::Jaro => "jar"@,
            AlgorithmId::JaroWinkler => "jarw"@,
            AlgorithmId::Levenshtein => "lev"@,
            AlgorithmId::LongestCommonSubsequence => "lcsubseq"@,
            AlgorithmId::LongestCommonSubstring => "lcsubstr"@,
            AlgorithmId::Length => "len"@,
            AlgorithmId::Lig3 => "lig"@,
            AlgorithmId::Mlipns => "mli"@,
            AlgorithmId::Overlap => "olap"@,
            AlgorithmId::Prefix => "pre"@,
            AlgorithmId::RatcliffObershelp => "rat"@,
            AlgorithmId::Roberts => "rob"@,
            AlgorithmId::Sift4Common => "scom"@,
            AlgorithmId::Sift4Simple => "ssim"@,
            AlgorithmId::SmithWaterman => "smithw"@,
            AlgorithmId::SorensenDice => "soredice"@,
            AlgorithmId::Suffix => "suf"@,
            AlgorithmId::Tversky => "tv"@,
            AlgorithmId::YujianBo => "ybo"@,
        }
    }

    /// Position of the algorithm in the catalog.
    pub fn index(self) -> (i: usize)
        ensures
            i == self.spec_index(),
            i < CATALOG_LEN,
            catalog()[i as int] == self,
    {
        match self {
            AlgorithmId::Bag => 0,
            AlgorithmId::Cosine => 1,
            AlgorithmId::DamerauLevenshtein => 2,
            AlgorithmId::EntropyNcd => 3,
            AlgorithmId::Hamming => 4,
            AlgorithmId::Jaccard => 5,
            AlgorithmId::Jaro => 6,
            AlgorithmId::JaroWinkler => 7,
            AlgorithmId::Levenshtein => 8,
            AlgorithmId::LongestCommonSubsequence => 9,
            AlgorithmId::LongestCommonSubstring => 10,
            AlgorithmId::Length => 11,
            AlgorithmId::Lig3 => 12,
            AlgorithmId::Mlipns => 13,
            AlgorithmId::Overlap => 14,
            AlgorithmId::Prefix => 15,
            AlgorithmId::RatcliffObershelp => 16,
            AlgorithmId::Roberts => 17,
            AlgorithmId::Sift4Common => 18,
            AlgorithmId::Sift4Simple => 19,
            AlgorithmId::SmithWaterman => 20,
            AlgorithmId::SorensenDice => 21,
            AlgorithmId::Suffix => 22,
            AlgorithmId::Tversky => 23,
            AlgorithmId::YujianBo => 24,
        }
    }

    /// The algorithm at position `i` of the catalog.
    pub fn at(i: usize) -> (id: AlgorithmId)
        requires
            i < CATALOG_LEN,
        ensures
            id == catalog()[i as int],
            id.spec_index() == i,
    {
        if i == 0 {
            AlgorithmId::Bag
        } else if i == 1 {
            AlgorithmId::Cosine
        } else if i == 2 {
            AlgorithmId::DamerauLevenshtein
        } else if i == 3 {
            AlgorithmId::EntropyNcd
        } else if i == 4 {
            AlgorithmId::Hamming
        } else if i == 5 {
            AlgorithmId::Jaccard
        } else if i == 6 {
            AlgorithmId::Jaro
        } else if i == 7 {
            AlgorithmId::JaroWinkler
        } else if i == 8 {
            AlgorithmId::Levenshtein
        } else if i == 9 {
            AlgorithmId::LongestCommonSubsequence
        } else if i == 10 {
            AlgorithmId::LongestCommonSubstring
        } else if i == 11 {
            AlgorithmId::Length
        } else if i == 12 {
            AlgorithmId::Lig3
        } else if i == 13 {
            AlgorithmId::Mlipns
        } else if i == 14 {
            AlgorithmId::Overlap
        } else if i == 15 {
            AlgorithmId::Prefix
        } else if i == 16 {
            AlgorithmId::RatcliffObershelp
        } else if i == 17 {
            AlgorithmId::Roberts
        } else if i == 18 {
            AlgorithmId::Sift4Common
        } else if i == 19 {
            AlgorithmId::Sift4Simple
        } else if i == 20 {
            AlgorithmId::SmithWaterman
        } else if i == 21 {
            AlgorithmId::SorensenDice
        } else if i == 22 {
            AlgorithmId::Suffix
        } else if i == 23 {
            AlgorithmId::Tversky
        } else {
            AlgorithmId::YujianBo
        }
    }

    /// Canonical name of the algorithm.
    pub fn canonical_name(self) -> (name: &'static str)
        ensures
            name@ == self.spec_canonical_name(),
    {
        match self {
            AlgorithmId::Bag => "bag",
            AlgorithmId::Cosine => "cosine",
            AlgorithmId::DamerauLevenshtein => "damerau_levenshtein",
            AlgorithmId::EntropyNcd => "entropy_ncd",
            AlgorithmId::Hamming => "hamming",
            AlgorithmId::Jaccard => "jaccard",
            AlgorithmId::Jaro => "jaro",
            AlgorithmId::JaroWinkler => "jaro_winkler",
            AlgorithmId::Levenshtein => "levenshtein",
            AlgorithmId::LongestCommonSubsequence => "longest_common_subsequence",
            AlgorithmId::LongestCommonSubstring => "longest_common_substring",
            AlgorithmId::Length => "length",
            AlgorithmId::Lig3 => "lig3",
            AlgorithmId::Mlipns => "mlipns",
            AlgorithmId::Overlap => "overlap",
            AlgorithmId::Prefix => "prefix",
            AlgorithmId::RatcliffObershelp => "ratcliff_obershelp",
            AlgorithmId::Roberts => "roberts",
            AlgorithmId::Sift4Common => "sift4_common",
            AlgorithmId::Sift4Simple => "sift4_simple",
            AlgorithmId::SmithWaterman => "smith_waterman",
            AlgorithmId::SorensenDice => "sorensen_dice",
            AlgorithmId::Suffix => "suffix",
            AlgorithmId::Tversky => "tversky",
            AlgorithmId::YujianBo => "yujian_bo",
        }
    }

    /// Short alias of the algorithm.
    pub fn alias(self) -> (alias: &'static str)
        ensures
            alias@ == self.spec_alias(),
    {
        match self {
            AlgorithmId::Bag => "bag",
            AlgorithmId::Cosine => "cos",
            AlgorithmId::DamerauLevenshtein => "dlev",
            AlgorithmId::EntropyNcd => "entncd",
            AlgorithmId::Hamming => "ham",
            AlgorithmId::Jaccard => "jac",
            AlgorithmId::Jaro => "jar",
            AlgorithmId::JaroWinkler => "jarw",
            AlgorithmId::Levenshtein => "lev",
            AlgorithmId::LongestCommonSubsequence => "lcsubseq",
            AlgorithmId::LongestCommonSubstring => "lcsubstr",
            AlgorithmId::Length => "len",
            AlgorithmId::Lig3 => "lig",
            AlgorithmId::Mlipns => "mli",
            AlgorithmId::Overlap => "olap",
            AlgorithmId::Prefix => "pre",
            AlgorithmId::RatcliffObershelp => "rat",
            AlgorithmId::Roberts => "rob",
            AlgorithmId::Sift4Common => "scom",
            AlgorithmId::Sift4Simple => "ssim",
            AlgorithmId::SmithWaterman => "smithw",
            AlgorithmId::SorensenDice => "soredice",
            AlgorithmId::Suffix => "suf",
            AlgorithmId::Tversky => "tv",
            AlgorithmId::YujianBo => "ybo",
        }
    }

    /// The catalog line of the algorithm.
    pub fn entry(self) -> (entry: CatalogEntry)
        ensures
            entry.describes(self),
    {
        CatalogEntry { id: self, canonical_name: self.canonical_name(), alias: self.alias() }
    }
}

impl CatalogEntry {
    /// The entry is the catalog line of `id`.
    pub open spec fn describes(self, id: AlgorithmId) -> bool {
        &&& self.id == id
        &&& self.canonical_name@ == id.spec_canonical_name()
        &&& self.alias@ == id.spec_alias()
    }
}

/// The catalog has one line per algorithm, and every algorithm stands at its own
/// position.
pub proof fn lemma_catalog_complete()
    ensures
        catalog().len() == CATALOG_LEN,
        forall|id: AlgorithmId| 0 <= #[trigger] id.spec_index() < CATALOG_LEN,
        forall|id: AlgorithmId| catalog()[#[trigger] id.spec_index()] == id,
        forall|i: int| 0 <= i < CATALOG_LEN ==> (#[trigger] catalog()[i]).spec_index() == i,
{
}

/// `rows` is the catalog: one line for each algorithm, in catalog order.
pub open spec fn is_listing(rows: Seq<CatalogEntry>) -> bool {
    &&& rows.len() == CATALOG_LEN
    &&& forall|i: int| 0 <= i < CATALOG_LEN ==> (#[trigger] rows[i]).describes(catalog()[i])
}

/// Every line of the catalog, in catalog order.
pub fn list_algorithms() -> (rows: Vec<CatalogEntry>)
    ensures
        is_listing(rows@),
{
    let mut rows: Vec<CatalogEntry> = Vec::new();
    let mut i: usize = 0;
    while i < CATALOG_LEN
        invariant
            i <= CATALOG_LEN,
            rows@.len() == i,
            forall|j: int| 0 <= j < i ==> (#[trigger] rows@[j]).describes(catalog()[j]),
        decreases CATALOG_LEN - i,
    {
        rows.push(AlgorithmId::at(i).entry());
        i = i + 1;
    }
    rows
}

/// `key` is the canonical name or the alias of `id`.
pub open spec fn is_named(id: AlgorithmId, key: Seq<char>) -> bool {
    key == id.spec_canonical_name() || key == id.spec_alias()
}

/// The text is ASCII and holds no upper-case letter.
pub open spec fn is_lower_ascii(text: Seq<char>) -> bool {
    forall|i: int| 0 <= i < text.len() ==> {
        let c = #[trigger] text[i];
        '\0' <= c && c <= '\u{7f}' && !('A' <= c && c <= 'Z')
    }
}

/// Length, second character and last character of a text. No two different names
/// of the catalog agree on all three.
spec fn shape(text: Seq<char>) -> (nat, char, char) {
    (text.len(), text[1], text.last())
}

/// What the literal names of the catalog hold: the shape of each, and that each is
/// lower-case ASCII.
proof fn lemma_names()
    ensures
        shape("bag"@) == (3nat, 'a', 'g'),
        is_lower_ascii("bag"@),
        shape("cosine"@) == (6nat, 'o', 'e'),
        is_lower_ascii("cosine"@),
        shape("cos"@) == (3nat, 'o', 's'),
        is_lower_ascii("cos"@),
        shape("damerau_levenshtein"@) == (19nat, 'a', 'n'),
        is_lower_ascii("damerau_levenshtein"@),
        shape("dlev"@) == (4nat, 'l', 'v'),
        is_lower_ascii("dlev"@),
        shape("entropy_ncd"@) == (11nat, 'n', 'd'),
        is_lower_ascii("entropy_ncd"@),
        shape("entncd"@) == (6nat, 'n', 'd'),
        is_lower_ascii("entncd"@),
        shape("hamming"@) == (7nat, 'a', 'g'),
        is_lower_ascii("hamming"@),
        shape("ham"@) == (3nat, 'a', 'm'),
        is_lower_ascii("ham"@),
        shape("jaccard"@) == (7nat, 'a', 'd'),
        is_lower_ascii("jaccard"@),
        shape("jac"@) == (3nat, 'a', 'c'),
        is_lower_ascii("jac"@),
        shape("jaro"@) == (4nat, 'a', 'o'),
        is_lower_ascii("jaro"@),
        shape("jar"@) == (3nat, 'a', 'r'),
        is_lower_ascii("jar"@),
        shape("jaro_winkler"@) == (12nat, 'a', 'r'),
        is_lower_ascii("jaro_winkler"@),
        shape("jarw"@) == (4nat, 'a', 'w'),
        is_lower_ascii("jarw"@),
        shape("levenshtein"@) == (11nat, 'e', 'n'),
        is_lower_ascii("levenshtein"@),
        shape("lev"@) == (3nat, 'e', 'v'),
        is_lower_ascii("lev"@),
        shape("longest_common_subsequence"@) == (26nat, 'o', 'e'),
        is_lower_ascii("longest_common_subsequence"@),
        shape("lcsubseq"@) == (8nat, 'c', 'q'),
        is_lower_ascii("lcsubseq"@),
        shape("longest_common_substring"@) == (24nat, 'o', 'g'),
        is_lower_ascii("longest_common_substring"@),
        shape("lcsubstr"@) == (8nat, 'c', 'r'),
        is_lower_ascii("lcsubstr"@),
        shape("length"@) == (6nat, 'e', 'h'),
        is_lower_ascii("length"@),
        shape("len"@) == (3nat, 'e', 'n'),
        is_lower_ascii("len"@),
        shape("lig3"@) == (4nat, 'i', '3'),
        is_lower_ascii("lig3"@),
        shape("lig"@) == (3nat, 'i', 'g'),
        is_lower_ascii("lig"@),
        shape("mlipns"@) == (6nat, 'l', 's'),
        is_lower_ascii("mlipns"@),
        shape("mli"@) == (3nat, 'l', 'i'),
        is_lower_ascii("mli"@),
        shape("overlap"@) == (7nat, 'v', 'p'),
        is_lower_ascii("overlap"@),
        shape("olap"@) == (4nat, 'l', 'p'),
        is_lower_ascii("olap"@),
        shape("prefix"@) == (6nat, 'r', 'x'),
        is_lower_ascii("prefix"@),
        shape("pre"@) == (3nat, 'r', 'e'),
        is_lower_ascii("pre"@),
        shape("ratcliff_obershelp"@) == (18nat, 'a', 'p'),
        is_lower_ascii("ratcliff_obershelp"@),
        shape("rat"@) == (3nat, 'a', 't'),
        is_lower_ascii("rat"@),
        shape("roberts"@) == (7nat, 'o', 's'),
        is_lower_ascii("roberts"@),
        shape("rob"@) == (3nat, 'o', 'b'),
        is_lower_ascii("rob"@),
        shape("sift4_common"@) == (12nat, 'i', 'n'),
        is_lower_ascii("sift4_common"@),
        shape("scom"@) == (4nat, 'c', 'm'),
        is_lower_ascii("scom"@),
        shape("sift4_simple"@) == (12nat, 'i', 'e'),
        is_lower_ascii("sift4_simple"@),
        shape("ssim"@) == (4nat, 's', 'm'),
        is_lower_ascii("ssim"@),
        shape("smith_waterman"@) == (14nat, 'm', 'n'),
        is_lower_ascii("smith_waterman"@),
        shape("smithw"@) == (6nat, 'm', 'w'),
        is_lower_ascii("smithw"@),
        shape("sorensen_dice"@) == (13nat, 'o', 'e'),
        is_lower_ascii("sorensen_dice"@),
        shape("soredice"@) == (8nat, 'o', 'e'),
        is_lower_ascii("soredice"@),
        shape("suffix"@) == (6nat, 'u', 'x'),
        is_lower_ascii("suffix"@),
        shape("suf"@) == (3nat, 'u', 'f'),
        is_lower_ascii("suf"@),
        shape("tversky"@) == (7nat, 'v', 'y'),
        is_lower_ascii("tversky"@),
        shape("tv"@) == (2nat, 'v', 'v'),
        is_lower_ascii("tv"@),
        shape("yujian_bo"@) == (9nat, 'u', 'o'),
        is_lower_ascii("yujian_bo"@),
        shape("ybo"@) == (3nat, 'b', 'o'),
        is_lower_ascii("ybo"@),
{
    reveal_strlit("bag");
    reveal_strlit("cosine");
    reveal_strlit("cos");
    reveal_strlit("damerau_levenshtein");
    reveal_strlit("dlev");
    reveal_strlit("entropy_ncd");
    reveal_strlit("entncd");
    reveal_strlit("hamming");
    reveal_strlit("ham");
    reveal_strlit("jaccard");
    reveal_strlit("jac");
    reveal_strlit("jaro");
    reveal_strlit("jar");
    reveal_strlit("jaro_winkler");
    reveal_strlit("jarw");
    reveal_strlit("levenshtein");
    reveal_strlit("lev");
    reveal_strlit("longest_common_subsequence");
    reveal_strlit("lcsubseq");
    reveal_strlit("longest_common_substring");
    reveal_strlit("lcsubstr");
    reveal_strlit("length");
    reveal_strlit("len");
    reveal_strlit("lig3");
    reveal_strlit("lig");
    reveal_strlit("mlipns");
    reveal_strlit("mli");
    reveal_strlit("overlap");
    reveal_strlit("olap");
    reveal_strlit("prefix");
    reveal_strlit("pre");
    reveal_strlit("ratcliff_obershelp");
    reveal_strlit("rat");
    reveal_strlit("roberts");
    reveal_strlit("rob");
    reveal_strlit("sift4_common");
    reveal_strlit("scom");
    reveal_strlit("sift4_simple");
    reveal_strlit("ssim");
    reveal_strlit("smith_waterman");
    reveal_strlit("smithw");
    reveal_strlit("sorensen_dice");
    reveal_strlit("soredice");
    reveal_strlit("suffix");
    reveal_strlit("suf");
    reveal_strlit("tversky");
    reveal_strlit("tv");
    reveal_strlit("yujian_bo");
    reveal_strlit("ybo");
}

/// A key names at most one algorithm.
pub proof fn lemma_named_once(a: AlgorithmId, b: AlgorithmId, key: Seq<char>)
    requires
        is_named(a, key),
        is_named(b, key),
    ensures
        a == b,
{
    lemma_names();
}

/// Canonical names are pairwise distinct, aliases are pairwise distinct, and no
/// canonical name is the alias of another algorithm.
pub proof fn lemma_names_distinct(a: AlgorithmId, b: AlgorithmId)
    requires
        a != b,
    ensures
        a.spec_canonical_name() != b.spec_canonical_name(),
        a.spec_alias() != b.spec_alias(),
        a.spec_canonical_name() != b.spec_alias(),
{
    if a.spec_canonical_name() == b.spec_canonical_name() {
        lemma_named_once(a, b, a.spec_canonical_name());
    }
    if a.spec_alias() == b.spec_alias() {
        lemma_named_once(a, b, a.spec_alias());
    }
    if a.spec_canonical_name() == b.spec_alias() {
        lemma_named_once(a, b, a.spec_canonical_name());
    }
}

/// No two lines of the catalog share a canonical name or an alias.
pub proof fn lemma_listing_distinct(rows: Seq<CatalogEntry>, i: int, j: int)
    requires
        is_listing(rows),
        0 <= i < j < CATALOG_LEN,
    ensures
        rows[i].canonical_name@ != rows[j].canonical_name@,
        rows[i].alias@ != rows[j].alias@,
        rows[i].canonical_name@ != rows[j].alias@,
        rows[i].alias@ != rows[j].canonical_name@,
{
    lemma_catalog_complete();
    assert(rows[i].describes(catalog()[i]));
    assert(rows[j].describes(catalog()[j]));
    assert(catalog()[i].spec_index() == i);
    assert(catalog()[j].spec_index() == j);
    lemma_names_distinct(catalog()[i], catalog()[j]);
    lemma_names_distinct(catalog()[j], catalog()[i]);
}

/// Every canonical name and every alias of the catalog is lower-case ASCII.
pub proof fn lemma_names_lower_ascii(id: AlgorithmId)
    ensures
        is_lower_ascii(id.spec_canonical_name()),
        is_lower_ascii(id.spec_alias()),
{
    lemma_names();
}

} // verus!
