use std::collections::HashSet;

use barkeep::similarity::{_strip_product_name, jaccard_counts, measure, remove_all, word_ngrams};

fn strip_by_the_standard_library(name: String) -> Vec<String> {
    let filter = [
        "Beer", "24-pack", "PET", "tölkki", "6-pack", "4-pack", "8-pack", "TIN", "PURK",
        "4 x 6-pack", "4 x 6 x 33cl", "9 x 2 cl", "24x50cl", "Export", "(4x)", "III",
    ];
    let name = filter.iter().fold(name, |a, f| a.replace(f, ""));
    name.split(" ")
        .filter(|s| {
            !(s.ends_with("%")
                || s.ends_with("cl")
                || s.ends_with("ml")
                || *s == "A"
                || *s == "1"
                || (s.len() < 5 && s.contains(",")))
        })
        .filter(|s| !s.is_empty())
        .map(|s| s.to_owned())
        .collect()
}

#[test]
fn product_names_are_stripped() {
    assert_eq!(
        _strip_product_name("Karhu III Beer 5,3% 24-pack 33cl tölkki".to_string()),
        vec!["Karhu"]
    );
    assert_eq!(
        _strip_product_name("Koskenkorva Viina 38% 50cl PET".to_string()),
        vec!["Koskenkorva", "Viina"]
    );
    assert_eq!(_strip_product_name(String::new()), Vec::<String>::new());
    assert_eq!(_strip_product_name("A 1 4,5 12,5% 1,234".to_string()), vec!["1,234"]);
}

#[test]
fn product_names_are_stripped_as_by_the_standard_library() {
    let names = [
        "",
        " ",
        "Sandels 4,7% 4 x 6-pack",
        "Sandels 4 x 6 x 33cl A",
        "BeBeerer",
        "IIII IIIII III",
        "Exporttölkki 24x50cl 9 x 2 cl (4x)",
        "Olvi Export A 5,2% 0,5l TIN 1",
        "ä,ä ää,ä é,é 1,5 12,50 1,50l",
        "6-6-pack 4-pack8-pack PURKKI",
        "Laphroaig 10 Years 40% 70cl",
        "Jaloviina *** 1 l",
        "4 x 6-pack pack PETER",
    ];
    for name in names {
        assert_eq!(
            _strip_product_name(name.to_string()),
            strip_by_the_standard_library(name.to_string()),
            "{name:?}"
        );
    }
}

#[test]
fn occurrences_are_removed_from_left_to_right() {
    let chars = |s: &str| s.chars().collect::<Vec<char>>();
    for (text, pattern) in [
        ("aaa", "aa"),
        ("ababab", "aba"),
        ("abc", ""),
        ("", "a"),
        ("xaxbxc", "x"),
        ("abcabc", "abc"),
        ("aab", "ab"),
        ("tölkkitölkki ö", "ö"),
    ] {
        let expected = if pattern.is_empty() {
            text.to_string()
        } else {
            text.replace(pattern, "")
        };
        assert_eq!(remove_all(&chars(text), &chars(pattern)), chars(&expected), "{text:?}");
    }
}

#[test]
fn measures_among_words() {
    for word in ["", "5%", "%", "33cl", "cl", "500ml", "A", "1", "4,5", ",", "1,23"] {
        assert!(measure(word), "{word:?}");
    }
    for word in ["Karhu", "a", "11", "12,50", "ä,äé", "45", "cL", "A1"] {
        assert!(!measure(word), "{word:?}");
    }
}

fn by_the_standard_library(words: &Vec<String>, n: usize) -> HashSet<String> {
    let mut result = HashSet::new();
    if words.len() < n {
        return words.iter().map(|w| w.to_owned()).collect();
    }
    for i in 0..=words.len() - n {
        result.insert(words[i..i + n].join(" "));
    }
    result
}

#[test]
fn phrases_of_words() {
    let words = |s: &str| -> Vec<String> {
        s.split(' ').filter(|w| !w.is_empty()).map(|w| w.to_string()).collect()
    };
    assert_eq!(word_ngrams(&words("a b c"), 2), vec!["a b", "b c"]);
    assert_eq!(word_ngrams(&words("a b a b a"), 2), vec!["a b", "b a"]);
    assert_eq!(word_ngrams(&words("a b"), 3), vec!["a", "b"]);
    assert_eq!(word_ngrams(&words("a a"), 3), vec!["a"]);
    assert_eq!(word_ngrams(&words("a b"), 0), vec![""]);
    assert_eq!(word_ngrams(&words(""), 0), vec![""]);
    assert_eq!(word_ngrams(&words(""), 2), Vec::<String>::new());
    for text in ["", "a", "a b", "a b c d", "x x x x", "a b a b c a b"] {
        for n in 0..5 {
            let grams = word_ngrams(&words(text), n);
            let set: HashSet<String> = grams.iter().cloned().collect();
            assert_eq!(set.len(), grams.len());
            assert_eq!(set, by_the_standard_library(&words(text), n));
        }
    }
}

#[test]
fn sizes_of_intersection_and_union() {
    let set = |s: &str| -> Vec<String> { s.split(' ').filter(|w| !w.is_empty()).map(|w| w.to_string()).collect() };
    assert_eq!(jaccard_counts(&set("a b c"), &set("b c d e")), (2, 5));
    assert_eq!(jaccard_counts(&set(""), &set("")), (0, 0));
    assert_eq!(jaccard_counts(&set("a"), &set("")), (0, 1));
    assert_eq!(jaccard_counts(&set("a b"), &set("b a")), (2, 2));
    for (a, b) in [("a b c", "c d"), ("x", "y"), ("p q r s", "s r q p")] {
        let left: HashSet<String> = set(a).into_iter().collect();
        let right: HashSet<String> = set(b).into_iter().collect();
        let expected = (left.intersection(&right).count(), left.union(&right).count());
        assert_eq!(jaccard_counts(&set(a), &set(b)), expected);
    }
}
