//! The words of a product's name that say what the product is, and the
//! phrases that are made of them.

use vstd::prelude::*;
use vstd::string::StringExecFns;
use crate::text::{chars_of, join, same_chars, split, split_text, text_of, texts};

verus! {

/// `s` without the occurrences of `pattern`, found from left to right, each
/// search starting behind the last occurrence. An empty pattern removes
/// nothing.
pub open spec fn without(s: Seq<char>, pattern: Seq<char>) -> Seq<char>
    decreases s.len(),
{
    if pattern.len() == 0 || s.len() < pattern.len() {
        s
    } else if s.take(pattern.len() as int) == pattern {
        without(s.skip(pattern.len() as int), pattern)
    } else {
        seq![s[0]] + without(s.skip(1), pattern)
    }
}

/// `s` without the occurrences of each of `patterns`, one pattern after the
/// other.
pub open spec fn without_all(s: Seq<char>, patterns: Seq<Seq<char>>) -> Seq<char>
    decreases patterns.len(),
{
    if patterns.len() == 0 {
        s
    } else {
        without(without_all(s, patterns.drop_last()), patterns.last())
    }
}

/// What in the name of a product says how it is packed and sold, not what it
/// is.
pub open spec fn packaging() -> Seq<Seq<char>> {
    seq![
        "Beer"@,
        "24-pack"@,
        "PET"@,
        "tölkki"@,
        "6-pack"@,
        "4-pack"@,
        "8-pack"@,
        "TIN"@,
        "PURK"@,
        "4 x 6-pack"@,
        "4 x 6 x 33cl"@,
        "9 x 2 cl"@,
        "24x50cl"@,
        "Export"@,
        "(4x)"@,
        "III"@,
    ]
}

/// The number of bytes of a character in UTF-8.
pub open spec fn utf8_width(c: char) -> nat {
    if (c as u32) < 0x80 {
        1
    } else if (c as u32) < 0x800 {
        2
    } else if (c as u32) < 0x10000 {
        3
    } else {
        4
    }
}

/// The number of bytes of a text in UTF-8.
pub open spec fn utf8_len(s: Seq<char>) -> nat
    decreases s.len(),
{
    if s.len() == 0 {
        0
    } else {
        utf8_len(s.drop_last()) + utf8_width(s.last())
    }
}

/// Whether `s` ends in `end`.
pub open spec fn ends_with(s: Seq<char>, end: Seq<char>) -> bool {
    s.len() >= end.len() && s.skip(s.len() - end.len()) == end
}

/// Whether a word of a product's name says nothing of what the product is:
/// a percentage, a volume, a lone `A` or `1`, a short number with a comma, or
/// nothing at all.
pub open spec fn is_measure(word: Seq<char>) -> bool {
    ||| ends_with(word, "%"@)
    ||| ends_with(word, "cl"@)
    ||| ends_with(word, "ml"@)
    ||| word == "A"@
    ||| word == "1"@
    ||| (utf8_len(word) < 5 && word.contains(','))
    ||| word.len() == 0
}

/// Of the words, those that are no measures.
pub open spec fn telling(words: Seq<Seq<char>>) -> Seq<Seq<char>>
    decreases words.len(),
{
    if words.len() == 0 {
        Seq::empty()
    } else if is_measure(words.last()) {
        telling(words.drop_last())
    } else {
        telling(words.drop_last()).push(words.last())
    }
}

/// The words of a product's name that say what the product is.
pub open spec fn product_words(name: Seq<char>) -> Seq<Seq<char>> {
    telling(split(without_all(name, packaging()), ' '))
}

fn occurs_at(s: &Vec<char>, at: usize, pattern: &Vec<char>) -> (found: bool)
    requires
        at + pattern@.len() <= s@.len(),
    ensures
        found == (s@.subrange(at as int, at + pattern@.len()) == pattern@),
{
    let n = s.len();
    let mut k: usize = 0;
    while k < pattern.len()
        invariant
            n == s@.len(),
            at + pattern@.len() <= s@.len(),
            k <= pattern@.len(),
            forall|j: int| 0 <= j < k ==> s@[at + j] == pattern@[j],
        decreases pattern@.len() - k,
    {
        if s[at + k] != pattern[k] {
            assert(s@.subrange(at as int, at + pattern@.len())[k as int] != pattern@[k as int]);
            return false;
        }
        k = k + 1;
    }
    assert(s@.subrange(at as int, at + pattern@.len()) =~= pattern@);
    true
}

/// Removes the occurrences of `pattern` from `s`.
pub fn remove_all(s: &Vec<char>, pattern: &Vec<char>) -> (rest: Vec<char>)
    ensures
        rest@ == without(s@, pattern@),
{
    let n = s.len();
    let m = pattern.len();
    let mut rest: Vec<char> = Vec::new();
    let mut i: usize = 0;
    assert(s@.skip(0) =~= s@);
    assert(Seq::<char>::empty() + without(s@, pattern@) =~= without(s@, pattern@));
    while i < n
        invariant
            n == s@.len(),
            m == pattern@.len(),
            i <= n,
            without(s@, pattern@) == rest@ + without(s@.skip(i as int), pattern@),
        decreases n - i,
    {
        let ghost left = s@.skip(i as int);
        let ghost before = rest@;
        if m > 0 && m <= n - i && occurs_at(s, i, pattern) {
            assert(left.take(m as int) =~= s@.subrange(i as int, i + m));
            assert(left.skip(m as int) =~= s@.skip(i + m));
            i = i + m;
        } else {
            proof {
                assert(left.skip(1) =~= s@.skip(i + 1));
                if m > 0 && m <= n - i {
                    assert(left.take(m as int) =~= s@.subrange(i as int, i + m));
                }
                if m == 0 || left.len() < m {
                    assert(without(left, pattern@) == left);
                    assert(without(left.skip(1), pattern@) == left.skip(1));
                    assert(left =~= seq![left[0]] + left.skip(1));
                }
                assert(without(left, pattern@) == seq![s@[i as int]] + without(
                    left.skip(1),
                    pattern@,
                ));
            }
            rest.push(s[i]);
            assert(before + (seq![s@[i as int]] + without(s@.skip(i + 1), pattern@)) =~= rest@
                + without(s@.skip(i + 1), pattern@));
            i = i + 1;
        }
    }
    assert(rest@ + without(s@.skip(n as int), pattern@) =~= rest@);
    rest
}

fn packaging_words() -> (words: Vec<&'static str>)
    ensures
        words@.len() == packaging().len(),
        forall|i: int| 0 <= i < words@.len() ==> (#[trigger] words@[i])@ == packaging()[i],
{
    let mut words: Vec<&'static str> = Vec::new();
    words.push("Beer");
    words.push("24-pack");
    words.push("PET");
    words.push("tölkki");
    words.push("6-pack");
    words.push("4-pack");
    words.push("8-pack");
    words.push("TIN");
    words.push("PURK");
    words.push("4 x 6-pack");
    words.push("4 x 6 x 33cl");
    words.push("9 x 2 cl");
    words.push("24x50cl");
    words.push("Export");
    words.push("(4x)");
    words.push("III");
    words
}

fn byte_len(word: &Vec<char>) -> (len: usize)
    requires
        word@.len() <= usize::MAX / 4,
    ensures
        len == utf8_len(word@),
{
    let mut len: usize = 0;
    let mut i: usize = 0;
    assert(word@.take(0) =~= Seq::<char>::empty());
    while i < word.len()
        invariant
            word@.len() <= usize::MAX / 4,
            i <= word@.len(),
            len == utf8_len(word@.take(i as int)),
            len <= 4 * i,
        decreases word@.len() - i,
    {
        let code: u32 = word[i] as u32;
        assert(word@.take(i + 1).drop_last() =~= word@.take(i as int));
        assert(word@.take(i + 1).last() == word@[i as int]);
        let width: usize = if code < 0x80 {
            1
        } else if code < 0x800 {
            2
        } else if code < 0x10000 {
            3
        } else {
            4
        };
        len = len + width;
        i = i + 1;
    }
    assert(word@.take(word@.len() as int) =~= word@);
    len
}

fn ends_in(word: &Vec<char>, end: &str) -> (found: bool)
    ensures
        found == ends_with(word@, end@),
{
    let tail = chars_of(end);
    if word.len() < tail.len() {
        return false;
    }
    let found = occurs_at(word, word.len() - tail.len(), &tail);
    assert(word@.subrange(word@.len() - tail@.len(), word@.len() as int) =~= word@.skip(
        word@.len() - tail@.len(),
    ));
    found
}

fn has_comma(word: &Vec<char>) -> (found: bool)
    ensures
        found == word@.contains(','),
{
    let mut i: usize = 0;
    while i < word.len()
        invariant
            i <= word@.len(),
            forall|j: int| 0 <= j < i ==> word@[j] != ',',
        decreases word@.len() - i,
    {
        if word[i] == ',' {
            return true;
        }
        i = i + 1;
    }
    false
}

/// Whether a word of a product's name is a measure.
pub fn measure(word: &str) -> (found: bool)
    ensures
        found == is_measure(word@),
{
    let chars = chars_of(word);
    if chars.len() == 0 {
        return true;
    }
    if ends_in(&chars, "%") || ends_in(&chars, "cl") || ends_in(&chars, "ml") {
        return true;
    }
    if same_chars(&chars, &chars_of("A")) || same_chars(&chars, &chars_of("1")) {
        return true;
    }
    if chars.len() < 5 {
        byte_len(&chars) < 5 && has_comma(&chars)
    } else {
        proof {
            lemma_utf8_len(chars@);
        }
        false
    }
}

/// A text has at least as many bytes as characters.
pub proof fn lemma_utf8_len(s: Seq<char>)
    ensures
        utf8_len(s) >= s.len(),
    decreases s.len(),
{
    if s.len() > 0 {
        lemma_utf8_len(s.drop_last());
    }
}

/// The words of the name of a product that say what the product is: the
/// name is stripped of what says how the product is packed, then split at
/// blanks, and the measures among the words are left out.
pub fn _strip_product_name(name: String) -> (words: Vec<String>)
    ensures
        texts(words@) == product_words(name@),
{
    let patterns = packaging_words();
    let mut stripped = chars_of(name.as_str());
    let mut p: usize = 0;
    assert(packaging().take(0) =~= Seq::<Seq<char>>::empty());
    while p < patterns.len()
        invariant
            patterns@.len() == packaging().len(),
            forall|i: int| 0 <= i < patterns@.len() ==> (#[trigger] patterns@[i])@ == packaging()[i],
            p <= patterns@.len(),
            stripped@ == without_all(name@, packaging().take(p as int)),
        decreases patterns@.len() - p,
    {
        let pattern = chars_of(patterns[p]);
        assert(packaging().take(p + 1).drop_last() =~= packaging().take(p as int));
        assert(packaging().take(p + 1).last() == packaging()[p as int]);
        stripped = remove_all(&stripped, &pattern);
        p = p + 1;
    }
    assert(packaging().take(packaging().len() as int) =~= packaging());
    let text = text_of(&stripped);
    let pieces = split_text(text.as_str(), ' ');
    let mut words: Vec<String> = Vec::new();
    let mut i: usize = 0;
    assert(texts(pieces@).take(0) =~= Seq::<Seq<char>>::empty());
    assert(texts(words@) =~= Seq::<Seq<char>>::empty());
    while i < pieces.len()
        invariant
            i <= pieces@.len(),
            texts(words@) == telling(texts(pieces@).take(i as int)),
        decreases pieces@.len() - i,
    {
        let ghost upto = texts(pieces@).take(i + 1);
        let ghost before = texts(words@);
        proof {
            assert(upto.drop_last() =~= texts(pieces@).take(i as int));
            assert(upto.last() == pieces@[i as int]@);
        }
        if !measure(pieces[i].as_str()) {
            words.push(pieces[i].clone());
            assert(texts(words@) =~= before.push(pieces@[i as int]@));
        }
        i = i + 1;
    }
    assert(texts(pieces@).take(pieces@.len() as int) =~= texts(pieces@));
    words
}

/// The number of phrases of `n` words that `words` gives: one for each place
/// at which `n` words in a row start, or, where there are fewer than `n`
/// words, one for each word.
pub open spec fn phrase_count(words: Seq<Seq<char>>, n: nat) -> nat {
    if words.len() < n {
        words.len()
    } else {
        (words.len() - n + 1) as nat
    }
}

/// The phrase at place `at`: the `n` words that start there, with a blank
/// between each two; or, where there are fewer than `n` words, the word
/// there.
pub open spec fn phrase(words: Seq<Seq<char>>, n: nat, at: int) -> Seq<char> {
    if words.len() < n {
        words[at]
    } else {
        join(words.subrange(at, at + n), " "@)
    }
}

/// The set of the phrases of `n` words.
pub open spec fn phrases(words: Seq<Seq<char>>, n: nat) -> Set<Seq<char>> {
    Set::new(
        |g: Seq<char>|
            exists|at: int| 0 <= at < phrase_count(words, n) && g == #[trigger] phrase(words, n, at),
    )
}

fn join_words(words: &Vec<String>, from: usize, to: usize) -> (text: String)
    requires
        from <= to <= words@.len(),
    ensures
        text@ == join(texts(words@).subrange(from as int, to as int), " "@),
{
    let mut text = String::new();
    let mut i: usize = from;
    let ghost all = texts(words@);
    assert(all.subrange(from as int, from as int) =~= Seq::<Seq<char>>::empty());
    while i < to
        invariant
            from <= i <= to <= words@.len(),
            all == texts(words@),
            text@ == join(all.subrange(from as int, i as int), " "@),
        decreases to - i,
    {
        let ghost before = text@;
        let ghost upto = all.subrange(from as int, i + 1);
        if i > from {
            text.append(" ");
        }
        text.append(words[i].as_str());
        proof {
            assert(upto.drop_last() =~= all.subrange(from as int, i as int));
            assert(upto.last() == words@[i as int]@);
            if i == from {
                assert(text@ =~= upto[0]);
            } else {
                assert(text@ =~= before + " "@ + upto.last());
            }
        }
        i = i + 1;
    }
    text
}

fn holds(grams: &Vec<String>, gram: &String) -> (found: bool)
    ensures
        found == texts(grams@).contains(gram@),
{
    let mut k: usize = 0;
    while k < grams.len()
        invariant
            k <= grams@.len(),
            forall|j: int| 0 <= j < k ==> texts(grams@)[j] != gram@,
        decreases grams@.len() - k,
    {
        assert(texts(grams@)[k as int] == grams@[k as int]@);
        if grams[k] == *gram {
            return true;
        }
        k = k + 1;
    }
    false
}

/// The distinct phrases of `n` words in a row that `words` gives, each once,
/// in the order in which they first occur. Fewer than `n` words give
/// themselves.
pub fn word_ngrams(words: &Vec<String>, n: usize) -> (grams: Vec<String>)
    ensures
        texts(grams@).to_set() == phrases(texts(words@), n as nat),
        texts(grams@).no_duplicates(),
{
    let ghost all = texts(words@);
    if n == 0 {
        let mut grams: Vec<String> = Vec::new();
        grams.push(String::new());
        proof {
            let found = texts(grams@);
            assert(found[0] == Seq::<char>::empty());
            assert forall|at: int| 0 <= at <= all.len() implies phrase(all, 0, at)
                == Seq::<char>::empty() by {
                assert(all.subrange(at, at + 0) =~= Seq::<Seq<char>>::empty());
            }
            assert forall|g: Seq<char>| found.to_set().contains(g) <==> phrases(all, 0).contains(
                g,
            ) by {
                if found.contains(g) {
                    assert(g == phrase(all, 0, 0));
                }
                if phrases(all, 0).contains(g) {
                    assert(found[0] == g);
                }
            }
            assert(found.to_set() =~= phrases(all, 0));
        }
        return grams;
    }
    let count: usize = if words.len() < n {
        words.len()
    } else {
        words.len() - n + 1
    };
    let mut grams: Vec<String> = Vec::new();
    let mut i: usize = 0;
    while i < count
        invariant
            all == texts(words@),
            count == phrase_count(all, n as nat),
            i <= count,
            texts(grams@).no_duplicates(),
            forall|k: int|
                0 <= k < grams@.len() ==> exists|at: int|
                    0 <= at < i && #[trigger] texts(grams@)[k] == phrase(all, n as nat, at),
            forall|at: int|
                0 <= at < i ==> texts(grams@).contains(#[trigger] phrase(all, n as nat, at)),
        decreases count - i,
    {
        let gram = if words.len() < n {
            assert(all[i as int] == words@[i as int]@);
            words[i].clone()
        } else {
            join_words(words, i, i + n)
        };
        assert(gram@ == phrase(all, n as nat, i as int));
        let ghost before = texts(grams@);
        if !holds(&grams, &gram) {
            grams.push(gram);
            proof {
                let now = texts(grams@);
                assert(now =~= before.push(gram@));
                assert(now[now.len() - 1] == gram@);
                assert forall|k: int| 0 <= k < now.len() implies exists|at: int|
                    0 <= at < i + 1 && #[trigger] now[k] == phrase(all, n as nat, at) by {
                    if k < before.len() {
                        assert(now[k] == before[k]);
                        let at = choose|at: int|
                            0 <= at < i && before[k] == phrase(all, n as nat, at);
                        assert(now[k] == phrase(all, n as nat, at));
                    } else {
                        assert(now[k] == phrase(all, n as nat, i as int));
                    }
                }
                assert forall|at: int| 0 <= at < i + 1 implies now.contains(
                    #[trigger] phrase(all, n as nat, at),
                ) by {
                    if at < i {
                        let k = choose|k: int|
                            0 <= k < before.len() && before[k] == phrase(all, n as nat, at);
                        assert(now[k] == phrase(all, n as nat, at));
                    } else {
                        assert(now[now.len() - 1] == phrase(all, n as nat, at));
                    }
                }
            }
        } else {
            proof {
                assert forall|k: int| 0 <= k < before.len() implies exists|at: int|
                    0 <= at < i + 1 && #[trigger] before[k] == phrase(all, n as nat, at) by {
                    let at = choose|at: int| 0 <= at < i && before[k] == phrase(all, n as nat, at);
                    assert(before[k] == phrase(all, n as nat, at));
                }
            }
        }
        i = i + 1;
    }
    proof {
        let found = texts(grams@);
        assert forall|g: Seq<char>| found.to_set().contains(g) <==> phrases(
            all,
            n as nat,
        ).contains(g) by {
            if found.contains(g) {
                let k = choose|k: int| 0 <= k < found.len() && found[k] == g;
                let at = choose|at: int| 0 <= at < i && found[k] == phrase(all, n as nat, at);
                assert(g == phrase(all, n as nat, at));
            }
            if phrases(all, n as nat).contains(g) {
                let at = choose|at: int|
                    0 <= at < phrase_count(all, n as nat) && g == phrase(all, n as nat, at);
                assert(found.contains(phrase(all, n as nat, at)));
            }
        }
        assert(found.to_set() =~= phrases(all, n as nat));
    }
    grams
}

/// The number of the phrases of `a` that are also among `b`.
pub open spec fn shared(a: Seq<Seq<char>>, b: Seq<Seq<char>>) -> nat
    decreases a.len(),
{
    if a.len() == 0 {
        0
    } else {
        shared(a.drop_last(), b) + if b.contains(a.last()) {
            1nat
        } else {
            0nat
        }
    }
}

/// The sizes of the intersection and of the union of two collections of
/// phrases in which no phrase occurs twice: the two numbers whose ratio is
/// the similarity of Jaccard.
pub fn jaccard_counts(a: &Vec<String>, b: &Vec<String>) -> (counts: (usize, usize))
    requires
        a@.len() + b@.len() <= usize::MAX,
    ensures
        counts.0 == shared(texts(a@), texts(b@)),
        counts.1 == a@.len() + b@.len() - shared(texts(a@), texts(b@)),
        counts.0 <= a@.len(),
{
    let mut common: usize = 0;
    let mut i: usize = 0;
    assert(texts(a@).take(0) =~= Seq::<Seq<char>>::empty());
    while i < a.len()
        invariant
            i <= a@.len(),
            common <= i,
            common == shared(texts(a@).take(i as int), texts(b@)),
        decreases a@.len() - i,
    {
        assert(texts(a@).take(i + 1).drop_last() =~= texts(a@).take(i as int));
        assert(texts(a@).take(i + 1).last() == a@[i as int]@);
        if holds(b, &a[i]) {
            common = common + 1;
        }
        i = i + 1;
    }
    assert(texts(a@).take(a@.len() as int) =~= texts(a@));
    (common, a.len() - common + b.len())
}

} // verus!
