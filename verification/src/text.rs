//! Helpers on text: strings are modelled as sequences of characters.

use std::collections::VecDeque;
use vstd::prelude::*;
use vstd::string::{StrSliceExecFns, StringExecFns};

verus! {

/// The characters of an optional string.
pub open spec fn opt_text(o: Option<String>) -> Option<Seq<char>> {
    match o {
        Some(s) => Some(s@),
        None => None,
    }
}

/// Whether two optional strings hold the same characters.
pub fn same_opt_text(a: &Option<String>, b: &Option<String>) -> (same: bool)
    ensures
        same == (opt_text(*a) == opt_text(*b)),
{
    match a {
        Some(x) => match b {
            Some(y) => *x == *y,
            None => false,
        },
        None => b.is_none(),
    }
}

/// The characters of a string, one by one.
pub fn chars_of(s: &str) -> (chars: Vec<char>)
    ensures
        chars@ == s@,
{
    let mut chars: Vec<char> = Vec::new();
    for c in it: s.chars()
        invariant
            it.seq() == s@,
            chars@ == it.seq().take(it.index() as int),
    {
        chars.push(c);
        assert(it.seq().take(it.index() + 1) =~= it.seq().take(it.index() as int).push(c));
    }
    assert(chars@ =~= s@);
    chars
}

/// The character that stands for the digit `d`.
pub open spec fn digit(d: int) -> char {
    if d == 0 {
        '0'
    } else if d == 1 {
        '1'
    } else if d == 2 {
        '2'
    } else if d == 3 {
        '3'
    } else if d == 4 {
        '4'
    } else if d == 5 {
        '5'
    } else if d == 6 {
        '6'
    } else if d == 7 {
        '7'
    } else if d == 8 {
        '8'
    } else {
        '9'
    }
}

/// A natural number in decimal notation, without leading zeros.
pub open spec fn decimal_nat(n: nat) -> Seq<char>
    decreases n,
{
    if n < 10 {
        seq![digit(n as int)]
    } else {
        decimal_nat(n / 10).push(digit((n % 10) as int))
    }
}

/// An integer in decimal notation: a minus sign where it is negative, then
/// its magnitude.
pub open spec fn decimal(n: int) -> Seq<char> {
    if n < 0 {
        seq!['-'] + decimal_nat((-n) as nat)
    } else {
        decimal_nat(n as nat)
    }
}

fn digit_text(d: u64) -> (text: &'static str)
    requires
        d < 10,
    ensures
        text@ == seq![digit(d as int)],
{
    proof {
        reveal_strlit("0");
        reveal_strlit("1");
        reveal_strlit("2");
        reveal_strlit("3");
        reveal_strlit("4");
        reveal_strlit("5");
        reveal_strlit("6");
        reveal_strlit("7");
        reveal_strlit("8");
        reveal_strlit("9");
    }
    let text = if d == 0 {
        "0"
    } else if d == 1 {
        "1"
    } else if d == 2 {
        "2"
    } else if d == 3 {
        "3"
    } else if d == 4 {
        "4"
    } else if d == 5 {
        "5"
    } else if d == 6 {
        "6"
    } else if d == 7 {
        "7"
    } else if d == 8 {
        "8"
    } else {
        "9"
    };
    assert(text@ =~= seq![digit(d as int)]);
    text
}

/// Appends the decimal notation of `n` to `out`.
fn append_decimal_nat(out: &mut String, n: u64)
    ensures
        final(out)@ == old(out)@ + decimal_nat(n as nat),
    decreases n,
{
    if n < 10 {
        out.append(digit_text(n));
    } else {
        append_decimal_nat(out, n / 10);
        out.append(digit_text(n % 10));
        assert(old(out)@ + decimal_nat((n / 10) as nat) + seq![digit((n % 10) as int)] =~= old(
            out,
        )@ + decimal_nat(n as nat));
    }
}

/// The decimal notation of `n`.
pub fn decimal_u64(n: u64) -> (text: String)
    ensures
        text@ == decimal(n as int),
{
    let mut text = String::new();
    append_decimal_nat(&mut text, n);
    assert(Seq::<char>::empty() + decimal_nat(n as nat) =~= decimal_nat(n as nat));
    text
}

/// The decimal notation of `n`.
pub fn decimal_i64(n: i64) -> (text: String)
    ensures
        text@ == decimal(n as int),
{
    if n < 0 {
        let magnitude: u64 = if n == i64::MIN {
            9223372036854775808u64
        } else {
            (-n) as u64
        };
        let mut text = String::from_str("-");
        proof {
            reveal_strlit("-");
        }
        append_decimal_nat(&mut text, magnitude);
        assert(text@ =~= seq!['-'] + decimal_nat((-n) as nat));
        text
    } else {
        decimal_u64(n as u64)
    }
}

/// Whether two sequences of characters are the same.
pub fn same_chars(a: &Vec<char>, b: &Vec<char>) -> (same: bool)
    ensures
        same == (a@ == b@),
{
    if a.len() != b.len() {
        return false;
    }
    let mut i: usize = 0;
    while i < a.len()
        invariant
            a@.len() == b@.len(),
            i <= a@.len(),
            forall|j: int| 0 <= j < i ==> a@[j] == b@[j],
        decreases a@.len() - i,
    {
        if a[i] != b[i] {
            return false;
        }
        i = i + 1;
    }
    assert(a@ =~= b@);
    true
}

/// Whether two texts are the same.
pub fn same_text(a: &str, b: &str) -> (same: bool)
    ensures
        same == (a@ == b@),
{
    let left = chars_of(a);
    let right = chars_of(b);
    same_chars(&left, &right)
}

/// The characters of each of a sequence of strings.
pub open spec fn texts(strings: Seq<String>) -> Seq<Seq<char>> {
    Seq::new(strings.len(), |i: int| strings[i]@)
}

/// The pieces of `s` between the occurrences of `sep`: a separator ends a
/// piece and opens the next, any other character belongs to the piece that is
/// open. There is always at least one piece, and pieces may be empty.
pub open spec fn split(s: Seq<char>, sep: char) -> Seq<Seq<char>>
    decreases s.len(),
{
    if s.len() == 0 {
        seq![Seq::empty()]
    } else {
        let before = split(s.drop_last(), sep);
        if s.last() == sep {
            before.push(Seq::empty())
        } else {
            before.drop_last().push(before.last().push(s.last()))
        }
    }
}

/// The pieces put together again, with `sep` between each two.
pub open spec fn join(pieces: Seq<Seq<char>>, sep: Seq<char>) -> Seq<char>
    decreases pieces.len(),
{
    if pieces.len() == 0 {
        Seq::empty()
    } else if pieces.len() == 1 {
        pieces[0]
    } else {
        join(pieces.drop_last(), sep) + sep + pieces.last()
    }
}

/// Splitting loses nothing and leaves no separator: the pieces hold no
/// separator, and joined by the separator they give the text back. No other
/// sequence of pieces does both.
pub proof fn law_split_join(s: Seq<char>, sep: char)
    ensures
        split(s, sep).len() >= 1,
        forall|i: int, j: int|
            0 <= i < split(s, sep).len() && 0 <= j < split(s, sep)[i].len() ==> split(
                s,
                sep,
            )[i][j] != sep,
        join(split(s, sep), seq![sep]) == s,
    decreases s.len(),
{
    if s.len() == 0 {
        assert(join(split(s, sep), seq![sep]) =~= s);
    } else {
        let before = split(s.drop_last(), sep);
        law_split_join(s.drop_last(), sep);
        let now = split(s, sep);
        if s.last() == sep {
            assert(now.drop_last() =~= before);
            assert(join(now, seq![sep]) =~= s.drop_last() + seq![sep] + Seq::<char>::empty());
            assert(s.drop_last() + seq![sep] + Seq::<char>::empty() =~= s);
        } else {
            let grown = before.last().push(s.last());
            assert(now.last() == grown);
            if before.len() == 1 {
                assert(before[0] == s.drop_last());
                assert(join(now, seq![sep]) =~= s);
            } else {
                assert(now.drop_last() =~= before.drop_last());
                assert(join(before, seq![sep]) == join(before.drop_last(), seq![sep]) + seq![sep]
                    + before.last());
                assert(join(now, seq![sep]) =~= join(before.drop_last(), seq![sep]) + seq![sep]
                    + grown);
                assert(join(before.drop_last(), seq![sep]) + seq![sep] + grown =~= (join(
                    before.drop_last(),
                    seq![sep],
                ) + seq![sep] + before.last()).push(s.last()));
                assert(s.drop_last().push(s.last()) =~= s);
            }
        }
    }
}

/// Splits `s` at each occurrence of `sep`.
pub fn split_text(s: &str, sep: char) -> (pieces: Vec<String>)
    ensures
        texts(pieces@) == split(s@, sep),
{
    let chars = chars_of(s);
    let mut pieces: Vec<String> = Vec::new();
    let mut start: usize = 0;
    let mut i: usize = 0;
    assert(s@.take(0) =~= Seq::<char>::empty());
    assert(texts(pieces@).push(s@.subrange(0, 0)) =~= split(s@.take(0), sep));
    while i < chars.len()
        invariant
            chars@ == s@,
            start <= i <= s@.len(),
            split(s@.take(i as int), sep) == texts(pieces@).push(
                s@.subrange(start as int, i as int),
            ),
        decreases s@.len() - i,
    {
        let ghost before = split(s@.take(i as int), sep);
        assert(s@.take(i + 1).drop_last() =~= s@.take(i as int));
        assert(s@.take(i + 1).last() == s@[i as int]);
        if chars[i] == sep {
            let piece = s.substring_char(start, i);
            let ghost done = texts(pieces@);
            pieces.push(String::from_str(piece));
            start = i + 1;
            assert(texts(pieces@) =~= done.push(piece@));
            assert(s@.subrange(start as int, i + 1) =~= Seq::<char>::empty());
        } else {
            assert(before.drop_last() =~= texts(pieces@));
            assert(before.last().push(s@[i as int]) =~= s@.subrange(start as int, i + 1));
        }
        i = i + 1;
    }
    assert(s@.take(s@.len() as int) =~= s@);
    let piece = s.substring_char(start, i);
    let ghost done = texts(pieces@);
    pieces.push(String::from_str(piece));
    assert(texts(pieces@) =~= done.push(piece@));
    pieces
}

/// Whether `c` is a decimal digit.
pub open spec fn is_digit(c: char) -> bool {
    '0' <= c <= '9'
}

/// Whether `s` holds decimal digits only.
pub open spec fn all_digits(s: Seq<char>) -> bool {
    forall|i: int| 0 <= i < s.len() ==> is_digit(#[trigger] s[i])
}

/// The number that a sequence of digits stands for.
pub open spec fn digits_value(s: Seq<char>) -> int
    decreases s.len(),
{
    if s.len() == 0 {
        0
    } else {
        digits_value(s.drop_last()) * 10 + (s.last() as int - '0' as int)
    }
}

/// The integer that `s` stands for: an optional sign, then one digit or more.
pub open spec fn integer(s: Seq<char>) -> Option<int> {
    let signed = s.len() > 0 && (s[0] == '-' || s[0] == '+');
    let digits = if signed {
        s.skip(1)
    } else {
        s
    };
    if digits.len() > 0 && all_digits(digits) {
        if signed && s[0] == '-' {
            Some(-digits_value(digits))
        } else {
            Some(digits_value(digits))
        }
    } else {
        None
    }
}

/// The 32-bit integer that `s` stands for, if it stands for one.
pub open spec fn integer_i32(s: Seq<char>) -> Option<i32> {
    match integer(s) {
        Some(v) => if i32::MIN <= v <= i32::MAX {
            Some(v as i32)
        } else {
            None
        },
        None => None,
    }
}

/// Reads a 32-bit integer in decimal notation: an optional sign and at least
/// one digit, nothing before, between or after, and a value in range.
pub fn parse_i32(s: &str) -> (value: Option<i32>)
    ensures
        value == integer_i32(s@),
{
    let chars = chars_of(s);
    let n = chars.len();
    if n == 0 {
        return None;
    }
    let negative = chars[0] == '-';
    let first: usize = if chars[0] == '-' || chars[0] == '+' {
        1
    } else {
        0
    };
    if first == n {
        return None;
    }
    let ghost digits = s@.skip(first as int);
    assert(s@.skip(0) =~= s@);
    assert(digits.len() == n - first);
    let mut acc: i64 = 0;
    let mut i: usize = first;
    assert(digits.take(0) =~= Seq::<char>::empty());
    while i < n
        invariant
            chars@ == s@,
            n == s@.len(),
            first <= i <= n,
            digits == s@.skip(first as int),
            digits.len() == n - first,
            digits == if s@.len() > 0 && (s@[0] == '-' || s@[0] == '+') {
                s@.skip(1)
            } else {
                s@
            },
            forall|j: int| 0 <= j < i - first ==> is_digit(#[trigger] digits[j]),
            0 <= acc <= 2147483649,
            acc == if digits_value(digits.take(i - first)) <= 2147483649 {
                digits_value(digits.take(i - first))
            } else {
                2147483649
            },
            digits_value(digits.take(i - first)) >= 0,
        decreases n - i,
    {
        let c = chars[i];
        assert(digits[i - first] == c);
        if !(c >= '0' && c <= '9') {
            assert(!is_digit(digits[i - first]));
            assert(!all_digits(digits));
            return None;
        }
        let d: i64 = (c as u32 - '0' as u32) as i64;
        assert(digits.take(i - first + 1).drop_last() =~= digits.take(i - first));
        assert(digits.take(i - first + 1).last() == c);
        let grown: i64 = acc * 10 + d;
        acc = if grown > 2147483649 {
            2147483649
        } else {
            grown
        };
        i = i + 1;
    }
    assert(digits.take(digits.len() as int) =~= digits);
    if negative {
        if acc <= 2147483648 {
            Some((-acc) as i32)
        } else {
            None
        }
    } else {
        if acc <= 2147483647 {
            Some(acc as i32)
        } else {
            None
        }
    }
}

/// Whether `c` is white space: a character with the Unicode property
/// `White_Space`.
pub open spec fn is_space(c: char) -> bool {
    let code = c as u32;
    ||| 0x0009 <= code <= 0x000D
    ||| code == 0x0020
    ||| code == 0x0085
    ||| code == 0x00A0
    ||| code == 0x1680
    ||| 0x2000 <= code <= 0x200A
    ||| code == 0x2028
    ||| code == 0x2029
    ||| code == 0x202F
    ||| code == 0x205F
    ||| code == 0x3000
}

/// Whether `c` is white space.
pub fn is_whitespace(c: char) -> (space: bool)
    ensures
        space == is_space(c),
{
    let code: u32 = c as u32;
    (0x0009 <= code && code <= 0x000D) || code == 0x0020 || code == 0x0085 || code == 0x00A0
        || code == 0x1680 || (0x2000 <= code && code <= 0x200A) || code == 0x2028 || code
        == 0x2029 || code == 0x202F || code == 0x205F || code == 0x3000
}

/// `s` without the white space at its start.
pub open spec fn trimmed_start(s: Seq<char>) -> Seq<char>
    decreases s.len(),
{
    if s.len() > 0 && is_space(s[0]) {
        trimmed_start(s.skip(1))
    } else {
        s
    }
}

/// `s` without the white space at its end.
pub open spec fn trimmed_end(s: Seq<char>) -> Seq<char>
    decreases s.len(),
{
    if s.len() > 0 && is_space(s.last()) {
        trimmed_end(s.drop_last())
    } else {
        s
    }
}

/// `s` without the white space at its start and at its end.
pub open spec fn trimmed(s: Seq<char>) -> Seq<char> {
    trimmed_end(trimmed_start(s))
}

/// The text without the white space at its start and at its end.
pub fn trim_text(s: &str) -> (text: String)
    ensures
        text@ == trimmed(s@),
{
    let chars = chars_of(s);
    let n = chars.len();
    let mut i: usize = 0;
    assert(s@.skip(0) =~= s@);
    while i < n && is_whitespace(chars[i])
        invariant
            chars@ == s@,
            n == s@.len(),
            i <= n,
            trimmed_start(s@) == trimmed_start(s@.skip(i as int)),
        decreases n - i,
    {
        assert(s@.skip(i as int).skip(1) =~= s@.skip(i + 1));
        i = i + 1;
    }
    assert(trimmed_start(s@) == s@.skip(i as int));
    let ghost rest = s@.skip(i as int);
    let mut j: usize = n;
    assert(rest.take(rest.len() as int) =~= rest);
    while j > i && is_whitespace(chars[j - 1])
        invariant
            chars@ == s@,
            n == s@.len(),
            i <= j <= n,
            rest == s@.skip(i as int),
            trimmed_end(rest) == trimmed_end(rest.take(j - i)),
        decreases j - i,
    {
        assert(rest.take(j - i).last() == s@[j - 1]);
        assert(rest.take(j - i).drop_last() =~= rest.take(j - i - 1));
        j = j - 1;
    }
    proof {
        if j > i {
            assert(rest.take(j - i).last() == s@[j - 1]);
        }
        assert(trimmed_end(rest) == rest.take(j - i));
        assert(rest.take(j - i) =~= s@.subrange(i as int, j as int));
    }
    String::from_str(s.substring_char(i, j))
}

/// Of the pieces, trimmed, those that are not empty.
pub open spec fn kept(pieces: Seq<Seq<char>>) -> Seq<Seq<char>>
    decreases pieces.len(),
{
    if pieces.len() == 0 {
        Seq::empty()
    } else if trimmed(pieces.last()).len() == 0 {
        kept(pieces.drop_last())
    } else {
        kept(pieces.drop_last()).push(trimmed(pieces.last()))
    }
}

/// The entries of a list that is written with `sep` between its entries:
/// each entry without the white space around it, and no empty entry.
pub fn list_entries(s: &str, sep: char) -> (entries: Vec<String>)
    ensures
        texts(entries@) == kept(split(s@, sep)),
{
    let pieces = split_text(s, sep);
    let mut entries: Vec<String> = Vec::new();
    let mut i: usize = 0;
    assert(texts(pieces@).take(0) =~= Seq::<Seq<char>>::empty());
    assert(texts(entries@) =~= Seq::<Seq<char>>::empty());
    while i < pieces.len()
        invariant
            i <= pieces@.len(),
            texts(entries@) == kept(texts(pieces@).take(i as int)),
        decreases pieces@.len() - i,
    {
        let entry = trim_text(pieces[i].as_str());
        let ghost upto = texts(pieces@).take(i + 1);
        let ghost before = texts(entries@);
        proof {
            assert(upto.drop_last() =~= texts(pieces@).take(i as int));
            assert(upto.last() == pieces@[i as int]@);
        }
        if entry.as_str().unicode_len() > 0 {
            entries.push(entry);
            assert(texts(entries@) =~= before.push(entry@));
        }
        i = i + 1;
    }
    assert(texts(pieces@).take(pieces@.len() as int) =~= texts(pieces@));
    entries
}

/// Appends `c` to `s`, as `String::push` does.
#[verifier::external_body]
pub(crate) fn push_char(s: &mut String, c: char)
    ensures
        final(s)@ == old(s)@.push(c),
{
    s.push(c);
}

/// The string that holds `chars`.
pub fn text_of(chars: &Vec<char>) -> (text: String)
    ensures
        text@ == chars@,
{
    let mut text = String::new();
    let mut i: usize = 0;
    while i < chars.len()
        invariant
            i <= chars@.len(),
            text@ == chars@.take(i as int),
        decreases chars@.len() - i,
    {
        push_char(&mut text, chars[i]);
        assert(chars@.take(i + 1) =~= chars@.take(i as int).push(chars@[i as int]));
        i = i + 1;
    }
    assert(chars@.take(chars@.len() as int) =~= chars@);
    text
}

/// The pieces of a text that ends in a run without separators: the run
/// belongs to the last piece.
pub proof fn lemma_split_append(s: Seq<char>, run: Seq<char>, sep: char)
    requires
        !run.contains(sep),
    ensures
        split(s, sep).len() >= 1,
        split(s + run, sep) == split(s, sep).drop_last().push(split(s, sep).last() + run),
    decreases run.len(),
{
    law_split_join(s, sep);
    let pieces = split(s, sep);
    if run.len() == 0 {
        assert(s + run =~= s);
        assert(pieces.last() + run =~= pieces.last());
        assert(pieces.drop_last().push(pieces.last()) =~= pieces);
    } else {
        let shorter = run.drop_last();
        assert forall|i: int| 0 <= i < shorter.len() implies shorter[i] != sep by {
            assert(run[i] == shorter[i]);
            assert(run.contains(run[i]));
        }
        assert(!shorter.contains(sep));
        lemma_split_append(s, shorter, sep);
        assert((s + run).drop_last() =~= s + shorter);
        assert((s + run).last() == run.last());
        assert(run.contains(run.last()));
        let before = split(s + shorter, sep);
        assert(before.last() == pieces.last() + shorter);
        assert(before.drop_last() =~= pieces.drop_last());
        assert((pieces.last() + shorter).push(run.last()) =~= pieces.last() + run);
    }
}

/// Joining and splitting undo each other: pieces that hold no separator, and
/// of which there is at least one, are what their joined text is split into.
pub proof fn law_split_of_joined(pieces: Seq<Seq<char>>, sep: char)
    requires
        pieces.len() >= 1,
        forall|i: int| 0 <= i < pieces.len() ==> !(#[trigger] pieces[i]).contains(sep),
    ensures
        split(join(pieces, seq![sep]), sep) == pieces,
    decreases pieces.len(),
{
    if pieces.len() == 1 {
        lemma_split_append(Seq::empty(), pieces[0], sep);
        assert(Seq::<char>::empty() + pieces[0] =~= pieces[0]);
        assert(split(Seq::<char>::empty(), sep) =~= seq![Seq::<char>::empty()]);
        assert(split(pieces[0], sep) =~= pieces);
    } else {
        let front = pieces.drop_last();
        assert forall|i: int| 0 <= i < front.len() implies !(#[trigger] front[i]).contains(
            sep,
        ) by {
            assert(front[i] == pieces[i]);
        }
        law_split_of_joined(front, sep);
        let joined = join(front, seq![sep]);
        let ended = joined + seq![sep];
        assert(ended.drop_last() =~= joined);
        assert(ended.last() == sep);
        assert(split(ended, sep) == front.push(Seq::<char>::empty()));
        lemma_split_append(ended, pieces.last(), sep);
        assert(front.push(Seq::<char>::empty()).drop_last() =~= front);
        assert(Seq::<char>::empty() + pieces.last() =~= pieces.last());
        assert(front.push(pieces.last()) =~= pieces);
        assert(join(pieces, seq![sep]) == ended + pieces.last());
    }
}

/// The decimal notation of a natural number holds digits only, at least one,
/// and stands for the number.
pub proof fn lemma_decimal_nat(n: nat)
    ensures
        decimal_nat(n).len() >= 1,
        all_digits(decimal_nat(n)),
        digits_value(decimal_nat(n)) == n,
    decreases n,
{
    if n < 10 {
        let text = decimal_nat(n);
        assert(text.drop_last() =~= Seq::<char>::empty());
        assert(text.last() == digit(n as int));
        assert(digit(n as int) as int - '0' as int == n);
        assert(digits_value(text.drop_last()) == 0);
        assert(digits_value(text) == digits_value(text.drop_last()) * 10 + (text.last() as int
            - '0' as int));
    } else {
        lemma_decimal_nat(n / 10);
        let front = decimal_nat(n / 10);
        let text = decimal_nat(n);
        assert(text.drop_last() =~= front);
        assert(text.last() == digit((n % 10) as int));
        assert(digit((n % 10) as int) as int - '0' as int == n % 10);
        assert(digits_value(text) == digits_value(text.drop_last()) * 10 + (text.last() as int
            - '0' as int));
        assert forall|i: int| 0 <= i < text.len() implies is_digit(#[trigger] text[i]) by {
            if i < front.len() {
                assert(text[i] == front[i]);
            }
        }
    }
}

/// What is written in decimal notation is read back as it was.
pub proof fn law_decimal_is_read_back(n: int)
    ensures
        integer(decimal(n)) == Some(n),
        forall|i: int|
            0 <= i < decimal(n).len() ==> is_digit(#[trigger] decimal(n)[i]) || decimal(n)[i]
                == '-',
{
    if n < 0 {
        lemma_decimal_nat((-n) as nat);
        let digits = decimal_nat((-n) as nat);
        let text = decimal(n);
        assert(text[0] == '-');
        assert(text.skip(1) =~= digits);
        assert forall|i: int| 0 <= i < text.len() implies is_digit(#[trigger] text[i]) || text[i]
            == '-' by {
            if i > 0 {
                assert(text[i] == digits[i - 1]);
            }
        }
    } else {
        lemma_decimal_nat(n as nat);
        let text = decimal(n);
        assert(is_digit(text[0]));
    }
}

/// A character that is in none of the pieces and not in what joins them is
/// not in the joined text.
pub proof fn lemma_join_lacks(pieces: Seq<Seq<char>>, sep: Seq<char>, c: char)
    requires
        !sep.contains(c),
        forall|i: int| 0 <= i < pieces.len() ==> !(#[trigger] pieces[i]).contains(c),
    ensures
        !join(pieces, sep).contains(c),
    decreases pieces.len(),
{
    if pieces.len() == 0 {
    } else if pieces.len() == 1 {
    } else {
        let front = pieces.drop_last();
        assert forall|i: int| 0 <= i < front.len() implies !(#[trigger] front[i]).contains(c) by {
            assert(front[i] == pieces[i]);
        }
        lemma_join_lacks(front, sep, c);
        let joined = join(pieces, sep);
        let head = join(front, sep);
        assert forall|i: int| 0 <= i < joined.len() implies joined[i] != c by {
            if i < head.len() {
                assert(head.contains(head[i]));
            } else if i < head.len() + sep.len() {
                assert(sep.contains(sep[i - head.len()]));
            } else {
                let last = pieces.last();
                assert(last.contains(last[i - head.len() - sep.len()]));
            }
        }
    }
}

/// Splits `s` at each occurrence of `sep`, into a queue of the pieces.
pub fn split_deque(s: &str, sep: char) -> (pieces: VecDeque<String>)
    ensures
        texts(pieces@) == split(s@, sep),
{
    let found = split_text(s, sep);
    let mut pieces: VecDeque<String> = VecDeque::new();
    let mut i: usize = 0;
    while i < found.len()
        invariant
            i <= found@.len(),
            pieces@ == found@.take(i as int),
        decreases found@.len() - i,
    {
        pieces.push_back(found[i].clone());
        assert(pieces@ =~= found@.take(i + 1));
        i = i + 1;
    }
    assert(found@.take(found@.len() as int) =~= found@);
    pieces
}

/// The strings of a queue, in their order.
pub fn strings_of(queue: &VecDeque<String>) -> (strings: Vec<String>)
    ensures
        strings@ == queue@,
{
    let mut strings: Vec<String> = Vec::new();
    let mut i: usize = 0;
    while i < queue.len()
        invariant
            i <= queue@.len(),
            strings@ == queue@.take(i as int),
        decreases queue@.len() - i,
    {
        strings.push(queue[i].clone());
        assert(strings@ =~= queue@.take(i + 1));
        i = i + 1;
    }
    assert(queue@.take(queue@.len() as int) =~= queue@);
    strings
}

} // verus!
