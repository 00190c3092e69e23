//! Text helpers: lower case, and search for a word inside a text.

use vstd::prelude::*;
use vstd::string::StringExecFns;

verus! {

/// The lower-case form that `str::to_lowercase` of the standard library
/// gives for `text`, by the Unicode rules for lower case.
pub uninterp spec fn lowercase_of(text: Seq<char>) -> Seq<char>;

/// Calls `str::to_lowercase`. Trusted: the result is the lower-case form
/// named by [`lowercase_of`], which depends on the text alone.
#[verifier::external_body]
fn std_to_lowercase(text: &str) -> (lower: String)
    ensures
        lower@ == lowercase_of(text@),
{
    text.to_lowercase()
}

/// Whether `word` occurs in `text` as an unbroken run of characters,
/// starting at position `at`.
pub open spec fn occurs_at(word: Seq<char>, text: Seq<char>, at: int) -> bool {
    &&& 0 <= at
    &&& at + word.len() <= text.len()
    &&& text.subrange(at, at + word.len()) == word
}

/// Whether `word` occurs somewhere in `text`.
pub open spec fn occurs_in(word: Seq<char>, text: Seq<char>) -> bool {
    exists|at: int| occurs_at(word, text, at)
}

/// Whether one of `words` occurs somewhere in `text`.
pub open spec fn any_occurs_in(words: Seq<Seq<char>>, text: Seq<char>) -> bool {
    exists|k: int| 0 <= k < words.len() && occurs_in(#[trigger] words[k], text)
}

/// The characters of `text`, one by one.
pub fn chars_of(text: &str) -> (chars: Vec<char>)
    ensures
        chars@ == text@,
{
    let mut chars: Vec<char> = Vec::new();
    for c in it: text.chars()
        invariant
            it.seq() == text@,
            chars@ == text@.take(it.index() as int),
    {
        chars.push(c);
        assert(chars@ =~= text@.take(it.index() + 1));
    }
    assert(text@.take(text@.len() as int) =~= text@);
    chars
}

/// The characters of `text` in lower case.
pub fn lowercase_chars(text: &str) -> (chars: Vec<char>)
    ensures
        chars@ == lowercase_of(text@),
{
    let lower = std_to_lowercase(text);
    chars_of(lower.as_str())
}

/// Whether `word` stands in `text` at position `at`.
fn matches_at(word: &Vec<char>, text: &Vec<char>, at: usize) -> (b: bool)
    requires
        at + word@.len() <= text@.len(),
    ensures
        b == occurs_at(word@, text@, at as int),
{
    let text_len = text.len();
    let mut j: usize = 0;
    while j < word.len()
        invariant
            j <= word@.len(),
            at + word@.len() <= text@.len() == text_len,
            forall|k: int| 0 <= k < j ==> text@[at + k] == word@[k],
        decreases word@.len() - j,
    {
        if text[at + j] != word[j] {
            assert(text@.subrange(at as int, at + word@.len())[j as int] != word@[j as int]);
            return false;
        }
        j = j + 1;
    }
    assert(text@.subrange(at as int, at + word@.len()) =~= word@);
    true
}

/// Whether `word` occurs somewhere in `text`.
pub fn contains(text: &Vec<char>, word: &Vec<char>) -> (b: bool)
    ensures
        b == occurs_in(word@, text@),
{
    if word.len() > text.len() {
        assert(!occurs_in(word@, text@));
        return false;
    }
    let last: usize = text.len() - word.len();
    let mut at: usize = 0;
    while at < last
        invariant
            last == text@.len() - word@.len(),
            at <= last,
            forall|k: int| 0 <= k < at ==> !occurs_at(word@, text@, k),
        decreases last - at,
    {
        if matches_at(word, text, at) {
            return true;
        }
        at = at + 1;
    }
    let found = matches_at(word, text, last);
    assert(!found ==> !occurs_in(word@, text@));
    found
}

/// Whether the two texts hold the same characters.
pub fn same_chars(a: &Vec<char>, b: &Vec<char>) -> (same: bool)
    ensures
        same == (a@ == b@),
{
    if a.len() != b.len() {
        return false;
    }
    let mut i: usize = 0;
    while i < a.len()
        invariant
            a@.len() == b@.len(),
            i <= a@.len(),
            forall|k: int| 0 <= k < i ==> a@[k] == b@[k],
        decreases a@.len() - i,
    {
        if a[i] != b[i] {
            return false;
        }
        i = i + 1;
    }
    assert(a@ =~= b@);
    true
}

/// The texts of `words`, one for each.
pub open spec fn word_texts(words: Seq<Vec<char>>) -> Seq<Seq<char>> {
    words.map_values(|word: Vec<char>| word@)
}

/// The characters of each of `words`.
pub fn words_of(words: &Vec<&'static str>) -> (chars: Vec<Vec<char>>)
    ensures
        word_texts(chars@) == words@.map_values(|word: &'static str| word@),
{
    let mut chars: Vec<Vec<char>> = Vec::new();
    let mut k: usize = 0;
    while k < words.len()
        invariant
            k <= words@.len(),
            chars@.len() == k,
            forall|j: int| 0 <= j < k ==> (#[trigger] chars@[j])@ == words@[j]@,
        decreases words@.len() - k,
    {
        chars.push(chars_of(words[k]));
        k = k + 1;
    }
    assert(word_texts(chars@) =~= words@.map_values(|word: &'static str| word@));
    chars
}

/// Whether one of `words` occurs somewhere in `text`.
pub fn contains_any(text: &Vec<char>, words: &Vec<Vec<char>>) -> (b: bool)
    ensures
        b == any_occurs_in(word_texts(words@), text@),
{
    let mut k: usize = 0;
    while k < words.len()
        invariant
            k <= words@.len(),
            forall|j: int| 0 <= j < k ==> !occurs_in(#[trigger] word_texts(words@)[j], text@),
        decreases words@.len() - k,
    {
        if contains(text, &words[k]) {
            assert(occurs_in(word_texts(words@)[k as int], text@));
            return true;
        }
        k = k + 1;
    }
    false
}

/// The characters of `first`, a blank, and the characters of `second`.
pub fn joined_by_blank(first: Vec<char>, second: &Vec<char>) -> (joined: Vec<char>)
    ensures
        joined@ == first@ + seq![' '] + second@,
{
    let mut joined = first;
    let ghost start = joined@;
    joined.push(' ');
    let mut i: usize = 0;
    while i < second.len()
        invariant
            i <= second@.len(),
            joined@ == start + seq![' '] + second@.take(i as int),
        decreases second@.len() - i,
    {
        joined.push(second[i]);
        i = i + 1;
        assert(joined@ =~= start + seq![' '] + second@.take(i as int));
    }
    assert(second@.take(second@.len() as int) =~= second@);
    joined
}

/// The character for the digit `d`.
pub open spec fn digit_char(d: int) -> char {
    if d == 0 {
        '0'
    } else if d == 1 {
        '1'
    } else if d == 2 {
        '2'
    } else if d == 3 {
        '3'
    } else if d == 4 {
        '4'
    } else if d == 5 {
        '5'
    } else if d == 6 {
        '6'
    } else if d == 7 {
        '7'
    } else if d == 8 {
        '8'
    } else {
        '9'
    }
}

/// The digits of `n` in base ten, without leading zeros.
pub open spec fn decimal_digits(n: nat) -> Seq<char>
    decreases n,
{
    if n < 10 {
        seq![digit_char(n as int)]
    } else {
        decimal_digits(n / 10).push(digit_char((n % 10) as int))
    }
}

/// `n` written in base ten, with a minus sign in front where it is negative.
pub open spec fn decimal_text(n: int) -> Seq<char> {
    if n < 0 {
        seq!['-'] + decimal_digits((-n) as nat)
    } else {
        decimal_digits(n as nat)
    }
}

/// The characters for digits that were taken off a number from its end, put
/// back in reading order.
pub open spec fn digits_in_reading_order(taken: Seq<u8>) -> Seq<char> {
    Seq::new(taken.len(), |i: int| digit_char(taken[taken.len() - 1 - i] as int))
}

/// The text of one digit.
fn digit_text(d: u8) -> (text: &'static str)
    requires
        d < 10,
    ensures
        text@ == seq![digit_char(d as int)],
{
    proof {
        reveal_strlit("0");
        reveal_strlit("1");
        reveal_strlit("2");
        reveal_strlit("3");
        reveal_strlit("4");
        reveal_strlit("5");
        reveal_strlit("6");
        reveal_strlit("7");
        reveal_strlit("8");
        reveal_strlit("9");
    }
    let text = if d == 0 {
        "0"
    } else if d == 1 {
        "1"
    } else if d == 2 {
        "2"
    } else if d == 3 {
        "3"
    } else if d == 4 {
        "4"
    } else if d == 5 {
        "5"
    } else if d == 6 {
        "6"
    } else if d == 7 {
        "7"
    } else if d == 8 {
        "8"
    } else {
        "9"
    };
    assert(text@ =~= seq![digit_char(d as int)]);
    text
}

/// Writes `n` in base ten at the end of `text`.
pub fn append_decimal(text: &mut String, n: i64)
    ensures
        final(text)@ == old(text)@ + decimal_text(n as int),
{
    let ghost start = text@;
    let magnitude: u64 = if n < 0 {
        proof {
            reveal_strlit("-");
        }
        text.append("-");
        assert(text@ =~= start + seq!['-']);
        (-(n as i128)) as u64
    } else {
        assert(text@ =~= start + Seq::<char>::empty());
        n as u64
    };
    let ghost signed = text@;
    let mut taken: Vec<u8> = Vec::new();
    let mut rest: u64 = magnitude;
    assert(decimal_digits(rest as nat) + digits_in_reading_order(taken@) =~= decimal_digits(
        magnitude as nat,
    ));
    while rest >= 10
        invariant
            decimal_digits(magnitude as nat) == decimal_digits(rest as nat)
                + digits_in_reading_order(taken@),
            forall|k: int| 0 <= k < taken@.len() ==> taken@[k] < 10,
        decreases rest,
    {
        let ghost before = taken@;
        let d: u8 = (rest % 10) as u8;
        taken.push(d);
        proof {
            let shorter = decimal_digits((rest / 10) as nat);
            assert(decimal_digits(rest as nat) == shorter.push(digit_char(d as int)));
            assert(shorter + digits_in_reading_order(taken@) =~= shorter.push(digit_char(d as int))
                + digits_in_reading_order(before));
        }
        rest = rest / 10;
    }
    text.append(digit_text(rest as u8));
    let mut i: usize = taken.len();
    while i > 0
        invariant
            i <= taken@.len(),
            forall|k: int| 0 <= k < taken@.len() ==> taken@[k] < 10,
            text@ == signed + decimal_digits(rest as nat) + digits_in_reading_order(taken@).take(
                taken@.len() - i,
            ),
        decreases i,
    {
        i = i - 1;
        let ghost written = text@;
        text.append(digit_text(taken[i]));
        proof {
            let all = digits_in_reading_order(taken@);
            assert(all.take(taken@.len() - i) =~= all.take(taken@.len() - i - 1).push(
                digit_char(taken@[i as int] as int),
            ));
            assert(text@ =~= signed + decimal_digits(rest as nat) + all.take(taken@.len() - i));
        }
    }
    proof {
        let all = digits_in_reading_order(taken@);
        assert(all.take(taken@.len() as int) =~= all);
        assert(text@ =~= signed + decimal_digits(magnitude as nat));
        assert(text@ =~= start + decimal_text(n as int));
    }
}

} // verus!
