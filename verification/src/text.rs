//! Text helpers: decimal numbers, prefixes, searching and cutting.

use vstd::prelude::*;

verus! {

/// `String::push` appends one character at the end of the string.
pub assume_specification[ String::push ](s: &mut String, c: char)
    ensures
        final(s)@ == old(s)@.push(c),
;

/// The character of one decimal digit.
pub open spec fn digit_char(d: int) -> char {
    (d + 48) as char
}

/// Whether a character is one of `0` to `9`.
pub open spec fn is_digit(c: char) -> bool {
    '0' <= c <= '9'
}

/// The value of one decimal digit character.
pub open spec fn digit_value(c: char) -> nat {
    (c as int - 48) as nat
}

/// The shortest decimal form of a natural number.
pub open spec fn decimal(n: nat) -> Seq<char>
    decreases n,
{
    if n < 10 {
        seq![digit_char(n as int)]
    } else {
        decimal(n / 10).push(digit_char((n % 10) as int))
    }
}

/// The shortest decimal form of an integer, with a minus sign where it is negative.
pub open spec fn signed_decimal(i: int) -> Seq<char> {
    if i < 0 {
        seq!['-'] + decimal((-i) as nat)
    } else {
        decimal(i as nat)
    }
}

/// Whether every character is a decimal digit.
pub open spec fn all_digits(s: Seq<char>) -> bool {
    forall|i: int| 0 <= i < s.len() ==> is_digit(#[trigger] s[i])
}

/// The number that a run of digits writes, most significant digit first.
pub open spec fn digits_value(s: Seq<char>) -> nat
    decreases s.len(),
{
    if s.len() == 0 {
        0
    } else {
        digits_value(s.drop_last()) * 10 + digit_value(s.last())
    }
}

/// The unsigned number written by `s`: an optional plus sign and at least one digit, no larger
/// than `max`.
pub open spec fn unsigned_value(s: Seq<char>, max: nat) -> Option<nat> {
    let digits = if s.len() > 0 && s[0] == '+' {
        s.skip(1)
    } else {
        s
    };
    if digits.len() > 0 && all_digits(digits) && digits_value(digits) <= max {
        Some(digits_value(digits))
    } else {
        None
    }
}

/// The signed number written by `s`: an optional sign and at least one digit, in the range of
/// `i64`.
pub open spec fn signed_value(s: Seq<char>) -> Option<int> {
    if s.len() > 0 && s[0] == '-' {
        let digits = s.skip(1);
        if digits.len() > 0 && all_digits(digits) && digits_value(digits) <= -i64::MIN {
            Some(-(digits_value(digits) as int))
        } else {
            None
        }
    } else {
        match unsigned_value(s, i64::MAX as nat) {
            Some(n) => Some(n as int),
            None => None,
        }
    }
}

/// The position of the first `c`, if any.
pub open spec fn first_index_of(s: Seq<char>, c: char) -> Option<int>
    decreases s.len(),
{
    if s.len() == 0 {
        None
    } else if s[0] == c {
        Some(0int)
    } else {
        match first_index_of(s.skip(1), c) {
            Some(i) => Some(i + 1),
            None => None,
        }
    }
}

/// The position of the last `c`, if any.
pub open spec fn last_index_of(s: Seq<char>, c: char) -> Option<int>
    decreases s.len(),
{
    if s.len() == 0 {
        None
    } else if s.last() == c {
        Some(s.len() - 1)
    } else {
        last_index_of(s.drop_last(), c)
    }
}

/// What `first_index_of` finds is the least position that holds the character.
pub proof fn lemma_first_index_of(s: Seq<char>, c: char)
    ensures
        match first_index_of(s, c) {
            Some(i) => 0 <= i < s.len() && s[i] == c && forall|j: int|
                0 <= j < i ==> s[j] != c,
            None => !s.contains(c),
        },
    decreases s.len(),
{
    if s.len() > 0 && s[0] != c {
        let tail = s.skip(1);
        lemma_first_index_of(tail, c);
        assert(forall|j: int| 1 <= j < s.len() ==> s[j] == tail[j - 1]);
        if first_index_of(tail, c) is None {
            assert forall|j: int| 0 <= j < s.len() implies s[j] != c by {
                if j > 0 {
                    assert(tail.contains(tail[j - 1]));
                }
            }
        }
    }
}

/// A least position that holds the character is what `first_index_of` finds.
pub proof fn lemma_first_index_is(s: Seq<char>, c: char, i: int)
    requires
        0 <= i < s.len(),
        s[i] == c,
        forall|j: int| 0 <= j < i ==> s[j] != c,
    ensures
        first_index_of(s, c) == Some(i),
{
    lemma_first_index_of(s, c);
    assert(s.contains(s[i]));
}

/// What `last_index_of` finds is the greatest position that holds the character.
pub proof fn lemma_last_index_of(s: Seq<char>, c: char)
    ensures
        match last_index_of(s, c) {
            Some(i) => 0 <= i < s.len() && s[i] == c && forall|j: int|
                i < j < s.len() ==> s[j] != c,
            None => !s.contains(c),
        },
    decreases s.len(),
{
    if s.len() > 0 && s.last() != c {
        let front = s.drop_last();
        lemma_last_index_of(front, c);
        assert(forall|j: int| 0 <= j < front.len() ==> s[j] == front[j]);
        if last_index_of(front, c) is None {
            assert forall|j: int| 0 <= j < s.len() implies s[j] != c by {
                if j < front.len() {
                    assert(front.contains(front[j]));
                }
            }
        }
    }
}

/// A greatest position that holds the character is what `last_index_of` finds.
pub proof fn lemma_last_index_is(s: Seq<char>, c: char, i: int)
    requires
        0 <= i < s.len(),
        s[i] == c,
        forall|j: int| i < j < s.len() ==> s[j] != c,
    ensures
        last_index_of(s, c) == Some(i),
{
    lemma_last_index_of(s, c);
    assert(s.contains(s[i]));
}

/// A decimal form holds digits only, and at least one.
pub proof fn lemma_decimal_digits(n: nat)
    ensures
        decimal(n).len() > 0,
        all_digits(decimal(n)),
    decreases n,
{
    if n >= 10 {
        lemma_decimal_digits(n / 10);
    }
}

/// Reading a decimal form gives the number back.
pub proof fn lemma_decimal_value(n: nat)
    ensures
        digits_value(decimal(n)) == n,
    decreases n,
{
    reveal_with_fuel(digits_value, 2);
    if n < 10 {
        assert(decimal(n).drop_last() =~= Seq::<char>::empty());
    } else {
        lemma_decimal_value(n / 10);
        assert(decimal(n).drop_last() =~= decimal(n / 10));
    }
}

/// A number survives being written in decimal and read again.
pub proof fn law_decimal_round_trip(n: nat, max: nat)
    requires
        n <= max,
    ensures
        unsigned_value(decimal(n), max) == Some(n),
{
    lemma_decimal_digits(n);
    lemma_decimal_value(n);
    assert(is_digit(decimal(n)[0]));
}

/// Whether `a` comes before `b` in the order of texts: by the first character in which they differ,
/// a text before its continuations.
pub open spec fn comes_before(a: Seq<char>, b: Seq<char>) -> bool
    decreases a.len(),
{
    if b.len() == 0 {
        false
    } else if a.len() == 0 {
        true
    } else if a[0] == b[0] {
        comes_before(a.skip(1), b.skip(1))
    } else {
        a[0] < b[0]
    }
}

/// No text comes before itself, and of two texts not each comes before the other.
pub proof fn lemma_order_one_way(a: Seq<char>, b: Seq<char>)
    ensures
        !comes_before(a, a),
        !(comes_before(a, b) && comes_before(b, a)),
    decreases a.len(),
{
    if a.len() > 0 {
        lemma_order_one_way(a.skip(1), b.skip(1));
    }
}

/// A text that comes before another comes before all that the other comes before.
pub proof fn lemma_order_transitive(a: Seq<char>, b: Seq<char>, c: Seq<char>)
    requires
        comes_before(a, b),
        comes_before(b, c),
    ensures
        comes_before(a, c),
    decreases a.len(),
{
    if a.len() > 0 && a[0] == b[0] && b[0] == c[0] {
        lemma_order_transitive(a.skip(1), b.skip(1), c.skip(1));
    }
}

/// Of two different texts one comes before the other.
pub proof fn lemma_order_total(a: Seq<char>, b: Seq<char>)
    ensures
        a == b || comes_before(a, b) || comes_before(b, a),
    decreases a.len(),
{
    if a.len() == 0 || b.len() == 0 {
        if a.len() == 0 && b.len() == 0 {
            assert(a =~= b);
        }
    } else if a[0] == b[0] {
        lemma_order_total(a.skip(1), b.skip(1));
        if a.skip(1) == b.skip(1) {
            assert(a =~= seq![a[0]] + a.skip(1));
            assert(b =~= seq![b[0]] + b.skip(1));
        }
    }
}

/// Texts with beginnings of one length are ordered as the beginnings, where those differ.
pub proof fn lemma_order_of_beginnings(a: Seq<char>, b: Seq<char>, n: int)
    requires
        0 <= n <= a.len(),
        n <= b.len(),
        comes_before(a.take(n), b.take(n)),
    ensures
        comes_before(a, b),
    decreases n,
{
    if n > 0 {
        assert(a.take(n)[0] == a[0]);
        assert(b.take(n)[0] == b[0]);
        if a[0] == b[0] {
            assert(a.take(n).skip(1) =~= a.skip(1).take(n - 1));
            assert(b.take(n).skip(1) =~= b.skip(1).take(n - 1));
            lemma_order_of_beginnings(a.skip(1), b.skip(1), n - 1);
        }
    }
}

/// Writing a signed number and reading it gives the number back.
pub proof fn law_signed_decimal_round_trip(i: int)
    requires
        i64::MIN <= i <= i64::MAX,
    ensures
        signed_value(signed_decimal(i)) == Some(i),
{
    if i < 0 {
        lemma_decimal_digits((-i) as nat);
        lemma_decimal_value((-i) as nat);
        assert(signed_decimal(i).skip(1) =~= decimal((-i) as nat));
    } else {
        lemma_decimal_digits(i as nat);
        law_decimal_round_trip(i as nat, i64::MAX as nat);
        assert(is_digit(decimal(i as nat)[0]));
    }
}

/// Two different numbers never have the same decimal form.
pub proof fn law_decimal_injective(m: nat, n: nat)
    requires
        decimal(m) == decimal(n),
    ensures
        m == n,
{
    lemma_decimal_value(m);
    lemma_decimal_value(n);
}

fn digit_of(d: u8) -> (c: char)
    requires
        d < 10,
    ensures
        c == digit_char(d as int),
{
    (48 + d) as char
}

/// The decimal form of an unsigned number.
pub fn u64_text(n: u64) -> (r: String)
    ensures
        r@ == decimal(n as nat),
    decreases n,
{
    if n < 10 {
        let mut s = String::new();
        s.push(digit_of(n as u8));
        s
    } else {
        let mut s = u64_text(n / 10);
        s.push(digit_of((n % 10) as u8));
        s
    }
}

/// The decimal form of a signed number.
pub fn i64_text(i: i64) -> (r: String)
    ensures
        r@ == signed_decimal(i as int),
{
    if i < 0 {
        let magnitude: u64 = if i == i64::MIN {
            9_223_372_036_854_775_808u64
        } else {
            (-i) as u64
        };
        let mut s = String::new();
        s.push('-');
        s.append(u64_text(magnitude).as_str());
        s
    } else {
        u64_text(i as u64)
    }
}

/// The characters of a text, in order.
pub fn chars_of(s: &str) -> (r: Vec<char>)
    ensures
        r@ == s@,
{
    let mut out: Vec<char> = Vec::new();
    for c in it: s.chars()
        invariant
            out@ == it.seq().take(it.index()),
            it.seq() == s@,
    {
        out.push(c);
        assert(it.seq().take(it.index() + 1) =~= it.seq().take(it.index()).push(c));
    }
    out
}

/// The text made of the characters from `from` up to, not including, `to`.
pub fn text_of(chars: &Vec<char>, from: usize, to: usize) -> (r: String)
    requires
        from <= to <= chars@.len(),
    ensures
        r@ == chars@.subrange(from as int, to as int),
{
    let mut s = String::new();
    let mut i: usize = from;
    while i < to
        invariant
            from <= i <= to <= chars@.len(),
            s@ == chars@.subrange(from as int, i as int),
        decreases to - i,
    {
        s.push(chars[i]);
        i = i + 1;
    }
    s
}

/// Whether `a` comes before `b` in the order of texts.
pub fn text_before(a: &str, b: &str) -> (r: bool)
    ensures
        r == comes_before(a@, b@),
{
    let x = chars_of(a);
    let y = chars_of(b);
    let mut i: usize = 0;
    proof {
        assert(a@.skip(0) =~= a@);
        assert(b@.skip(0) =~= b@);
    }
    while i < x.len() && i < y.len() && x[i] == y[i]
        invariant
            x@ == a@,
            y@ == b@,
            i <= x@.len(),
            i <= y@.len(),
            comes_before(a@, b@) == comes_before(a@.skip(i as int), b@.skip(i as int)),
        decreases x@.len() - i,
    {
        proof {
            assert(a@.skip(i as int).skip(1) =~= a@.skip(i + 1));
            assert(b@.skip(i as int).skip(1) =~= b@.skip(i + 1));
        }
        i = i + 1;
    }
    if i >= y.len() {
        false
    } else if i >= x.len() {
        true
    } else {
        x[i] < y[i]
    }
}

/// Whether two texts hold the same characters.
pub fn same_text(a: &str, b: &str) -> (r: bool)
    ensures
        r == (a@ == b@),
{
    a.to_owned() == b.to_owned()
}

/// Whether `s` begins with `prefix`.
pub open spec fn begins_with(s: Seq<char>, prefix: Seq<char>) -> bool {
    s.len() >= prefix.len() && s.take(prefix.len() as int) == prefix
}

/// Whether `s` ends with `suffix`.
pub open spec fn ends_with(s: Seq<char>, suffix: Seq<char>) -> bool {
    s.len() >= suffix.len() && s.skip(s.len() - suffix.len()) == suffix
}

/// Whether `word` stands somewhere in `s`.
pub open spec fn contains(s: Seq<char>, word: Seq<char>) -> bool {
    exists|i: int| 0 <= i <= s.len() && begins_with(#[trigger] s.skip(i), word)
}

/// Whether `word` stands somewhere in `s`.
pub fn text_contains(s: &str, word: &str) -> (r: bool)
    ensures
        r == contains(s@, word@),
{
    let chars = chars_of(s);
    let wanted = chars_of(word);
    let length: usize = chars.len();
    let mut i: usize = 0;
    while i < length
        invariant
            i <= length == chars@.len(),
            chars@ == s@,
            wanted@ == word@,
            forall|j: int| 0 <= j < i ==> !begins_with(#[trigger] s@.skip(j), word@),
        decreases length - i,
    {
        if holds_at(&chars, i, &wanted) {
            return true;
        }
        i = i + 1;
    }
    holds_at(&chars, length, &wanted)
}

/// Whether the characters from `at` on begin with `word`.
pub fn holds_at(s: &Vec<char>, at: usize, word: &Vec<char>) -> (r: bool)
    requires
        at <= s@.len(),
    ensures
        r == begins_with(s@.skip(at as int), word@),
{
    let length: usize = s.len();
    if length - at < word.len() {
        return false;
    }
    let mut i: usize = 0;
    while i < word.len()
        invariant
            at + word@.len() <= s@.len() == length,
            0 <= i <= word@.len(),
            forall|j: int| 0 <= j < i ==> s@[at + j] == word@[j],
        decreases word.len() - i,
    {
        if s[at + i] != word[i] {
            proof {
                assert(s@.skip(at as int).take(word@.len() as int)[i as int] == s@[at + i]);
            }
            return false;
        }
        i = i + 1;
    }
    proof {
        assert(s@.skip(at as int).take(word@.len() as int) =~= word@);
    }
    true
}

/// Whether `s` begins with `prefix`.
pub fn text_begins_with(s: &str, prefix: &str) -> (r: bool)
    ensures
        r == begins_with(s@, prefix@),
{
    let chars = chars_of(s);
    let word = chars_of(prefix);
    proof {
        assert(s@.skip(0) =~= s@);
    }
    holds_at(&chars, 0, &word)
}

/// Whether `s` ends with `suffix`.
pub fn text_ends_with(s: &str, suffix: &str) -> (r: bool)
    ensures
        r == ends_with(s@, suffix@),
{
    let chars = chars_of(s);
    let word = chars_of(suffix);
    if chars.len() < word.len() {
        return false;
    }
    proof {
        let tail = s@.skip(s@.len() - suffix@.len());
        assert(tail.take(suffix@.len() as int) =~= tail);
    }
    holds_at(&chars, chars.len() - word.len(), &word)
}

/// The position of the first `c` in `s`, if any.
pub fn find_first(s: &Vec<char>, c: char) -> (r: Option<usize>)
    ensures
        match r {
            Some(i) => first_index_of(s@, c) == Some(i as int) && i < s@.len(),
            None => first_index_of(s@, c) is None,
        },
{
    let mut i: usize = 0;
    while i < s.len()
        invariant
            i <= s@.len(),
            forall|j: int| 0 <= j < i ==> s@[j] != c,
        decreases s.len() - i,
    {
        if s[i] == c {
            proof {
                lemma_first_index_is(s@, c, i as int);
            }
            return Some(i);
        }
        i = i + 1;
    }
    proof {
        lemma_first_index_of(s@, c);
    }
    None
}

/// The position of the last `c` in `s`, if any.
pub fn find_last(s: &Vec<char>, c: char) -> (r: Option<usize>)
    ensures
        match r {
            Some(i) => last_index_of(s@, c) == Some(i as int) && i < s@.len(),
            None => last_index_of(s@, c) is None,
        },
{
    let mut i: usize = s.len();
    while i > 0
        invariant
            i <= s@.len(),
            forall|j: int| i <= j < s@.len() ==> s@[j] != c,
        decreases i,
    {
        i = i - 1;
        if s[i] == c {
            proof {
                lemma_last_index_is(s@, c, i as int);
            }
            return Some(i);
        }
    }
    proof {
        lemma_last_index_of(s@, c);
    }
    None
}

/// Reads an unsigned number from the characters from `from` on, where it is no larger than `max`.
fn read_digits(s: &Vec<char>, from: usize, max: u64) -> (r: Option<u64>)
    requires
        from <= s@.len(),
    ensures
        match r {
            Some(n) => s@.skip(from as int).len() > 0 && all_digits(s@.skip(from as int))
                && digits_value(s@.skip(from as int)) == n && n <= max,
            None => !(s@.skip(from as int).len() > 0 && all_digits(s@.skip(from as int))
                && digits_value(s@.skip(from as int)) <= max),
        },
{
    let ghost digits = s@.skip(from as int);
    if from == s.len() {
        return None;
    }
    let mut value: u64 = 0;
    let mut i: usize = from;
    let mut over = false;
    proof {
        assert(digits.take(0) =~= Seq::<char>::empty());
    }
    while i < s.len()
        invariant
            from <= i <= s@.len(),
            digits == s@.skip(from as int),
            forall|j: int| 0 <= j < i - from ==> is_digit(#[trigger] digits[j]),
            !over ==> digits_value(digits.take(i - from)) == value && value <= max,
            over ==> digits_value(digits.take(i - from)) > max,
        decreases s.len() - i,
    {
        let c = s[i];
        proof {
            assert(digits[i - from] == c);
            assert(digits.take(i - from + 1).drop_last() =~= digits.take(i - from));
            assert(digits.take(i - from + 1).last() == c);
        }
        if !('0' <= c && c <= '9') {
            return None;
        }
        if !over {
            let d: u64 = (c as u32 - 48) as u64;
            if value <= (u64::MAX - d) / 10 && value * 10 + d <= max {
                value = value * 10 + d;
            } else {
                over = true;
            }
        }
        i = i + 1;
    }
    proof {
        assert(digits.take(i - from) =~= digits);
    }
    if over {
        None
    } else {
        Some(value)
    }
}

/// Reads an unsigned number no larger than `max`: an optional plus sign, then digits only.
pub fn parse_unsigned(s: &str, max: u64) -> (r: Option<u64>)
    ensures
        match r {
            Some(n) => unsigned_value(s@, max as nat) == Some(n as nat),
            None => unsigned_value(s@, max as nat) is None,
        },
{
    let chars = chars_of(s);
    if chars.len() > 0 && chars[0] == '+' {
        read_digits(&chars, 1, max)
    } else {
        proof {
            assert(s@.skip(0) =~= s@);
        }
        read_digits(&chars, 0, max)
    }
}

/// Reads an `i64`: an optional sign, then digits only.
pub fn parse_i64(s: &str) -> (r: Option<i64>)
    ensures
        match r {
            Some(i) => signed_value(s@) == Some(i as int),
            None => signed_value(s@) is None,
        },
{
    let chars = chars_of(s);
    if chars.len() > 0 && chars[0] == '-' {
        match read_digits(&chars, 1, 9_223_372_036_854_775_808u64) {
            Some(n) => {
                if n == 9_223_372_036_854_775_808u64 {
                    Some(i64::MIN)
                } else {
                    Some(-(n as i64))
                }
            },
            None => None,
        }
    } else {
        match parse_unsigned(s, 9_223_372_036_854_775_807u64) {
            Some(n) => Some(n as i64),
            None => None,
        }
    }
}

/// Reads a `u64` as [`parse_unsigned`] does.
pub fn parse_u64(s: &str) -> (r: Option<u64>)
    ensures
        match r {
            Some(n) => unsigned_value(s@, u64::MAX as nat) == Some(n as nat),
            None => unsigned_value(s@, u64::MAX as nat) is None,
        },
{
    parse_unsigned(s, u64::MAX)
}

/// Texts are ordered by their first difference; a text comes before what it begins, and not before
/// itself.
pub proof fn law_texts_are_ordered_by_their_first_difference(
    same: Seq<char>,
    a: char,
    b: char,
    rest: Seq<char>,
    other: Seq<char>,
)
    ensures
        comes_before(same + seq![a] + rest, same + seq![b] + other) <==> a < b || (a == b && comes_before(
            rest,
            other,
        )),
        comes_before(same, same + seq![a] + rest),
        !comes_before(same + rest, same),
    decreases same.len(),
{
    let x = same + seq![a] + rest;
    let y = same + seq![b] + other;
    if same.len() == 0 {
        assert(x.skip(1) =~= rest);
        assert(y.skip(1) =~= other);
        assert(x[0] == a && y[0] == b);
        assert(same + rest =~= rest);
        assert(same =~= Seq::empty());
    } else {
        let tail = same.skip(1);
        law_texts_are_ordered_by_their_first_difference(tail, a, b, rest, other);
        assert(x.skip(1) =~= tail + seq![a] + rest);
        assert(y.skip(1) =~= tail + seq![b] + other);
        assert((same + rest).skip(1) =~= tail + rest);
        assert(x[0] == same[0] && y[0] == same[0] && (same + rest)[0] == same[0]);
    }
}

/// A text contains a word just where it is what stands before the word, the word, and what stands after.
pub proof fn law_a_word_stands_between_others(before: Seq<char>, word: Seq<char>, after: Seq<char>, s: Seq<char>)
    ensures
        contains(before + word + after, word),
        contains(s, word) ==> exists|a: Seq<char>, b: Seq<char>| s == #[trigger] (a + word + b),
        begins_with(word + after, word),
        ends_with(before + word, word),
        word.len() > s.len() ==> !contains(s, word) && !begins_with(s, word) && !ends_with(s, word),
{
    let all = before + word + after;
    let rest = all.skip(before.len() as int);
    assert(rest.take(word.len() as int) =~= word);
    assert(begins_with(rest, word));
    assert((word + after).take(word.len() as int) =~= word);
    assert((before + word).skip(before.len() as int) =~= word);
    if contains(s, word) {
        let i = choose|i: int| 0 <= i <= s.len() && begins_with(#[trigger] s.skip(i), word);
        let a = s.take(i);
        let b = s.skip(i + word.len());
        assert(s.skip(i).take(word.len() as int) == word);
        assert(s =~= a + word + b) by {
            assert forall|k: int| 0 <= k < word.len() implies s[i + k] == word[k] by {
                assert(s.skip(i).take(word.len() as int)[k] == s[i + k]);
            }
        }
    }
}

} // verus!
