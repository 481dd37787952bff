//! Helpers on strings: comparing, searching, and whole numbers in decimal.

use vstd::prelude::*;
use vstd::std_specs::iter::IteratorSpec;

verus! {

/// Whether two string slices hold the same characters.
pub fn same_text(a: &str, b: &str) -> (same: bool)
    ensures
        same == (a@ == b@),
{
    a.to_owned() == b.to_owned()
}

/// The views of a sequence of strings, item by item.
pub open spec fn texts(items: Seq<String>) -> Seq<Seq<char>> {
    items.map_values(|s: String| s@)
}

/// The characters of a string slice, in a vector.
pub fn chars_of(s: &str) -> (out: Vec<char>)
    ensures
        out@ == s@,
{
    broadcast use vstd::string::group_string_axioms;

    let mut it = s.chars();
    let mut out: Vec<char> = Vec::new();
    loop
        invariant_except_break
            it.obeys_prophetic_iter_laws(),
            it.decrease() is Some,
            out@ + it.remaining() == s@,
        ensures
            out@ == s@,
        decreases it.decrease()->0,
    {
        match it.next() {
            Some(c) => {
                out.push(c);
            },
            None => {
                assert(it.remaining().len() == 0);
                break ;
            },
        }
    }
    out
}

/// The first place at or after `from` where `s` holds `c`, or the length of
/// `s` if there is none.
pub open spec fn first_at(s: Seq<char>, c: char, from: int) -> int
    decreases s.len() - from,
{
    if from < 0 || from >= s.len() {
        s.len() as int
    } else if s[from] == c {
        from
    } else {
        first_at(s, c, from + 1)
    }
}

/// `first_at` gives a place from `from` on, not past the end; no place before
/// it from `from` on holds the character, and it does unless it is the end.
pub proof fn lemma_first_at(s: Seq<char>, c: char, from: int)
    requires
        0 <= from <= s.len(),
    ensures
        from <= first_at(s, c, from) <= s.len(),
        first_at(s, c, from) < s.len() ==> s[first_at(s, c, from)] == c,
        forall|i: int| from <= i < first_at(s, c, from) ==> s[i] != c,
    decreases s.len() - from,
{
    if from < s.len() && s[from] != c {
        lemma_first_at(s, c, from + 1);
    }
}

/// Whether a text holds a character nowhere.
pub open spec fn free_of(s: Seq<char>, c: char) -> bool {
    forall|i: int| 0 <= i < s.len() ==> s[i] != c
}

/// `first_at` is the place `at` if no place from `from` up to `at` holds the
/// character and `at` does or is the end.
pub proof fn lemma_first_at_is(s: Seq<char>, c: char, from: int, at: int)
    requires
        0 <= from <= at <= s.len(),
        forall|i: int| from <= i < at ==> s[i] != c,
        at < s.len() ==> s[at] == c,
    ensures
        first_at(s, c, from) == at,
    decreases at - from,
{
    if from < at {
        lemma_first_at_is(s, c, from + 1, at);
    }
}

/// Finds the first place at or after `from` where `s` holds `c`.
pub fn find(s: &Vec<char>, c: char, from: usize) -> (at: usize)
    ensures
        at == first_at(s@, c, from as int),
        at <= s@.len(),
{
    if from >= s.len() {
        return s.len();
    }
    let mut i: usize = from;
    while i < s.len()
        invariant
            from <= i <= s.len(),
            first_at(s@, c, from as int) == first_at(s@, c, i as int),
        decreases s.len() - i,
    {
        if s[i] == c {
            return i;
        }
        i += 1;
    }
    i
}

/// The last place where `s` holds `c`, or -1 if there is none.
pub open spec fn last_of(s: Seq<char>, c: char) -> int
    decreases s.len(),
{
    if s.len() == 0 {
        -1
    } else if s.last() == c {
        s.len() - 1
    } else {
        last_of(s.drop_last(), c)
    }
}

/// `last_of` gives a place of the text or -1; the place holds the character,
/// and no place after it does.
pub proof fn lemma_last_of(s: Seq<char>, c: char)
    ensures
        -1 <= last_of(s, c) < s.len(),
        last_of(s, c) >= 0 ==> s[last_of(s, c)] == c,
        forall|i: int| last_of(s, c) < i < s.len() ==> s[i] != c,
    decreases s.len(),
{
    if s.len() > 0 && s.last() != c {
        let init = s.drop_last();
        lemma_last_of(init, c);
        assert forall|i: int| last_of(s, c) < i < s.len() implies s[i] != c by {
            if i < init.len() {
                assert(init[i] == s[i]);
            }
        }
    }
}

/// Finds the last place where `s` holds `c`.
pub fn find_last(s: &Vec<char>, c: char) -> (at: Option<usize>)
    ensures
        match at {
            Some(i) => last_of(s@, c) == i && i < s@.len(),
            None => last_of(s@, c) == -1,
        },
{
    let mut n: usize = s.len();
    assert(s@.take(n as int) == s@);
    while n > 0
        invariant
            0 <= n <= s.len(),
            last_of(s@, c) == last_of(s@.take(n as int), c),
        decreases n,
    {
        proof {
            let head = s@.take(n as int);
            assert(head.last() == s@[n - 1]);
            assert(head.drop_last() == s@.take(n - 1));
        }
        if s[n - 1] == c {
            return Some(n - 1);
        }
        n -= 1;
    }
    None
}

/// The number of bytes that a character takes in UTF-8.
pub open spec fn width(c: char) -> int {
    if (c as u32) < 0x80 {
        1
    } else if (c as u32) < 0x800 {
        2
    } else if (c as u32) < 0x10000 {
        3
    } else {
        4
    }
}

/// The number of bytes that the first `k` characters of a text take in UTF-8.
pub open spec fn offset(text: Seq<char>, k: int) -> int
    decreases k,
{
    if k <= 0 || k > text.len() {
        0
    } else {
        offset(text, k - 1) + width(text[k - 1])
    }
}

/// Whether the first `k` characters of a text take exactly `bytes` bytes.
pub open spec fn cut_at(text: Seq<char>, bytes: int, k: int) -> bool {
    0 <= k <= text.len() && offset(text, k) == bytes
}

/// The number of characters that stand before the byte `bytes` of a text in
/// UTF-8. `None` where no character begins or ends at that byte: the text is
/// shorter, or a character lies across the place.
pub open spec fn chars_before(text: Seq<char>, bytes: int) -> Option<int> {
    if exists|k: int| cut_at(text, bytes, k) {
        Some(choose|k: int| cut_at(text, bytes, k))
    } else {
        None
    }
}

/// More characters take more bytes.
pub proof fn lemma_offset_grows(text: Seq<char>, i: int, j: int)
    requires
        0 <= i < j <= text.len(),
    ensures
        offset(text, i) < offset(text, j),
    decreases j - i,
{
    if i + 1 < j {
        lemma_offset_grows(text, i, j - 1);
    }
}

/// There is at most one number of characters that takes a number of bytes.
pub proof fn lemma_one_cut(text: Seq<char>, bytes: int, k: int)
    requires
        cut_at(text, bytes, k),
    ensures
        chars_before(text, bytes) == Some(k),
{
    let found = choose|k: int| cut_at(text, bytes, k);
    if found < k {
        lemma_offset_grows(text, found, k);
    }
    if k < found {
        lemma_offset_grows(text, k, found);
    }
}

/// In a text that begins with `k` ASCII characters, these take `k` bytes.
pub proof fn lemma_ascii_offset(text: Seq<char>, k: int)
    requires
        0 <= k <= text.len(),
        forall|i: int| 0 <= i < k ==> (#[trigger] text[i] as u32) < 0x80,
    ensures
        offset(text, k) == k,
        chars_before(text, k) == Some(k),
    decreases k,
{
    if k > 0 {
        lemma_ascii_offset(text, k - 1);
    }
    lemma_one_cut(text, k, k);
}

/// The number of bytes that a character takes in UTF-8.
pub fn width_of(c: char) -> (w: usize)
    ensures
        w == width(c),
{
    let code: u32 = c as u32;
    if code < 0x80 {
        1
    } else if code < 0x800 {
        2
    } else if code < 0x10000 {
        3
    } else {
        4
    }
}

/// Counts the characters that stand before the byte `bytes` of a text.
pub fn cut(text: &Vec<char>, bytes: usize) -> (out: Option<usize>)
    ensures
        match out {
            Some(k) => chars_before(text@, bytes as int) == Some(k as int) && k <= text@.len(),
            None => chars_before(text@, bytes as int) is None,
        },
{
    let mut k: usize = 0;
    let mut used: usize = 0;
    while k < text.len() && used < bytes
        invariant
            0 <= k <= text.len(),
            used == offset(text@, k as int),
            used <= bytes,
        decreases text.len() - k,
    {
        let w = width_of(text[k]);
        if w > bytes - used {
            proof {
                assert forall|j: int| !cut_at(text@, bytes as int, j) by {
                    if 0 <= j <= k {
                        if j < k {
                            lemma_offset_grows(text@, j, k as int);
                        }
                    } else if k < j <= text@.len() {
                        if k + 1 < j {
                            lemma_offset_grows(text@, k + 1, j);
                        }
                    }
                }
            }
            return None;
        }
        used += w;
        k += 1;
    }
    if used == bytes {
        proof {
            lemma_one_cut(text@, bytes as int, k as int);
        }
        Some(k)
    } else {
        proof {
            assert forall|j: int| !cut_at(text@, bytes as int, j) by {
                if 0 <= j < k {
                    lemma_offset_grows(text@, j, k as int);
                }
            }
        }
        None
    }
}

/// The character for a digit.
pub open spec fn digit_char(d: int) -> char {
    if d == 0 {
        '0'
    } else if d == 1 {
        '1'
    } else if d == 2 {
        '2'
    } else if d == 3 {
        '3'
    } else if d == 4 {
        '4'
    } else if d == 5 {
        '5'
    } else if d == 6 {
        '6'
    } else if d == 7 {
        '7'
    } else if d == 8 {
        '8'
    } else {
        '9'
    }
}

/// The digit that a character is, if it is one.
pub open spec fn digit_value(c: char) -> Option<int> {
    if c == '0' {
        Some(0)
    } else if c == '1' {
        Some(1)
    } else if c == '2' {
        Some(2)
    } else if c == '3' {
        Some(3)
    } else if c == '4' {
        Some(4)
    } else if c == '5' {
        Some(5)
    } else if c == '6' {
        Some(6)
    } else if c == '7' {
        Some(7)
    } else if c == '8' {
        Some(8)
    } else if c == '9' {
        Some(9)
    } else {
        None
    }
}

/// The digits of a natural number, most significant first.
pub open spec fn digits_of(n: nat) -> Seq<char>
    decreases n,
{
    if n < 10 {
        seq![digit_char(n as int)]
    } else {
        digits_of(n / 10).push(digit_char((n % 10) as int))
    }
}

/// A whole number in decimal: its digits, after a minus sign if it is
/// negative.
pub open spec fn decimal_of(i: int) -> Seq<char> {
    if i < 0 {
        seq!['-'] + digits_of((-i) as nat)
    } else {
        digits_of(i as nat)
    }
}

/// The natural number that a text of digits stands for; `None` for the empty
/// text and for one that holds anything but digits.
pub open spec fn digits_value(s: Seq<char>) -> Option<int>
    decreases s.len(),
{
    if s.len() == 0 {
        None
    } else if s.len() == 1 {
        digit_value(s[0])
    } else {
        match (digits_value(s.drop_last()), digit_value(s.last())) {
            (Some(v), Some(d)) => Some(v * 10 + d),
            _ => None,
        }
    }
}

/// The whole number that a text stands for: digits, after a sign or not.
pub open spec fn decimal_value(s: Seq<char>) -> Option<int> {
    if s.len() > 0 && s[0] == '-' {
        match digits_value(s.skip(1)) {
            Some(v) => Some(-v),
            None => None,
        }
    } else if s.len() > 0 && s[0] == '+' {
        digits_value(s.skip(1))
    } else {
        digits_value(s)
    }
}

/// A number with its sign, if there is a number.
pub open spec fn signed(negative: bool, size: Option<int>) -> Option<int> {
    match size {
        Some(v) => Some(if negative {
            -v
        } else {
            v
        }),
        None => None,
    }
}

/// The `i64` that a text stands for, if it stands for a whole number in the
/// range of `i64`.
pub open spec fn i64_of(s: Seq<char>) -> Option<i64> {
    match decimal_value(s) {
        Some(v) => if i64::MIN <= v <= i64::MAX {
            Some(v as i64)
        } else {
            None
        },
        None => None,
    }
}

/// The digits of a number are digits and nothing else, and stand for the
/// number.
pub proof fn lemma_digits_read_back(n: nat)
    ensures
        digits_of(n).len() >= 1,
        digits_value(digits_of(n)) == Some(n as int),
        forall|i: int|
            0 <= i < digits_of(n).len() ==> digit_value(#[trigger] digits_of(n)[i]) is Some,
    decreases n,
{
    if n >= 10 {
        lemma_digits_read_back(n / 10);
        let head = digits_of(n / 10);
        let all = digits_of(n);
        assert(all.drop_last() == head);
        assert(all.last() == digit_char((n % 10) as int));
    }
}

/// A whole number that is written in decimal reads back as itself.
pub proof fn law_decimal_reads_back(i: i64)
    ensures
        i64_of(decimal_of(i as int)) == Some(i),
        forall|k: int|
            0 <= k < decimal_of(i as int).len() ==> (#[trigger] decimal_of(i as int)[k]) != '/'
                && decimal_of(i as int)[k] != '.',
{
    if i < 0 {
        let size = (-i) as nat;
        lemma_digits_read_back(size);
        let text = decimal_of(i as int);
        assert(text.skip(1) == digits_of(size));
        assert forall|k: int| 0 <= k < text.len() implies (#[trigger] text[k]) != '/' && text[k]
            != '.' by {
            if k > 0 {
                assert(text[k] == digits_of(size)[k - 1]);
            }
        }
    } else {
        lemma_digits_read_back(i as nat);
    }
}

/// The text of one digit.
fn digit_text(d: u64) -> (text: &'static str)
    requires
        d < 10,
    ensures
        text@ == seq![digit_char(d as int)],
{
    proof {
        reveal_strlit("0");
        reveal_strlit("1");
        reveal_strlit("2");
        reveal_strlit("3");
        reveal_strlit("4");
        reveal_strlit("5");
        reveal_strlit("6");
        reveal_strlit("7");
        reveal_strlit("8");
        reveal_strlit("9");
    }
    let text = if d == 0 {
        "0"
    } else if d == 1 {
        "1"
    } else if d == 2 {
        "2"
    } else if d == 3 {
        "3"
    } else if d == 4 {
        "4"
    } else if d == 5 {
        "5"
    } else if d == 6 {
        "6"
    } else if d == 7 {
        "7"
    } else if d == 8 {
        "8"
    } else {
        "9"
    };
    assert(text@ =~= seq![digit_char(d as int)]);
    text
}

/// Appends the digits of `n` to `out`.
fn push_digits(out: &mut String, n: u64)
    ensures
        final(out)@ == old(out)@ + digits_of(n as nat),
    decreases n,
{
    if n >= 10 {
        push_digits(out, n / 10);
    }
    out.append(digit_text(n % 10));
    assert(out@ =~= old(out)@ + digits_of(n as nat));
}

/// Writes a natural number in decimal.
pub fn decimal_u64(n: u64) -> (out: String)
    ensures
        out@ == digits_of(n as nat),
{
    let mut out = String::new();
    push_digits(&mut out, n);
    assert(out@ =~= digits_of(n as nat));
    out
}

/// Writes a whole number in decimal.
pub fn decimal(i: i64) -> (out: String)
    ensures
        out@ == decimal_of(i as int),
{
    let mut out = String::new();
    if i < 0 {
        proof {
            reveal_strlit("-");
        }
        out.append("-");
        assert(out@ =~= seq!['-']);
        let size: u64 = if i == i64::MIN {
            9223372036854775808u64
        } else {
            (-i) as u64
        };
        push_digits(&mut out, size);
    } else {
        push_digits(&mut out, i as u64);
        assert(out@ =~= digits_of(i as nat));
    }
    out
}

/// The digit that a character is, if it is one.
fn digit_of(c: char) -> (d: Option<u64>)
    ensures
        match d {
            Some(d) => digit_value(c) == Some(d as int) && d < 10,
            None => digit_value(c) is None,
        },
{
    if c == '0' {
        Some(0)
    } else if c == '1' {
        Some(1)
    } else if c == '2' {
        Some(2)
    } else if c == '3' {
        Some(3)
    } else if c == '4' {
        Some(4)
    } else if c == '5' {
        Some(5)
    } else if c == '6' {
        Some(6)
    } else if c == '7' {
        Some(7)
    } else if c == '8' {
        Some(8)
    } else if c == '9' {
        Some(9)
    } else {
        None
    }
}

/// A text of digits stands for a number that is at least the number that any
/// of its beginnings stands for, and every beginning is a text of digits too.
pub proof fn lemma_digits_grow(s: Seq<char>, n: int)
    requires
        1 <= n <= s.len(),
        digits_value(s) is Some,
    ensures
        digits_value(s.take(n)) is Some,
        0 <= digits_value(s.take(n)).unwrap() <= digits_value(s).unwrap(),
    decreases s.len(),
{
    if n == s.len() {
        assert(s.take(n) == s);
        lemma_digits_nonnegative(s);
    } else {
        assert(s.drop_last().take(n) == s.take(n));
        lemma_digits_grow(s.drop_last(), n);
    }
}

/// A text of digits stands for a number that is not negative.
pub proof fn lemma_digits_nonnegative(s: Seq<char>)
    requires
        digits_value(s) is Some,
    ensures
        digits_value(s).unwrap() >= 0,
    decreases s.len(),
{
    if s.len() > 1 {
        lemma_digits_nonnegative(s.drop_last());
    }
}

/// Reads a whole number in decimal: digits, after a `+` or a `-` or neither.
/// Anything else, and a number out of the range of `i64`, gives `None`.
pub fn parse_i64(s: &Vec<char>) -> (out: Option<i64>)
    ensures
        out == i64_of(s@),
{
    let n = s.len();
    if n == 0 {
        return None;
    }
    let negative = s[0] == '-';
    let start: usize = if negative || s[0] == '+' {
        1
    } else {
        0
    };
    let ghost body = s@.skip(start as int);
    assert(decimal_value(s@) == signed(negative, digits_value(body))) by {
        assert(s@.skip(0) == s@);
    }
    if start == n {
        return None;
    }
    let mut acc: u64 = 0;
    let mut i: usize = start;
    while i < n
        invariant
            start <= i <= n,
            n == s@.len(),
            body == s@.skip(start as int),
            decimal_value(s@) == signed(negative, digits_value(body)),
            acc <= 9223372036854775808u64,
            i > start ==> digits_value(body.take(i - start)) == Some(acc as int),
            i == start ==> acc == 0,
        decreases n - i,
    {
        let ghost head = body.take(i - start + 1);
        proof {
            assert(head.last() == s@[i as int]);
            assert(head.drop_last() == body.take(i - start));
        }
        let d = match digit_of(s[i]) {
            Some(d) => d,
            None => {
                proof {
                    assert(digits_value(head) is None);
                    if digits_value(body) is Some {
                        lemma_digits_grow(body, i - start + 1);
                    }
                }
                return None;
            },
        };
        let next: u128 = acc as u128 * 10 + d as u128;
        assert(digits_value(head) == Some(next as int));
        if next > 9223372036854775808u128 {
            proof {
                if digits_value(body) is Some {
                    lemma_digits_grow(body, i - start + 1);
                }
            }
            return None;
        }
        acc = next as u64;
        i += 1;
    }
    assert(body.take(n - start) == body);
    if negative {
        if acc == 9223372036854775808u64 {
            Some(i64::MIN)
        } else {
            Some(-(acc as i64))
        }
    } else if acc > i64::MAX as u64 {
        None
    } else {
        Some(acc as i64)
    }
}

} // verus!
