//! Character classes, decimal numbers and the few string operations that messages are built with.
use vstd::prelude::*;

verus! {

/// The characters with the Unicode property White_Space.
pub open spec fn is_white_space(c: char) -> bool {
    let n = c as u32;
    ||| 0x09 <= n <= 0x0d
    ||| n == 0x20
    ||| n == 0x85
    ||| n == 0xa0
    ||| n == 0x1680
    ||| 0x2000 <= n <= 0x200a
    ||| n == 0x2028
    ||| n == 0x2029
    ||| n == 0x202f
    ||| n == 0x205f
    ||| n == 0x3000
}

/// The characters of the Unicode category Cc.
pub open spec fn is_control(c: char) -> bool {
    let n = c as u32;
    n <= 0x1f || 0x7f <= n <= 0x9f
}

/// A text in which nothing is left once white space is trimmed off its ends.
pub open spec fn is_blank(s: Seq<char>) -> bool {
    forall|i: int| 0 <= i < s.len() ==> is_white_space(#[trigger] s[i])
}

/// A text that holds a control character.
pub open spec fn has_control(s: Seq<char>) -> bool {
    exists|i: int| 0 <= i < s.len() && is_control(#[trigger] s[i])
}

/// The digit that stands for `d`.
pub open spec fn digit(d: nat) -> char {
    ('0' as u32 + d) as char
}

/// `n` in decimal, without leading zeros.
pub open spec fn decimal_digits(n: nat) -> Seq<char>
    decreases n,
{
    if n < 10 {
        seq![digit(n)]
    } else {
        decimal_digits(n / 10).push(digit(n % 10))
    }
}

/// The parts in order, with the separator between any two of them.
pub open spec fn joined(parts: Seq<Seq<char>>, separator: Seq<char>) -> Seq<char>
    decreases parts.len(),
{
    if parts.len() == 0 {
        Seq::empty()
    } else if parts.len() == 1 {
        parts[0]
    } else {
        joined(parts.drop_last(), separator) + separator + parts.last()
    }
}

/// The views of the strings of a list.
pub open spec fn texts(list: Seq<String>) -> Seq<Seq<char>> {
    list.map_values(|s: String| s@)
}

/// Whether `s` is empty or all white space.
pub fn blank(s: &str) -> (result: bool)
    ensures
        result == is_blank(s@),
{
    let n: usize = s.unicode_len();
    let mut i: usize = 0;
    while i < n
        invariant
            i <= n,
            n == s@.len(),
            forall|j: int| 0 <= j < i ==> is_white_space(#[trigger] s@[j]),
        decreases n - i,
    {
        let c: u32 = s.get_char(i) as u32;
        let white = (0x09 <= c && c <= 0x0d) || c == 0x20 || c == 0x85 || c == 0xa0 || c == 0x1680
            || (0x2000 <= c && c <= 0x200a) || c == 0x2028 || c == 0x2029 || c == 0x202f || c
            == 0x205f || c == 0x3000;
        if !white {
            return false;
        }
        i += 1;
    }
    true
}

/// Whether `s` holds a control character.
pub fn contains_control(s: &str) -> (result: bool)
    ensures
        result == has_control(s@),
{
    let n: usize = s.unicode_len();
    let mut i: usize = 0;
    while i < n
        invariant
            i <= n,
            n == s@.len(),
            forall|j: int| 0 <= j < i ==> !is_control(#[trigger] s@[j]),
        decreases n - i,
    {
        let c: u32 = s.get_char(i) as u32;
        if c <= 0x1f || (0x7f <= c && c <= 0x9f) {
            assert(is_control(s@[i as int]));
            return true;
        }
        i += 1;
    }
    false
}

fn digit_text(d: u64) -> (result: &'static str)
    requires
        d < 10,
    ensures
        result@ == seq![digit(d as nat)],
{
    proof {
        reveal_strlit("0");
        reveal_strlit("1");
        reveal_strlit("2");
        reveal_strlit("3");
        reveal_strlit("4");
        reveal_strlit("5");
        reveal_strlit("6");
        reveal_strlit("7");
        reveal_strlit("8");
        reveal_strlit("9");
    }
    match d {
        0 => "0",
        1 => "1",
        2 => "2",
        3 => "3",
        4 => "4",
        5 => "5",
        6 => "6",
        7 => "7",
        8 => "8",
        _ => "9",
    }
}

/// `n` in decimal.
pub fn decimal(n: u64) -> (result: String)
    ensures
        result@ == decimal_digits(n as nat),
    decreases n,
{
    if n < 10 {
        digit_text(n).to_string()
    } else {
        let mut s = decimal(n / 10);
        s.append(digit_text(n % 10));
        assert(s@ =~= decimal_digits(n as nat));
        s
    }
}

/// The bytes of `n` in decimal.
pub fn decimal_bytes(n: u8) -> (result: Vec<u8>)
    ensures
        result@ == decimal_digits(n as nat).map_values(|c: char| c as u8),
    decreases n,
{
    if n < 10 {
        let mut v: Vec<u8> = Vec::new();
        v.push(0x30 + n);
        assert(v@ =~= decimal_digits(n as nat).map_values(|c: char| c as u8));
        v
    } else {
        let mut v = decimal_bytes(n / 10);
        v.push(0x30 + n % 10);
        assert(v@ =~= decimal_digits(n as nat).map_values(|c: char| c as u8));
        v
    }
}

/// The texts of `parts` in order, with `separator` between any two of them.
pub fn join(parts: &Vec<String>, separator: &str) -> (result: String)
    ensures
        result@ == joined(texts(parts@), separator@),
{
    let mut result = String::new();
    let mut i: usize = 0;
    assert(texts(parts@).take(0) =~= Seq::empty());
    while i < parts.len()
        invariant
            i <= parts.len(),
            result@ == joined(texts(parts@).take(i as int), separator@),
        decreases parts.len() - i,
    {
        if i > 0 {
            result.append(separator);
        }
        result.append(parts[i].as_str());
        proof {
            let next = texts(parts@).take(i + 1);
            assert(next.drop_last() =~= texts(parts@).take(i as int));
            assert(next.last() == parts@[i as int]@);
            if i == 0 {
                assert(result@ =~= next[0]);
            }
        }
        i += 1;
    }
    assert(texts(parts@).take(parts.len() as int) =~= texts(parts@));
    result
}

/// Decimal numbers are made of digits, and different numbers are written differently.
pub proof fn decimals_are_distinct(a: nat, b: nat)
    ensures
        decimal_digits(a).len() > 0,
        forall|i: int|
            0 <= i < decimal_digits(a).len() ==> '0' <= #[trigger] decimal_digits(a)[i] <= '9',
        decimal_digits(a) == decimal_digits(b) ==> a == b,
    decreases a,
{
    if a >= 10 {
        decimals_are_distinct(a / 10, b / 10);
    }
    if b >= 10 {
        lemma_decimal_len(b / 10);
    }
    if a >= 10 {
        lemma_decimal_len(a / 10);
    }
    if decimal_digits(a) == decimal_digits(b) {
        assert(decimal_digits(a).last() == digit(a % 10));
        assert(decimal_digits(b).last() == digit(b % 10));
        assert(a % 10 == b % 10);
        if a >= 10 && b >= 10 {
            assert(decimal_digits(a).drop_last() =~= decimal_digits(a / 10));
            assert(decimal_digits(b).drop_last() =~= decimal_digits(b / 10));
        }
    }
}

proof fn lemma_decimal_len(n: nat)
    ensures
        decimal_digits(n).len() > 0,
    decreases n,
{
    if n >= 10 {
        lemma_decimal_len(n / 10);
    }
}

/// The number that a text of decimal digits stands for.
pub open spec fn decimal_value(digits: Seq<char>) -> int
    decreases digits.len(),
{
    if digits.len() == 0 {
        0
    } else {
        10 * decimal_value(digits.drop_last()) + (digits.last() as u32 - '0' as u32)
    }
}

/// A number in decimal reads as that number, and it has no leading zero.
pub proof fn decimals_read_as_their_number(n: nat)
    ensures
        decimal_value(decimal_digits(n)) == n,
        n > 0 ==> decimal_digits(n)[0] != '0',
    decreases n,
{
    let digits = decimal_digits(n);
    if n < 10 {
        reveal_with_fuel(decimal_value, 2);
        assert(digits.drop_last() =~= Seq::empty());
    } else {
        decimals_read_as_their_number(n / 10);
        lemma_decimal_len(n / 10);
        assert(digits.drop_last() =~= decimal_digits(n / 10));
    }
}

/// Joining nothing gives nothing, and joining one text gives that text. Joining two lists in a row
/// gives what each of them gives, with the separator between.
pub proof fn joining_lists_in_a_row(
    front: Seq<Seq<char>>,
    back: Seq<Seq<char>>,
    text: Seq<char>,
    separator: Seq<char>,
)
    ensures
        joined(Seq::empty(), separator).len() == 0,
        joined(seq![text], separator) == text,
        front.len() > 0 && back.len() > 0 ==> joined(front + back, separator) == joined(
            front,
            separator,
        ) + separator + joined(back, separator),
    decreases back.len(),
{
    if front.len() > 0 && back.len() > 0 {
        let all = front + back;
        let rest = back.drop_last();
        assert(all.drop_last() =~= front + rest);
        assert(all.last() == back.last());
        if back.len() == 1 {
            assert(front + rest =~= front);
        } else {
            joining_lists_in_a_row(front, rest, text, separator);
            assert(joined(all, separator) =~= joined(front, separator) + separator + joined(
                back,
                separator,
            ));
        }
    }
}

/// Two texts in a row are blank exactly if both are, and hold a control character exactly if one of
/// them does. Of a single character its class decides, and the empty text is blank and holds none.
pub proof fn classes_of_texts_in_a_row(a: Seq<char>, b: Seq<char>, c: char)
    ensures
        is_blank(a + b) <==> is_blank(a) && is_blank(b),
        has_control(a + b) <==> has_control(a) || has_control(b),
        is_blank(seq![c]) <==> is_white_space(c),
        has_control(seq![c]) <==> is_control(c),
        is_blank(Seq::empty()),
        !has_control(Seq::empty()),
{
    let all = a + b;
    if is_blank(all) {
        assert forall|i: int| 0 <= i < a.len() implies is_white_space(#[trigger] a[i]) by {
            assert(all[i] == a[i]);
        }
        assert forall|i: int| 0 <= i < b.len() implies is_white_space(#[trigger] b[i]) by {
            assert(all[a.len() + i] == b[i]);
        }
    }
    if has_control(a) {
        let i = choose|i: int| 0 <= i < a.len() && is_control(#[trigger] a[i]);
        assert(is_control(all[i]));
    }
    if has_control(b) {
        let i = choose|i: int| 0 <= i < b.len() && is_control(#[trigger] b[i]);
        assert(is_control(all[a.len() + i]));
    }
    let one = seq![c];
    assert(one[0] == c);
    if is_control(c) {
        assert(is_control(one[0]));
    }
}

/// The texts of a list are read one by one, in order.
pub proof fn texts_are_read_in_order(list: Seq<String>, i: int)
    ensures
        texts(list).len() == list.len(),
        0 <= i < list.len() ==> texts(list)[i] == list[i]@,
{
}

} // verus!
