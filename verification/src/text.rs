//! Helpers on text: `String` and `&str` viewed as sequences of characters.
use std::str::Chars;
use vstd::prelude::*;
use vstd::std_specs::iter::IteratorSpec;

verus! {

broadcast use vstd::string::group_string_axioms;

/// How one value stands to another in a total order.
#[derive(Clone, Copy, PartialEq, Eq, Structural)]
pub enum Order {
    Less,
    Equal,
    Greater,
}

/// The order of two integers.
pub open spec fn int_order(a: int, b: int) -> Order {
    if a < b {
        Order::Less
    } else if a == b {
        Order::Equal
    } else {
        Order::Greater
    }
}

/// The lexicographic order of two texts, character by character, each
/// character ordered by its code point. A proper prefix comes first.
pub open spec fn text_order(a: Seq<char>, b: Seq<char>) -> Order
    decreases a.len(),
{
    if a.len() == 0 {
        if b.len() == 0 {
            Order::Equal
        } else {
            Order::Less
        }
    } else if b.len() == 0 {
        Order::Greater
    } else if a[0] != b[0] {
        int_order(a[0] as int, b[0] as int)
    } else {
        text_order(a.drop_first(), b.drop_first())
    }
}

/// A text is equal to another in the lexicographic order exactly when the
/// two are the same text.
pub proof fn lemma_text_order_equal(a: Seq<char>, b: Seq<char>)
    ensures
        text_order(a, b) == Order::Equal <==> a == b,
    decreases a.len(),
{
    if a.len() == 0 || b.len() == 0 {
        assert(text_order(a, b) == Order::Equal ==> a =~= b);
    } else if a[0] != b[0] {
    } else {
        lemma_text_order_equal(a.drop_first(), b.drop_first());
        if a.drop_first() == b.drop_first() {
            assert(a =~= seq![a[0]] + a.drop_first());
            assert(b =~= seq![b[0]] + b.drop_first());
        }
    }
}

/// The order of two characters by code point.
pub fn char_order(a: char, b: char) -> (order: Order)
    ensures
        order == int_order(a as int, b as int),
{
    if a < b {
        Order::Less
    } else if a == b {
        Order::Equal
    } else {
        Order::Greater
    }
}

/// The lexicographic order of two string slices.
pub fn str_order(a: &str, b: &str) -> (order: Order)
    ensures
        order == text_order(a@, b@),
{
    let mut left: Chars = a.chars();
    let mut right: Chars = b.chars();
    let ghost mut done: int = 0;
    assert(a@.skip(0) == a@ && b@.skip(0) == b@);
    loop
        invariant
            0 <= done <= a@.len(),
            done <= b@.len(),
            left.remaining() == a@.skip(done),
            right.remaining() == b@.skip(done),
            text_order(a@, b@) == text_order(a@.skip(done), b@.skip(done)),
            left.obeys_prophetic_iter_laws(),
            right.obeys_prophetic_iter_laws(),
        decreases a@.len() - done,
    {
        let x = left.next();
        let y = right.next();
        match (x, y) {
            (Some(c), Some(d)) => {
                if c != d {
                    return char_order(c, d);
                }
                proof {
                    assert(a@.skip(done).drop_first() == a@.skip(done + 1));
                    assert(b@.skip(done).drop_first() == b@.skip(done + 1));
                    done = done + 1;
                }
            },
            (None, None) => {
                return Order::Equal;
            },
            (None, Some(_)) => {
                return Order::Less;
            },
            (Some(_), None) => {
                return Order::Greater;
            },
        }
    }
}

/// Whether two string slices hold the same characters.
pub fn str_eq(a: &str, b: &str) -> (same: bool)
    ensures
        same == (a@ == b@),
{
    proof {
        lemma_text_order_equal(a@, b@);
    }
    str_order(a, b) == Order::Equal
}

/// The least index of an item of which `wanted` holds.
pub open spec fn first_index<T>(items: Seq<T>, wanted: spec_fn(T) -> bool) -> Option<nat>
    decreases items.len(),
{
    if items.len() == 0 {
        None
    } else {
        match first_index(items.drop_last(), wanted) {
            Some(index) => Some(index),
            None => if wanted(items.last()) {
                Some((items.len() - 1) as nat)
            } else {
                None
            },
        }
    }
}

/// [`first_index`] is the least index at which `wanted` holds, and there is
/// none exactly when `wanted` holds nowhere.
pub proof fn lemma_first_index<T>(items: Seq<T>, wanted: spec_fn(T) -> bool)
    ensures
        match first_index(items, wanted) {
            Some(index) => {
                &&& index < items.len()
                &&& wanted(items[index as int])
                &&& forall|i: int| 0 <= i < index ==> !wanted(#[trigger] items[i])
            },
            None => forall|i: int| 0 <= i < items.len() ==> !wanted(#[trigger] items[i]),
        },
    decreases items.len(),
{
    if items.len() != 0 {
        let front = items.drop_last();
        lemma_first_index(front, wanted);
        assert forall|i: int| 0 <= i < front.len() implies front[i] == items[i] by {}
    }
}

/// An index found among the first `count` items is the index found in the
/// whole list.
pub proof fn lemma_first_index_extends<T>(items: Seq<T>, wanted: spec_fn(T) -> bool, count: nat)
    requires
        count <= items.len(),
        first_index(items.take(count as int), wanted) is Some,
    ensures
        first_index(items, wanted) == first_index(items.take(count as int), wanted),
    decreases items.len() - count,
{
    if count < items.len() {
        assert(items.take(count as int + 1).drop_last() =~= items.take(count as int));
        lemma_first_index_extends(items, wanted, count + 1);
    } else {
        assert(items.take(count as int) =~= items);
    }
}

/// The characters of a string slice.
pub fn chars_of(text: &str) -> (chars: Vec<char>)
    ensures
        chars@ == text@,
{
    let mut chars: Vec<char> = Vec::new();
    for c in it: text.chars()
        invariant
            chars@ == it.seq().take(it.index() as int),
            it.seq() == text@,
    {
        chars.push(c);
    }
    chars
}

/// Appends a character to a string. This is `String::push` of the standard
/// library, of which the contract says what its documentation says: the
/// character is added at the end, and nothing else changes.
#[verifier::external_body]
fn push_char(text: &mut String, c: char)
    ensures
        final(text)@ == old(text)@.push(c),
{
    text.push(c)
}

/// The string that holds the characters from `from` up to `to`.
pub fn string_of(chars: &Vec<char>, from: usize, to: usize) -> (text: String)
    requires
        from <= to <= chars.len(),
    ensures
        text@ == chars@.subrange(from as int, to as int),
{
    let mut text = String::new();
    let mut index: usize = from;
    while index < to
        invariant
            from <= index <= to <= chars.len(),
            text@ == chars@.subrange(from as int, index as int),
        decreases to - index,
    {
        push_char(&mut text, chars[index]);
        index += 1;
    }
    text
}

/// Whether the character is white space, by the Unicode property of that
/// name.
pub open spec fn spec_is_whitespace(c: char) -> bool {
    let code = c as u32;
    ||| 0x09 <= code <= 0x0d
    ||| code == 0x20
    ||| code == 0x85
    ||| code == 0xa0
    ||| code == 0x1680
    ||| 0x2000 <= code <= 0x200a
    ||| code == 0x2028
    ||| code == 0x2029
    ||| code == 0x202f
    ||| code == 0x205f
    ||| code == 0x3000
}

/// Whether the character is white space.
pub fn is_whitespace(c: char) -> (white: bool)
    ensures
        white == spec_is_whitespace(c),
{
    let code = c as u32;
    (0x09 <= code && code <= 0x0d) || code == 0x20 || code == 0x85 || code == 0xa0 || code
        == 0x1680 || (0x2000 <= code && code <= 0x200a) || code == 0x2028 || code == 0x2029
        || code == 0x202f || code == 0x205f || code == 0x3000
}

/// The property of being the character `wanted`.
pub open spec fn is_char(wanted: char) -> spec_fn(char) -> bool {
    |c: char| c == wanted
}

/// The number of characters of `text` before the first `wanted`, or of all
/// of `text` if it holds none.
pub open spec fn length_before(text: Seq<char>, wanted: char) -> nat {
    match first_index(text, is_char(wanted)) {
        Some(index) => index,
        None => text.len(),
    }
}

/// The index of the first `wanted` among the characters from `from` up to
/// `to`, or `to` if there is none.
pub fn find_char(chars: &Vec<char>, from: usize, to: usize, wanted: char) -> (index: usize)
    requires
        from <= to <= chars.len(),
    ensures
        from <= index <= to,
        index - from == length_before(chars@.subrange(from as int, to as int), wanted),
{
    let ghost text = chars@.subrange(from as int, to as int);
    let ghost is_wanted = is_char(wanted);
    let mut index: usize = from;
    assert(text.take(0) =~= Seq::<char>::empty());
    while index < to
        invariant
            from <= index <= to <= chars.len(),
            text == chars@.subrange(from as int, to as int),
            is_wanted == is_char(wanted),
            first_index(text.take(index - from), is_wanted) is None,
        decreases to - index,
    {
        proof {
            assert(text[index - from] == chars@[index as int]);
            assert(is_wanted(text[index - from]) == (chars@[index as int] == wanted));
            assert(text.take(index - from + 1).drop_last() =~= text.take(index - from));
            assert(text.take(index - from + 1).last() == text[index - from]);
        }
        if chars[index] == wanted {
            proof {
                lemma_first_index_extends(text, is_wanted, (index - from + 1) as nat);
            }
            return index;
        }
        index += 1;
    }
    assert(text.take(index - from) =~= text);
    index
}

/// The character that stands for a decimal digit.
pub open spec fn digit_char(digit: int) -> char {
    if digit == 0 {
        '0'
    } else if digit == 1 {
        '1'
    } else if digit == 2 {
        '2'
    } else if digit == 3 {
        '3'
    } else if digit == 4 {
        '4'
    } else if digit == 5 {
        '5'
    } else if digit == 6 {
        '6'
    } else if digit == 7 {
        '7'
    } else if digit == 8 {
        '8'
    } else {
        '9'
    }
}

/// The decimal digits of a natural number, without leading zeros.
pub open spec fn decimal_digits(n: nat) -> Seq<char>
    decreases n,
{
    if n < 10 {
        seq![digit_char(n as int)]
    } else {
        decimal_digits(n / 10).push(digit_char((n % 10) as int))
    }
}

/// An integer in decimal: a minus sign if it is negative, then its digits.
pub open spec fn decimal(i: int) -> Seq<char> {
    if i < 0 {
        seq!['-'] + decimal_digits((-i) as nat)
    } else {
        decimal_digits(i as nat)
    }
}

/// The character that stands for a decimal digit.
fn digit_to_char(digit: u64) -> (c: char)
    requires
        digit < 10,
    ensures
        c == digit_char(digit as int),
{
    if digit == 0 {
        '0'
    } else if digit == 1 {
        '1'
    } else if digit == 2 {
        '2'
    } else if digit == 3 {
        '3'
    } else if digit == 4 {
        '4'
    } else if digit == 5 {
        '5'
    } else if digit == 6 {
        '6'
    } else if digit == 7 {
        '7'
    } else if digit == 8 {
        '8'
    } else {
        '9'
    }
}

/// An integer in decimal.
pub fn decimal_string(i: i64) -> (text: String)
    ensures
        text@ == decimal(i as int),
{
    let magnitude: u64 = if i < 0 {
        (-(i as i128)) as u64
    } else {
        i as u64
    };
    let mut reversed: Vec<char> = Vec::new();
    let mut rest: u64 = magnitude;
    while rest >= 10
        invariant
            decimal_digits(magnitude as nat) == decimal_digits(rest as nat) + reversed@.reverse(),
        decreases rest,
    {
        let ghost before = reversed@;
        let digit = digit_to_char(rest % 10);
        reversed.push(digit);
        proof {
            assert(reversed@.reverse() =~= seq![digit] + before.reverse());
            assert(decimal_digits(rest as nat) + before.reverse() =~= decimal_digits(
                (rest / 10) as nat,
            ) + reversed@.reverse());
        }
        rest = rest / 10;
    }
    let mut text = String::new();
    if i < 0 {
        push_char(&mut text, '-');
    }
    push_char(&mut text, digit_to_char(rest));
    let ghost head = text@;
    let mut left: usize = reversed.len();
    while left > 0
        invariant
            left <= reversed.len(),
            text@ == head + reversed@.subrange(left as int, reversed.len() as int).reverse(),
        decreases left,
    {
        left -= 1;
        let ghost before = reversed@.subrange(left + 1, reversed.len() as int);
        push_char(&mut text, reversed[left]);
        assert(reversed@.subrange(left as int, reversed.len() as int).reverse()
            =~= before.reverse().push(reversed@[left as int]));
    }
    assert(reversed@.subrange(0, reversed.len() as int) =~= reversed@);
    assert(text@ =~= decimal(i as int));
    text
}

} // verus!
