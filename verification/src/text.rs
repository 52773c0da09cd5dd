//! Plain text: searching, comparing and joining, and decimal numbers.

use vstd::prelude::*;
use vstd::string::*;

verus! {

/// Whether `at` is where `wanted` first occurs.
pub open spec fn is_first(text: Seq<char>, wanted: char, at: int) -> bool {
    &&& 0 <= at < text.len()
    &&& text[at] == wanted
    &&& forall|i: int| 0 <= i < at ==> text[i] != wanted
}

/// Where `wanted` first occurs, if it does.
pub open spec fn find(text: Seq<char>, wanted: char) -> Option<int> {
    if text.contains(wanted) {
        Some(choose|at: int| is_first(text, wanted, at))
    } else {
        None
    }
}

/// What stands before the first `wanted`; the whole text if there is none.
pub open spec fn before(text: Seq<char>, wanted: char) -> Seq<char> {
    match find(text, wanted) {
        Some(at) => text.take(at),
        None => text,
    }
}

/// What stands behind the first `wanted`; nothing if there is none.
pub open spec fn behind(text: Seq<char>, wanted: char) -> Seq<char> {
    match find(text, wanted) {
        Some(at) => text.skip(at + 1),
        None => Seq::empty(),
    }
}

/// Whether `text` starts with `prefix`.
pub open spec fn has_prefix(text: Seq<char>, prefix: Seq<char>) -> bool {
    text.len() >= prefix.len() && text.take(prefix.len() as int) == prefix
}

/// Text that is missing or empty counts as not given.
pub open spec fn given(text: Option<Seq<char>>) -> Option<Seq<char>> {
    match text {
        Some(chars) => if chars.len() > 0 {
            Some(chars)
        } else {
            None
        },
        None => None,
    }
}

/// An optional string as optional characters.
pub open spec fn opt_text(text: Option<String>) -> Option<Seq<char>> {
    match text {
        Some(string) => Some(string@),
        None => None,
    }
}

/// A borrowed optional string as optional characters.
pub open spec fn opt_str(text: Option<&str>) -> Option<Seq<char>> {
    match text {
        Some(string) => Some(string@),
        None => None,
    }
}

/// A result with a text error, over the views of both.
pub open spec fn outcome<T: View>(result: Result<T, String>) -> Result<T::V, Seq<char>> {
    match result {
        Ok(value) => Ok(value@),
        Err(text) => Err(text@),
    }
}

/// A position that holds the wanted character with none before it is where the
/// text splits.
pub proof fn lemma_find(text: Seq<char>, wanted: char, at: int)
    requires
        is_first(text, wanted, at),
    ensures
        find(text, wanted) == Some(at),
        before(text, wanted) == text.take(at),
        behind(text, wanted) == text.skip(at + 1),
{
    assert(text.contains(wanted));
    let other = choose|i: int| is_first(text, wanted, i);
    assert(is_first(text, wanted, other));
    assert(other == at) by {
        if other < at {
            assert(text[other] != wanted);
        } else if at < other {
            assert(text[at] != wanted);
        }
    }
}

/// A text that contains a character has a first place for it.
pub proof fn lemma_found(text: Seq<char>, wanted: char)
    requires
        text.contains(wanted),
    ensures
        exists|at: int| is_first(text, wanted, at),
    decreases text.len(),
{
    let somewhere = choose|i: int| 0 <= i < text.len() && text[i] == wanted;
    if is_first(text, wanted, somewhere) {
    } else {
        let shorter = text.take(somewhere);
        let earlier = choose|i: int| 0 <= i < somewhere && text[i] == wanted;
        assert(shorter[earlier] == wanted);
        lemma_found(shorter, wanted);
        let at = choose|at: int| is_first(shorter, wanted, at);
        assert forall|i: int| 0 <= i < at implies text[i] != wanted by {
            assert(shorter[i] != wanted);
        }
        assert(is_first(text, wanted, at));
    }
}

/// Where `wanted` first occurs, counted in characters.
pub fn find_char(text: &str, wanted: char) -> (at: Option<usize>)
    ensures
        match at {
            Some(index) => find(text@, wanted) == Some(index as int) && is_first(
                text@,
                wanted,
                index as int,
            ),
            None => find(text@, wanted) is None && !text@.contains(wanted),
        },
{
    let len: usize = text.unicode_len();
    let mut index: usize = 0;
    for c in it: text.chars()
        invariant
            it.seq() == text@,
            index == it.index(),
            len == text@.len(),
            forall|i: int| 0 <= i < index ==> text@[i] != wanted,
    {
        if c == wanted {
            proof {
                lemma_find(text@, wanted, index as int);
            }
            return Some(index);
        }
        index = index + 1;
    }
    None
}

/// Whether `wanted` occurs.
pub fn contains_char(text: &str, wanted: char) -> (found: bool)
    ensures
        found == text@.contains(wanted),
{
    match find_char(text, wanted) {
        Some(index) => {
            assert(text@[index as int] == wanted);
            true
        },
        None => false,
    }
}

/// The text from character `from` on.
pub fn skip_chars(text: &str, from: usize) -> (rest: &str)
    requires
        from <= text@.len(),
    ensures
        rest@ == text@.skip(from as int),
{
    let len: usize = text.unicode_len();
    let rest = text.substring_char(from, len);
    assert(rest@ =~= text@.skip(from as int));
    rest
}

/// The first `count` characters.
pub fn take_chars(text: &str, count: usize) -> (front: &str)
    requires
        count <= text@.len(),
    ensures
        front@ == text@.take(count as int),
{
    let front = text.substring_char(0, count);
    assert(front@ =~= text@.take(count as int));
    front
}

/// Splits at the first `wanted`, which is in neither part.
pub fn split_at_char(text: &str, wanted: char) -> (parts: Option<(&str, &str)>)
    ensures
        parts is Some <==> text@.contains(wanted),
        parts matches Some((front, back)) ==> front@ == before(text@, wanted) && back@ == behind(
            text@,
            wanted,
        ),
{
    match find_char(text, wanted) {
        Some(index) => {
            proof {
                lemma_find(text@, wanted, index as int);
            }
            assert(text@[index as int] == wanted);
            let len: usize = text.unicode_len();
            Some((take_chars(text, index), skip_chars(text, index + 1)))
        },
        None => None,
    }
}

/// Whether two texts are equal.
pub fn same_text(left: &str, right: &str) -> (same: bool)
    ensures
        same == (left@ == right@),
{
    left.to_owned() == right.to_owned()
}

/// The text behind `prefix`, if it starts with it.
pub fn without_prefix<'a>(text: &'a str, prefix: &str) -> (rest: Option<&'a str>)
    ensures
        rest is Some <==> has_prefix(text@, prefix@),
        rest matches Some(rest) ==> rest@ == text@.skip(prefix@.len() as int),
{
    let len: usize = prefix.unicode_len();
    if text.unicode_len() < len {
        return None;
    }
    if same_text(take_chars(text, len), prefix) {
        Some(skip_chars(text, len))
    } else {
        None
    }
}

/// An ASCII letter in lower case; any other character as it is.
pub open spec fn ascii_lower(c: char) -> char {
    if 'A' <= c <= 'Z' {
        ((c as int) + 32) as char
    } else {
        c
    }
}

/// Whether two texts are equal but for the case of ASCII letters.
pub open spec fn same_ignoring_ascii_case(left: Seq<char>, right: Seq<char>) -> bool {
    left.map_values(|c: char| ascii_lower(c)) == right.map_values(|c: char| ascii_lower(c))
}

/// The characters of a text.
pub fn chars_of(text: &str) -> (chars: Vec<char>)
    ensures
        chars@ == text@,
{
    let mut chars: Vec<char> = Vec::new();
    for c in it: text.chars()
        invariant
            it.seq() == text@,
            chars@ == text@.take(it.index()),
    {
        chars.push(c);
        assert(chars@ =~= text@.take(it.index() + 1));
    }
    assert(text@.take(text@.len() as int) =~= text@);
    chars
}

/// An ASCII letter in lower case; any other character as it is.
fn lower(c: char) -> (lower: char)
    ensures
        lower == ascii_lower(c),
{
    if 'A' <= c && c <= 'Z' {
        ((c as u8) + 32) as char
    } else {
        c
    }
}

/// Whether two texts are equal but for the case of ASCII letters.
pub fn eq_ignoring_ascii_case(left: &str, right: &str) -> (same: bool)
    ensures
        same == same_ignoring_ascii_case(left@, right@),
{
    let left_chars: Vec<char> = chars_of(left);
    let right_chars: Vec<char> = chars_of(right);
    let ghost left_lower = left@.map_values(|c: char| ascii_lower(c));
    let ghost right_lower = right@.map_values(|c: char| ascii_lower(c));
    if left_chars.len() != right_chars.len() {
        assert(left_lower.len() != right_lower.len());
        return false;
    }
    for i in 0..left_chars.len()
        invariant
            left_chars@ == left@,
            right_chars@ == right@,
            left@.len() == right@.len(),
            left_lower == left@.map_values(|c: char| ascii_lower(c)),
            right_lower == right@.map_values(|c: char| ascii_lower(c)),
            forall|k: int| 0 <= k < i ==> left_lower[k] == right_lower[k],
    {
        if lower(left_chars[i]) != lower(right_chars[i]) {
            assert(left_lower[i as int] != right_lower[i as int]);
            return false;
        }
    }
    assert(left_lower =~= right_lower);
    true
}

/// Two texts, one behind the other.
pub fn join2(a: &str, b: &str) -> (text: String)
    ensures
        text@ == a@ + b@,
{
    let mut text: String = a.to_owned();
    text.append(b);
    text
}

/// Three texts, one behind the other.
pub fn join3(a: &str, b: &str, c: &str) -> (text: String)
    ensures
        text@ == a@ + b@ + c@,
{
    let mut text: String = join2(a, b);
    text.append(c);
    text
}

/// Four texts, one behind the other.
pub fn join4(a: &str, b: &str, c: &str, d: &str) -> (text: String)
    ensures
        text@ == a@ + b@ + c@ + d@,
{
    let mut text: String = join3(a, b, c);
    text.append(d);
    text
}

/// Five texts, one behind the other.
pub fn join5(a: &str, b: &str, c: &str, d: &str, e: &str) -> (text: String)
    ensures
        text@ == a@ + b@ + c@ + d@ + e@,
{
    let mut text: String = join4(a, b, c, d);
    text.append(e);
    text
}

/// Drops text that is there but empty.
pub fn given_str(text: Option<&str>) -> (kept: Option<&str>)
    ensures
        opt_str(kept) == given(opt_str(text)),
{
    match text {
        Some(string) => {
            if string.unicode_len() > 0 {
                Some(string)
            } else {
                None
            }
        },
        None => None,
    }
}

/// A borrowed view of an optional string.
pub fn as_opt_str(text: &Option<String>) -> (borrowed: Option<&str>)
    ensures
        opt_str(borrowed) == opt_text(*text),
{
    match text {
        Some(string) => Some(string.as_str()),
        None => None,
    }
}

/// A copy of an optional string.
pub fn copy_opt(text: &Option<String>) -> (copy: Option<String>)
    ensures
        opt_text(copy) == opt_text(*text),
{
    match text {
        Some(string) => Some(string.clone()),
        None => None,
    }
}

/// The digit for a number below ten.
pub open spec fn digit(value: int) -> char {
    (('0' as int) + value) as char
}

/// A number in decimal digits, without leading zeros.
pub open spec fn decimal(value: nat) -> Seq<char>
    decreases value,
{
    if value < 10 {
        seq![digit(value as int)]
    } else {
        decimal(value / 10).push(digit(value as int % 10))
    }
}

/// Whether a character is a decimal digit.
pub open spec fn is_digit(c: char) -> bool {
    '0' <= c <= '9'
}

/// The number that decimal digits stand for.
pub open spec fn digits_value(digits: Seq<char>) -> nat
    decreases digits.len(),
{
    if digits.len() == 0 {
        0
    } else {
        digits_value(digits.drop_last()) * 10 + (digits.last() as int - '0' as int) as nat
    }
}

/// The digits of a port: the text behind an optional plus sign.
pub open spec fn port_digits(text: Seq<char>) -> Seq<char> {
    if text.len() > 0 && text[0] == '+' {
        text.skip(1)
    } else {
        text
    }
}

/// The port that a text stands for: at least one decimal digit, after an
/// optional plus sign, with a value that fits 16 bits.
pub open spec fn port_of(text: Seq<char>) -> Option<u16> {
    let digits = port_digits(text);
    if digits.len() > 0 && (forall|i: int| 0 <= i < digits.len() ==> is_digit(#[trigger] digits[i]))
        && digits_value(digits) <= u16::MAX {
        Some(digits_value(digits) as u16)
    } else {
        None
    }
}

proof fn lemma_digits_grow(digits: Seq<char>, count: int)
    requires
        0 <= count <= digits.len(),
        forall|i: int| 0 <= i < digits.len() ==> is_digit(#[trigger] digits[i]),
    ensures
        digits_value(digits.take(count)) <= digits_value(digits),
    decreases digits.len() - count,
{
    if count < digits.len() {
        lemma_digits_grow(digits, count + 1);
        assert(digits.take(count + 1).drop_last() =~= digits.take(count));
        assert(is_digit(digits[count]));
    } else {
        assert(digits.take(count) =~= digits);
    }
}

/// The port that a text stands for, if it is one.
pub fn parse_port(text: &str) -> (port: Option<u16>)
    ensures
        port == port_of(text@),
{
    let chars: Vec<char> = chars_of(text);
    let ghost digits = port_digits(text@);
    let start: usize = if chars.len() > 0 && chars[0] == '+' {
        1
    } else {
        0
    };
    assert(digits =~= text@.skip(start as int));
    if chars.len() == start {
        return None;
    }
    let mut value: u32 = 0;
    for i in start..chars.len()
        invariant
            chars@ == text@,
            start <= 1,
            digits == text@.skip(start as int),
            digits == port_digits(text@),
            value == digits_value(digits.take(i - start)),
            value <= u16::MAX,
            forall|k: int| 0 <= k < i - start ==> is_digit(#[trigger] digits[k]),
    {
        let c: char = chars[i];
        let ghost at = i - start;
        assert(digits[at] == c);
        assert(digits.take(at + 1).drop_last() =~= digits.take(at));
        assert(digits.take(at + 1).last() == c);
        if !('0' <= c && c <= '9') {
            assert(!is_digit(digits[at]));
            return None;
        }
        value = value * 10 + (c as u32 - '0' as u32);
        if value > 65535 {
            proof {
                if forall|k: int| 0 <= k < digits.len() ==> is_digit(#[trigger] digits[k]) {
                    lemma_digits_grow(digits, at + 1);
                }
            }
            return None;
        }
    }
    assert(digits.take(digits.len() as int) =~= digits);
    Some(value as u16)
}

/// A number in decimal.
pub fn to_decimal(value: u64) -> (text: String)
    ensures
        text@ == decimal(value as nat),
    decreases value,
{
    let digits: &str = "0123456789";
    proof {
        reveal_strlit("0123456789");
    }
    let last: usize = (value % 10) as usize;
    let unit: &str = digits.substring_char(last, last + 1);
    assert(unit@ =~= seq![digit(value as int % 10)]);
    if value < 10 {
        assert(decimal(value as nat) =~= unit@);
        unit.to_owned()
    } else {
        let mut text: String = to_decimal(value / 10);
        text.append(unit);
        assert(text@ =~= decimal(value as nat));
        text
    }
}

proof fn lemma_decimal_digits(value: nat)
    ensures
        decimal(value).len() > 0,
        forall|i: int| 0 <= i < decimal(value).len() ==> is_digit(#[trigger] decimal(value)[i]),
        digits_value(decimal(value)) == value,
    decreases value,
{
    if value < 10 {
        assert(decimal(value).drop_last() =~= Seq::<char>::empty());
        assert(digits_value(decimal(value).drop_last()) == 0);
    } else {
        lemma_decimal_digits(value / 10);
        assert(decimal(value).drop_last() =~= decimal(value / 10));
    }
}

/// Reading a port gives back the number that was written.
pub proof fn law_port_reads_back(port: u16)
    ensures
        port_of(decimal(port as nat)) == Some(port),
        forall|i: int|
            0 <= i < decimal(port as nat).len() ==> is_digit(#[trigger] decimal(port as nat)[i]),
{
    lemma_decimal_digits(port as nat);
    assert(is_digit(decimal(port as nat)[0]));
}

/// Numbers are written in decimal: another digit behind a number multiplies it
/// by ten and adds the digit, and only 0 starts with a 0.
pub proof fn law_numbers_are_written_in_decimal(front: nat, last: nat)
    requires
        last < 10,
    ensures
        decimal(last).len() == 1,
        decimal(last)[0] as int == '0' as int + last,
        front > 0 ==> decimal(front * 10 + last) == decimal(front) + decimal(last),
        front > 0 ==> decimal(front)[0] != '0',
    decreases front,
{
    let whole = front * 10 + last;
    if front > 0 {
        assert(whole / 10 == front && whole as int % 10 == last);
        assert(decimal(whole) =~= decimal(front) + decimal(last));
        if front >= 10 {
            law_numbers_are_written_in_decimal(front / 10, front % 10);
            assert(decimal(front)[0] == decimal(front / 10)[0]) by {
                lemma_decimal_digits(front / 10);
            }
        }
    }
}

/// A port is read digit by digit: one more digit multiplies it by ten and adds
/// the digit, and what no longer fits 16 bits, or is no digit, is no port. A
/// plus sign before the digits changes nothing, and without digits there is no
/// port.
pub proof fn law_ports_are_read_in_decimal(text: Seq<char>, next: char)
    requires
        text.len() > 0,
        text[0] != '+',
    ensures
        port_of(text) is None ==> port_of(text.push(next)) is None,
        port_of(text) matches Some(port) ==> port_of(text.push(next)) == if '0' <= next <= '9'
            && port * 10 + (next as int - '0' as int) < 0x1_0000 {
            Some((port * 10 + (next as int - '0' as int)) as u16)
        } else {
            None::<u16>
        },
        port_of(seq!['+'] + text) == port_of(text),
        port_of(Seq::empty()) is None,
        port_of(seq!['+']) is None,
        port_of(seq![next]) == if '0' <= next <= '9' {
            Some((next as int - '0' as int) as u16)
        } else {
            None::<u16>
        },
{
    let longer = text.push(next);
    assert(longer.drop_last() =~= text);
    assert(longer.last() == next);
    assert forall|i: int| 0 <= i < text.len() implies text[i] == #[trigger] longer[i] by {}
    assert(longer[longer.len() - 1] == next);
    if (forall|i: int| 0 <= i < longer.len() ==> is_digit(#[trigger] longer[i])) {
        assert forall|i: int| 0 <= i < text.len() implies is_digit(#[trigger] text[i]) by {
            assert(is_digit(longer[i]));
        }
        assert(is_digit(longer[longer.len() - 1]));
    } else if is_digit(next) && forall|i: int| 0 <= i < text.len() ==> is_digit(#[trigger] text[i]) {
        assert forall|i: int| 0 <= i < longer.len() implies is_digit(#[trigger] longer[i]) by {
            if i < text.len() {
                assert(is_digit(text[i]));
            }
        }
    }
    assert((seq!['+'] + text).skip(1) =~= text);
    assert(seq!['+'].skip(1) =~= Seq::<char>::empty());
    let single = seq![next];
    assert(single.drop_last() =~= Seq::<char>::empty());
    assert(digits_value(single.drop_last()) == 0);
    assert(single[0] == next);
    if next == '+' {
        assert(single.skip(1) =~= Seq::<char>::empty());
    }
}

/// Two texts are equal but for their case exactly if they are equally long and
/// each two characters are equal, or one of them is an ASCII letter from `A` to
/// `Z` and the other the same letter from `a` to `z`.
pub proof fn law_case_matters_for_ascii_letters_only(left: Seq<char>, right: Seq<char>)
    ensures
        same_ignoring_ascii_case(left, right) <==> left.len() == right.len() && forall|i: int|
            0 <= i < left.len() ==> (#[trigger] left[i] == right[i] || ('A' <= left[i] <= 'Z'
                && right[i] as int == left[i] as int + 32) || ('A' <= right[i] <= 'Z'
                && left[i] as int == right[i] as int + 32)),
{
    let lower_left = left.map_values(|c: char| ascii_lower(c));
    let lower_right = right.map_values(|c: char| ascii_lower(c));
    if same_ignoring_ascii_case(left, right) {
        assert(lower_left.len() == left.len() && lower_right.len() == right.len());
        assert forall|i: int| 0 <= i < left.len() implies (#[trigger] left[i] == right[i] || ('A'
            <= left[i] <= 'Z' && right[i] as int == left[i] as int + 32) || ('A' <= right[i] <= 'Z'
            && left[i] as int == right[i] as int + 32)) by {
            assert(lower_left[i] == lower_right[i]);
        }
    }
    if left.len() == right.len() && forall|i: int|
        0 <= i < left.len() ==> (#[trigger] left[i] == right[i] || ('A' <= left[i] <= 'Z'
            && right[i] as int == left[i] as int + 32) || ('A' <= right[i] <= 'Z' && left[i] as int
            == right[i] as int + 32)) {
        assert forall|i: int| 0 <= i < left.len() implies lower_left[i] == lower_right[i] by {
            assert(left[i] == left[i]);
        }
        assert(lower_left =~= lower_right);
    }
}

/// A text splits where a character first stands in it, and nowhere else.
pub proof fn law_texts_split_at_the_first(front: Seq<char>, wanted: char, back: Seq<char>)
    requires
        forall|i: int| 0 <= i < front.len() ==> front[i] != wanted,
    ensures
        before(front + seq![wanted] + back, wanted) == front,
        behind(front + seq![wanted] + back, wanted) == back,
        before(front, wanted) == front,
        behind(front, wanted).len() == 0,
{
    let text = front + seq![wanted] + back;
    let at = front.len() as int;
    assert forall|i: int| 0 <= i < at implies text[i] != wanted by {
        assert(text[i] == front[i]);
    }
    assert(text[at] == wanted);
    lemma_find(text, wanted, at);
    assert(text.take(at) =~= front);
    assert(text.skip(at + 1) =~= back);
}

/// A text that is set and empty counts as not set, and one that is not empty is
/// taken as it is.
pub proof fn law_empty_text_counts_as_none(text: Seq<char>)
    ensures
        given(None) is None,
        text.len() == 0 ==> given(Some(text)) is None,
        text.len() > 0 ==> given(Some(text)) == Some(text),
{
}

/// A port is digits behind at most one plus sign: any other character, wherever
/// it stands, makes it none.
pub proof fn law_ports_hold_nothing_but_digits(text: Seq<char>, at: int)
    requires
        0 <= at < text.len(),
        !('0' <= text[at] <= '9'),
        at > 0 || text[at] != '+',
    ensures
        port_of(text) is None,
{
    let digits = port_digits(text);
    if text[0] == '+' {
        assert(digits[at - 1] == text[at]);
        assert(!is_digit(digits[at - 1]));
    } else {
        assert(!is_digit(digits[at]));
    }
}

} // verus!
