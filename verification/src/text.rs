//! Texts: equality, order, and the spelling of numbers.

use vstd::prelude::*;

verus! {

/// The characters of a text, by the digit that each of them is.
pub open spec fn digit_characters() -> Seq<char> {
    "0123456789abcdef"@
}

/// The last `width` digits of `value` in the given base, the most significant first.
pub open spec fn digits(value: nat, base: nat, width: nat) -> Seq<char>
    decreases width,
{
    if width == 0 {
        Seq::empty()
    } else {
        digits(value / base, base, (width - 1) as nat).push(
            digit_characters()[(value % base) as int],
        )
    }
}

/// The spelling of a number in the given base, without leading zeros.
pub open spec fn numeral(value: nat, base: nat) -> Seq<char>
    decreases value,
{
    proof {
        if 2 <= base <= value {
            vstd::arithmetic::div_mod::lemma_div_decreases(value as int, base as int);
        }
    }
    if value < base || base < 2 {
        digits(value, base, 1)
    } else {
        numeral(value / base, base) + digits(value, base, 1)
    }
}

/// The decimal spelling of a number, without leading zeros.
pub open spec fn decimal(value: nat) -> Seq<char> {
    numeral(value, 10)
}

/// The characters of an optional text.
pub open spec fn optional_characters(text: Option<String>) -> Option<Seq<char>> {
    match text {
        Some(text) => Some(text@),
        None => None,
    }
}

/// The characters of each text of a list.
pub open spec fn characters_of(texts: Seq<String>) -> Seq<Seq<char>> {
    texts.map_values(|text: String| text@)
}

/// Whether the first text comes before the second: at the first place where they differ, or where
/// the first of them ends.
pub open spec fn text_before(left: Seq<char>, right: Seq<char>) -> bool
    decreases left.len(),
{
    if right.len() == 0 {
        false
    } else if left.len() == 0 {
        true
    } else if left[0] == right[0] {
        text_before(left.drop_first(), right.drop_first())
    } else {
        left[0] < right[0]
    }
}

/// No text comes before itself.
pub proof fn text_order_is_irreflexive(text: Seq<char>)
    ensures
        !text_before(text, text),
    decreases text.len(),
{
    if text.len() > 0 {
        text_order_is_irreflexive(text.drop_first());
    }
}

/// What comes before a text comes before everything that the text comes before.
pub proof fn text_order_is_transitive(first: Seq<char>, second: Seq<char>, third: Seq<char>)
    requires
        text_before(first, second),
        text_before(second, third),
    ensures
        text_before(first, third),
    decreases first.len(),
{
    if first.len() > 0 && first[0] == second[0] && second[0] == third[0] {
        text_order_is_transitive(first.drop_first(), second.drop_first(), third.drop_first());
    }
}

/// Of two different texts, one comes before the other.
pub proof fn text_order_is_total(left: Seq<char>, right: Seq<char>)
    ensures
        left == right || text_before(left, right) || text_before(right, left),
    decreases left.len(),
{
    if left.len() > 0 && right.len() > 0 && left[0] == right[0] {
        text_order_is_total(left.drop_first(), right.drop_first());
        if left.drop_first() == right.drop_first() {
            assert(left =~= seq![left[0]] + left.drop_first());
            assert(right =~= seq![right[0]] + right.drop_first());
        }
    } else if left.len() == 0 && right.len() == 0 {
        assert(left =~= right);
    }
}

/// Whether two texts hold the same characters.
pub fn same_text(left: &str, right: &str) -> (same: bool)
    ensures
        same == (left@ == right@),
{
    left.to_owned() == right.to_owned()
}

/// Whether two optional texts are both absent, or both present with the same characters.
pub fn same_optional_text(left: &Option<String>, right: &Option<String>) -> (same: bool)
    ensures
        same == (optional_characters(*left) == optional_characters(*right)),
{
    match (left, right) {
        (Some(left), Some(right)) => *left == *right,
        (None, None) => true,
        (Some(_), None) => false,
        (None, Some(_)) => false,
    }
}

/// Whether the first text comes before the second.
pub fn text_is_before(left: &str, right: &str) -> (before: bool)
    ensures
        before == text_before(left@, right@),
{
    let left_length: usize = left.unicode_len();
    let right_length: usize = right.unicode_len();
    let mut place: usize = 0;
    assert(left@.skip(0) =~= left@);
    assert(right@.skip(0) =~= right@);
    while place < left_length && place < right_length
        invariant
            left_length == left@.len(),
            right_length == right@.len(),
            place <= left_length,
            place <= right_length,
            text_before(left@, right@) == text_before(
                left@.skip(place as int),
                right@.skip(place as int),
            ),
        decreases left_length - place,
    {
        let left_character: char = left.get_char(place);
        let right_character: char = right.get_char(place);
        assert(left@.skip(place as int)[0] == left_character);
        assert(right@.skip(place as int)[0] == right_character);
        assert(left@.skip(place as int).drop_first() =~= left@.skip(place + 1));
        assert(right@.skip(place as int).drop_first() =~= right@.skip(place + 1));
        if left_character != right_character {
            return left_character < right_character;
        }
        place = place + 1;
    }
    place < right_length
}

/// Appends one digit.
fn append_digit(text: &mut String, digit: usize)
    requires
        digit < 16,
    ensures
        final(text)@ == old(text)@.push(digit_characters()[digit as int]),
{
    let characters = "0123456789abcdef";
    proof {
        reveal_strlit("0123456789abcdef");
    }
    let spelled = characters.substring_char(digit, digit + 1);
    assert(spelled@ =~= seq![digit_characters()[digit as int]]);
    text.append(spelled);
    assert(text@ =~= old(text)@.push(digit_characters()[digit as int]));
}

/// Appends the last `width` digits of `value` in base eight, ten or sixteen.
pub fn append_digits(text: &mut String, value: u64, base: u64, width: usize)
    requires
        base == 8 || base == 10 || base == 16,
    ensures
        final(text)@ == old(text)@ + digits(value as nat, base as nat, width as nat),
    decreases width,
{
    if width == 0 {
        assert(text@ =~= old(text)@ + digits(value as nat, base as nat, width as nat));
    } else {
        append_digits(text, value / base, base, width - 1);
        append_digit(text, (value % base) as usize);
        assert(text@ =~= old(text)@ + digits(value as nat, base as nat, width as nat));
    }
}

/// Appends the spelling of `value` in base eight, ten or sixteen, without leading zeros.
pub fn append_numeral(text: &mut String, value: u64, base: u64)
    requires
        base == 8 || base == 10 || base == 16,
    ensures
        final(text)@ == old(text)@ + numeral(value as nat, base as nat),
    decreases value,
{
    if value < base {
        append_digits(text, value, base, 1);
    } else {
        append_numeral(text, value / base, base);
        append_digits(text, value, base, 1);
        assert(text@ =~= old(text)@ + numeral(value as nat, base as nat));
    }
}

/// The hexadecimal spelling of a byte string, two digits for each byte.
pub open spec fn hexadecimal(bytes: Seq<u8>) -> Seq<char>
    decreases bytes.len(),
{
    if bytes.len() == 0 {
        Seq::empty()
    } else {
        hexadecimal(bytes.drop_last()) + digits(bytes.last() as nat, 16, 2)
    }
}

/// Appends the hexadecimal spelling of a byte string.
pub fn append_hexadecimal(text: &mut String, bytes: &[u8])
    ensures
        final(text)@ == old(text)@ + hexadecimal(bytes@),
{
    let mut place: usize = 0;
    assert(text@ =~= old(text)@ + hexadecimal(bytes@.take(0)));
    while place < bytes.len()
        invariant
            place <= bytes@.len(),
            text@ == old(text)@ + hexadecimal(bytes@.take(place as int)),
        decreases bytes.len() - place,
    {
        append_digits(text, bytes[place] as u64, 16, 2);
        assert(bytes@.take(place + 1).drop_last() =~= bytes@.take(place as int));
        assert(text@ =~= old(text)@ + hexadecimal(bytes@.take(place + 1)));
        place = place + 1;
    }
    assert(bytes@.take(bytes@.len() as int) =~= bytes@);
}

/// A number of a given number of digits is spelled with that many characters.
pub proof fn digits_have_the_given_width(value: nat, base: nat, width: nat)
    requires
        base == 10 || base == 16,
    ensures
        digits(value, base, width).len() == width,
    decreases width,
{
    if width > 0 {
        digits_have_the_given_width(value / base, base, (width - 1) as nat);
    }
}

/// The power of a base.
pub open spec fn power(base: nat, exponent: nat) -> nat
    decreases exponent,
{
    if exponent == 0 {
        1
    } else {
        base * power(base, (exponent - 1) as nat)
    }
}

/// Numbers that a given number of digits can spell are spelled apart: no two of them have the same
/// digits.
pub proof fn digits_tell_numbers_apart(left: nat, right: nat, base: nat, width: nat)
    requires
        base == 10 || base == 16,
        left < power(base, width),
        right < power(base, width),
        digits(left, base, width) == digits(right, base, width),
    ensures
        left == right,
    decreases width,
{
    if width > 0 {
        let shorter = (width - 1) as nat;
        let left_digits = digits(left / base, base, shorter);
        let right_digits = digits(right / base, base, shorter);
        let last_left = digit_characters()[(left % base) as int];
        let last_right = digit_characters()[(right % base) as int];
        assert(left_digits.push(last_left).drop_last() =~= left_digits);
        assert(right_digits.push(last_right).drop_last() =~= right_digits);
        assert(left_digits.push(last_left).last() == last_left);
        assert(right_digits.push(last_right).last() == last_right);
        reveal_strlit("0123456789abcdef");
        let bound = power(base, shorter);
        assert(left / base < bound && right / base < bound) by (nonlinear_arith)
            requires
                left < base * bound,
                right < base * bound,
                base == 10 || base == 16,
        ;
        digits_tell_numbers_apart(left / base, right / base, base, shorter);
        assert(left % base == right % base);
        assert(left == base * (left / base) + left % base) by (nonlinear_arith)
            requires
                base == 10 || base == 16,
        ;
        assert(right == base * (right / base) + right % base) by (nonlinear_arith)
            requires
                base == 10 || base == 16,
        ;
    }
}

/// Two texts in a row.
pub fn join_two(first: &str, second: &str) -> (joined: String)
    ensures
        joined@ == first@ + second@,
{
    let mut joined: String = first.to_owned();
    joined.append(second);
    joined
}

/// Three texts in a row.
pub fn join_three(first: &str, second: &str, third: &str) -> (joined: String)
    ensures
        joined@ == first@ + second@ + third@,
{
    let mut joined: String = first.to_owned();
    joined.append(second);
    joined.append(third);
    joined
}

/// Four texts in a row.
pub fn join_four(first: &str, second: &str, third: &str, fourth: &str) -> (joined: String)
    ensures
        joined@ == first@ + second@ + third@ + fourth@,
{
    let mut joined: String = join_three(first, second, third);
    joined.append(fourth);
    joined
}

/// Five texts in a row.
pub fn join_five(first: &str, second: &str, third: &str, fourth: &str, fifth: &str) -> (joined:
    String)
    ensures
        joined@ == first@ + second@ + third@ + fourth@ + fifth@,
{
    let mut joined: String = join_three(first, second, third);
    joined.append(fourth);
    joined.append(fifth);
    joined
}

/// The spelling of a number in base eight, ten or sixteen, without leading zeros.
pub fn numeral_text(value: u64, base: u64) -> (text: String)
    requires
        base == 8 || base == 10 || base == 16,
    ensures
        text@ == numeral(value as nat, base as nat),
{
    let mut text: String = String::new();
    append_numeral(&mut text, value, base);
    assert(text@ =~= numeral(value as nat, base as nat));
    text
}

/// The decimal spelling of a number.
pub fn decimal_text(value: u64) -> (text: String)
    ensures
        text@ == decimal(value as nat),
{
    numeral_text(value, 10)
}

/// The same texts once more.
pub fn copy_texts(texts: &Vec<String>) -> (copy: Vec<String>)
    ensures
        copy@ == texts@,
{
    let mut copy: Vec<String> = Vec::new();
    let mut place: usize = 0;
    while place < texts.len()
        invariant
            place <= texts@.len(),
            copy@ == texts@.take(place as int),
        decreases texts@.len() - place,
    {
        copy.push(texts[place].clone());
        assert(copy@ =~= texts@.take(place + 1));
        place = place + 1;
    }
    assert(texts@.take(place as int) =~= texts@);
    copy
}

/// `std::str::from_utf8`: the text that the bytes encode, and nothing where they encode none.
#[verifier::external_body]
pub(crate) fn text_from_utf8(bytes: &[u8]) -> (text: Option<&str>)
    ensures
        match text {
            Some(text) => vstd::utf8::valid_utf8(bytes@) && text@ == vstd::utf8::decode_utf8(
                bytes@,
            ),
            None => !vstd::utf8::valid_utf8(bytes@),
        },
{
    std::str::from_utf8(bytes).ok()
}

/// The digit that a character is.
pub open spec fn digit_of(character: char) -> int {
    if '0' <= character <= '9' {
        character as int - '0' as int
    } else {
        character as int - 'a' as int + 10
    }
}

/// The number that digits spell in a base.
pub open spec fn number_spelled(spelling: Seq<char>, base: nat) -> int
    decreases spelling.len(),
{
    if spelling.len() == 0 {
        0
    } else {
        number_spelled(spelling.drop_last(), base) * base + digit_of(spelling.last())
    }
}

proof fn a_digit_is_its_character(digit: int)
    requires
        0 <= digit < 16,
    ensures
        digit_of(digit_characters()[digit]) == digit,
        digit_characters()[digit] == '0' <==> digit == 0,
{
    reveal_strlit("0123456789abcdef");
}

/// A numeral is read back as its number, and begins with no zero unless it is zero.
pub proof fn a_numeral_spells_its_number(value: nat, base: nat)
    requires
        2 <= base <= 16,
    ensures
        numeral(value, base).len() > 0,
        number_spelled(numeral(value, base), base) == value,
        numeral(value, base)[0] == '0' <==> value == 0,
    decreases value,
{
    let last = digits(value, base, 1);
    let shorter = digits(value / base, base, 0);
    assert(last =~= shorter.push(digit_characters()[(value % base) as int]));
    assert(value % base < base) by (nonlinear_arith)
        requires
            base > 0,
    ;
    a_digit_is_its_character((value % base) as int);
    let spelled = numeral(value, base);
    if value < base {
        assert(value % base == value) by (nonlinear_arith)
            requires
                value < base,
        ;
        assert(spelled =~= seq![digit_characters()[value as int]]);
        assert(spelled.drop_last() =~= Seq::<char>::empty());
        assert(number_spelled(spelled.drop_last(), base) == 0);
        assert(0 * base == 0) by (nonlinear_arith);
    } else {
        vstd::arithmetic::div_mod::lemma_div_decreases(value as int, base as int);
        vstd::arithmetic::div_mod::lemma_div_non_zero(value as int, base as int);
        a_numeral_spells_its_number(value / base, base);
        let before = numeral(value / base, base);
        assert(spelled =~= before + last);
        assert(spelled.drop_last() =~= before);
        assert(spelled.last() == digit_characters()[(value % base) as int]);
        vstd::arithmetic::div_mod::lemma_fundamental_div_mod(value as int, base as int);
        assert((value / base) * base == base * (value / base)) by (nonlinear_arith);
        assert(spelled[0] == before[0]);
    }
}

proof fn a_pair_of_digits_spells_its_byte(byte: u8)
    ensures
        digits(byte as nat, 16, 2).len() == 2,
        number_spelled(digits(byte as nat, 16, 2), 16) == byte,
{
    let high_digit: int = byte as int / 16;
    let low_digit: int = byte as int % 16;
    let pair = digits(byte as nat, 16, 2);
    let high = digits(byte as nat / 16, 16, 1);
    let none = digits(byte as nat / 16 / 16, 16, 0);
    assert(none =~= Seq::<char>::empty());
    assert((byte as nat / 16) % 16 == high_digit);
    assert(high == none.push(digit_characters()[high_digit]));
    assert(pair == high.push(digit_characters()[low_digit]));
    a_digit_is_its_character(high_digit);
    a_digit_is_its_character(low_digit);
    assert(pair.drop_last() =~= high);
    assert(high.drop_last() =~= none);
    assert(number_spelled(none, 16) == 0);
    assert(number_spelled(high, 16) == high_digit);
}

/// The hexadecimal spelling of bytes is read back byte by byte, two digits for each.
pub proof fn a_hexadecimal_spells_its_bytes(bytes: Seq<u8>, place: int)
    requires
        0 <= place < bytes.len(),
    ensures
        hexadecimal(bytes).len() == 2 * bytes.len(),
        number_spelled(hexadecimal(bytes).subrange(2 * place, 2 * place + 2), 16) == bytes[place],
    decreases bytes.len(),
{
    let before = bytes.drop_last();
    let pair = digits(bytes.last() as nat, 16, 2);
    a_pair_of_digits_spells_its_byte(bytes.last());
    let spelled = hexadecimal(bytes);
    assert(spelled == hexadecimal(before) + pair);
    if before.len() > 0 {
        a_hexadecimal_spells_its_bytes(before, if place < before.len() {
            place
        } else {
            0
        });
    }
    assert(hexadecimal(before).len() == 2 * before.len());
    if place < before.len() {
        assert(spelled.subrange(2 * place, 2 * place + 2) =~= hexadecimal(before).subrange(
            2 * place,
            2 * place + 2,
        ));
    } else {
        assert(spelled.subrange(2 * place, 2 * place + 2) =~= pair);
    }
}

} // verus!
