//! The format of the data files: whole numbers in decimal notation,
//! separated by white space.
use vstd::prelude::*;
use crate::units::clamp_i64;

verus! {

/// Whether a byte is white space: a blank, a tabulator, or an end of line
/// or of page.
pub open spec fn is_space(byte: u8) -> bool {
    byte == 32 || (9 <= byte <= 13)
}

/// Whether a byte is a decimal digit.
pub open spec fn is_digit(byte: u8) -> bool {
    48 <= byte <= 57
}

/// The number that decimal digits stand for.
pub open spec fn digits_value(digits: Seq<u8>) -> int
    decreases digits.len(),
{
    if digits.len() == 0 {
        0
    } else {
        10 * digits_value(digits.drop_last()) + (digits.last() - 48)
    }
}

/// The position behind the digits that begin at `from`.
pub open spec fn digits_end(bytes: Seq<u8>, from: int) -> int
    decreases bytes.len() - from,
{
    if 0 <= from < bytes.len() && is_digit(bytes[from]) {
        digits_end(bytes, from + 1)
    } else {
        from
    }
}

/// The position behind the word that begins at `from`: that of the next
/// white space, or the end.
pub open spec fn token_end(bytes: Seq<u8>, from: int) -> int
    decreases bytes.len() - from,
{
    if 0 <= from < bytes.len() && !is_space(bytes[from]) {
        token_end(bytes, from + 1)
    } else {
        from
    }
}

/// The number that a word stands for: an optional sign, then at least one
/// digit, then optionally a point and any number of digits, which do not
/// count. A number beyond the range of `i64` gives the end of the range.
/// Any other word stands for no number.
pub open spec fn number_of(token: Seq<u8>) -> Option<i64> {
    let signed = token.len() > 0 && (token[0] == 43 || token[0] == 45);
    let start: int = if signed {
        1
    } else {
        0
    };
    let end = digits_end(token, start);
    let value = digits_value(token.subrange(start, end));
    if end == start {
        None
    } else if end == token.len() || (token[end] == 46 && digits_end(token, end + 1)
        == token.len()) {
        Some(
            clamp_i64(
                if signed && token[0] == 45 {
                    -value
                } else {
                    value
                },
            ),
        )
    } else {
        None
    }
}

/// The numbers that the words from `from` on stand for, if each of them
/// stands for a number.
pub open spec fn numbers_from(bytes: Seq<u8>, from: int) -> Option<Seq<i64>>
    decreases bytes.len() - from,
{
    if from < 0 || from >= bytes.len() {
        Some(Seq::empty())
    } else if is_space(bytes[from]) {
        numbers_from(bytes, from + 1)
    } else {
        let end = token_end(bytes, from + 1);
        proof {
            lemma_token_end(bytes, from + 1);
        }
        match number_of(bytes.subrange(from, end)) {
            Some(number) => match numbers_from(bytes, end) {
                Some(rest) => Some(seq![number] + rest),
                None => None,
            },
            None => None,
        }
    }
}

/// The numbers `found` so far, followed by those that follow, if there are any.
pub open spec fn followed_by(found: Seq<i64>, rest: Option<Seq<i64>>) -> Option<Seq<i64>> {
    match rest {
        Some(rest) => Some(found + rest),
        None => None,
    }
}

/// A word ends at or behind its beginning and within the text.
pub proof fn lemma_token_end(bytes: Seq<u8>, from: int)
    requires
        0 <= from <= bytes.len(),
    ensures
        from <= token_end(bytes, from) <= bytes.len(),
        forall|i: int| from <= i < token_end(bytes, from) ==> !is_space(#[trigger] bytes[i]),
        token_end(bytes, from) < bytes.len() ==> is_space(bytes[token_end(bytes, from)]),
    decreases bytes.len() - from,
{
    if from < bytes.len() && !is_space(bytes[from]) {
        lemma_token_end(bytes, from + 1);
    }
}

/// Digits that begin at `from` and go on up to `to` end where those end
/// that begin at `to`.
proof fn lemma_digits_go_on(bytes: Seq<u8>, from: int, to: int)
    requires
        0 <= from <= to <= bytes.len(),
        forall|i: int| from <= i < to ==> is_digit(#[trigger] bytes[i]),
    ensures
        digits_end(bytes, from) == digits_end(bytes, to),
    decreases to - from,
{
    if from < to {
        lemma_digits_go_on(bytes, from + 1, to);
    }
}

/// A word that begins at `from` and goes on up to `to` ends where the word
/// ends that begins at `to`.
proof fn lemma_token_goes_on(bytes: Seq<u8>, from: int, to: int)
    requires
        0 <= from <= to <= bytes.len(),
        forall|i: int| from <= i < to ==> !is_space(#[trigger] bytes[i]),
    ensures
        token_end(bytes, from) == token_end(bytes, to),
    decreases to - from,
{
    if from < to {
        lemma_token_goes_on(bytes, from + 1, to);
    }
}

/// Greatest value that is kept of the digits of a number: beyond it a
/// number lies beyond the range of `i64` whatever follows.
const DIGITS_LIMIT: i128 = 10_000_000_000_000_000_000;

fn is_space_byte(byte: u8) -> (r: bool)
    ensures
        r == is_space(byte),
{
    byte == 32 || (9 <= byte && byte <= 13)
}

fn is_digit_byte(byte: u8) -> (r: bool)
    ensures
        r == is_digit(byte),
{
    48 <= byte && byte <= 57
}

/// The position behind the digits of `token` that begin at `from`, and the
/// number that they stand for, as far as it is kept.
fn read_digits(token: &Vec<u8>, from: usize) -> (r: (usize, i128))
    requires
        from <= token@.len(),
    ensures
        r.0 == digits_end(token@, from as int),
        from <= r.0 <= token@.len(),
        0 <= r.1 <= DIGITS_LIMIT,
        r.1 == if digits_value(token@.subrange(from as int, r.0 as int)) > DIGITS_LIMIT {
            DIGITS_LIMIT as int
        } else {
            digits_value(token@.subrange(from as int, r.0 as int))
        },
{
    let mut end: usize = from;
    let mut value: i128 = 0;
    proof {
        assert(token@.subrange(from as int, from as int) =~= Seq::<u8>::empty());
    }
    while end < token.len() && is_digit_byte(token[end])
        invariant
            from <= end <= token@.len(),
            forall|i: int| from <= i < end ==> is_digit(#[trigger] token@[i]),
            0 <= value <= DIGITS_LIMIT,
            0 <= digits_value(token@.subrange(from as int, end as int)),
            value == if digits_value(token@.subrange(from as int, end as int)) > DIGITS_LIMIT {
                DIGITS_LIMIT as int
            } else {
                digits_value(token@.subrange(from as int, end as int))
            },
        decreases token@.len() - end,
    {
        let digit: i128 = (token[end] - 48) as i128;
        proof {
            let longer = token@.subrange(from as int, end + 1);
            assert(longer.drop_last() =~= token@.subrange(from as int, end as int));
            assert(longer.last() == token@[end as int]);
        }
        let next: i128 = 10 * value + digit;
        value = if next > DIGITS_LIMIT { DIGITS_LIMIT } else { next };
        end += 1;
    }
    proof {
        lemma_digits_go_on(token@, from as int, end as int);
    }
    (end, value)
}

/// The number that a word stands for.
pub fn parse_number(token: &Vec<u8>) -> (r: Option<i64>)
    ensures
        r == number_of(token@),
{
    let signed = token.len() > 0 && (token[0] == 43 || token[0] == 45);
    let start: usize = if signed { 1 } else { 0 };
    let (end, value) = read_digits(token, start);
    if end == start {
        return None;
    }
    if end < token.len() {
        if token[end] != 46 {
            return None;
        }
        let (fraction_end, _) = read_digits(token, end + 1);
        if fraction_end != token.len() {
            return None;
        }
    }
    let signed_value: i128 = if signed && token[0] == 45 { -value } else { value };
    Some(
        if signed_value < i64::MIN as i128 {
            i64::MIN
        } else if signed_value > i64::MAX as i128 {
            i64::MAX
        } else {
            signed_value as i64
        },
    )
}

/// The numbers that a data file holds: the words between white space, each
/// of which has to stand for a number. Gives `None` where one of them does not.
pub fn load_data(bytes: &Vec<u8>) -> (r: Option<Vec<i64>>)
    ensures
        match r {
            Some(data) => numbers_from(bytes@, 0) == Some(data@),
            None => numbers_from(bytes@, 0).is_none(),
        },
{
    let mut data: Vec<i64> = Vec::new();
    let mut i: usize = 0;
    proof {
        assert(followed_by(data@, numbers_from(bytes@, 0)) == numbers_from(bytes@, 0)) by {
            if numbers_from(bytes@, 0).is_some() {
                assert(data@ + numbers_from(bytes@, 0).unwrap() =~= numbers_from(bytes@, 0).unwrap());
            }
        }
    }
    while i < bytes.len()
        invariant
            i <= bytes@.len(),
            numbers_from(bytes@, 0) == followed_by(data@, numbers_from(bytes@, i as int)),
        decreases bytes@.len() - i,
    {
        if is_space_byte(bytes[i]) {
            i += 1;
        } else {
            let mut token: Vec<u8> = Vec::new();
            let start = i;
            while i < bytes.len() && !is_space_byte(bytes[i])
                invariant
                    start <= i <= bytes@.len(),
                    forall|k: int| start <= k < i ==> !is_space(#[trigger] bytes@[k]),
                    token@ == bytes@.subrange(start as int, i as int),
                decreases bytes@.len() - i,
            {
                token.push(bytes[i]);
                proof {
                    assert(bytes@.subrange(start as int, i + 1) =~= bytes@.subrange(
                        start as int,
                        i as int,
                    ).push(bytes@[i as int]));
                }
                i += 1;
            }
            proof {
                lemma_token_goes_on(bytes@, start + 1, i as int);
                lemma_token_end(bytes@, i as int);
                assert(token_end(bytes@, start + 1) == i);
            }
            match parse_number(&token) {
                Some(number) => {
                    proof {
                        let rest = numbers_from(bytes@, i as int);
                        if rest.is_some() {
                            assert(data@.push(number) + rest.unwrap() =~= data@ + (seq![number]
                                + rest.unwrap()));
                        }
                    }
                    data.push(number);
                },
                None => {
                    return None;
                },
            }
        }
    }
    proof {
        assert(data@ + Seq::<i64>::empty() =~= data@);
    }
    Some(data)
}

} // verus!
