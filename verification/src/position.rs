//! A player's answer read as a position: two numbers from 1 to 3 on one
//! line, the row and then the column.

use vstd::prelude::*;
use crate::text::{decimal, push_decimal};

verus! {

/// Why a word is not a number.
#[derive(Clone, Copy, Debug, PartialEq, Eq, Structural)]
pub enum NumberError {
    /// The word is empty.
    Empty,
    /// A character is no decimal digit, or the word is a lone plus sign.
    InvalidDigit,
    /// The digits read so far give more than a `usize` holds.
    Overflow,
}

/// Why a line is not a position.
#[derive(Clone, Copy, Debug, PartialEq, Eq, Structural)]
pub enum PositionError {
    /// The line does not hold exactly two words.
    ArgumentCount,
    /// The first word that is not a number, with the reason.
    Number(NumberError),
    /// Both words are numbers, but one of them is not 1, 2 or 3.
    BadValues(usize, usize),
}

impl NumberError {
    /// The message for the player.
    pub open spec fn message_text(self) -> Seq<char> {
        match self {
            NumberError::Empty => "cannot parse integer from empty string"@,
            NumberError::InvalidDigit => "invalid digit found in string"@,
            NumberError::Overflow => "number too large to fit in target type"@,
        }
    }

    /// The message for the player.
    pub fn message(&self) -> (text: &'static str)
        ensures
            text@ == self.message_text(),
    {
        match self {
            NumberError::Empty => "cannot parse integer from empty string",
            NumberError::InvalidDigit => "invalid digit found in string",
            NumberError::Overflow => "number too large to fit in target type",
        }
    }
}

impl PositionError {
    /// The message for the player. Bad values are shown as they were typed,
    /// counted from one.
    pub open spec fn message_text(self) -> Seq<char> {
        match self {
            PositionError::ArgumentCount => "Not enough argument"@,
            PositionError::Number(e) => e.message_text(),
            PositionError::BadValues(i, j) => "Bad values: ("@ + decimal(i as nat) + ", "@
                + decimal(j as nat) + ")"@,
        }
    }

    /// The message for the player.
    pub fn message(&self) -> (text: String)
        ensures
            text@ == self.message_text(),
    {
        let mut text = String::new();
        match self {
            PositionError::ArgumentCount => {
                text.append("Not enough argument");
            },
            PositionError::Number(e) => {
                text.append(e.message());
            },
            PositionError::BadValues(i, j) => {
                text.append("Bad values: (");
                push_decimal(&mut text, *i as u128);
                text.append(", ");
                push_decimal(&mut text, *j as u128);
                text.append(")");
            },
        }
        text
    }
}

/// `c` separates words: a character with the Unicode property White_Space.
pub open spec fn white_space(c: char) -> bool {
    ||| '\u{9}' <= c <= '\u{D}'
    ||| c == ' '
    ||| c == '\u{85}'
    ||| c == '\u{A0}'
    ||| c == '\u{1680}'
    ||| '\u{2000}' <= c <= '\u{200A}'
    ||| c == '\u{2028}'
    ||| c == '\u{2029}'
    ||| c == '\u{202F}'
    ||| c == '\u{205F}'
    ||| c == '\u{3000}'
}

/// The words of `s`: its longest runs of characters that are not white
/// space, in order. Read from the last character: white space adds nothing,
/// a character behind another character of a word lengthens the last word,
/// and any other character begins a new word.
pub open spec fn words(s: Seq<char>) -> Seq<Seq<char>>
    decreases s.len(),
{
    if s.len() == 0 {
        Seq::empty()
    } else if white_space(s.last()) {
        words(s.drop_last())
    } else if s.len() >= 2 && !white_space(s[s.len() - 2]) {
        let before = words(s.drop_last());
        before.drop_last().push(before.last().push(s.last()))
    } else {
        words(s.drop_last()).push(seq![s.last()])
    }
}

/// The value of the decimal digit `c`, or `None` for any other character.
pub open spec fn digit_value(c: char) -> Option<nat> {
    if '0' <= c <= '9' {
        Some((c as nat - '0' as nat) as nat)
    } else {
        None
    }
}

/// The number that the digits `s` write, read from the left. The first
/// character that is no digit, or the first digit with which the value no
/// longer fits a `usize`, decides the error.
pub open spec fn digits_value(s: Seq<char>) -> Result<usize, NumberError>
    decreases s.len(),
{
    if s.len() == 0 {
        Ok(0)
    } else {
        match digits_value(s.drop_last()) {
            Err(e) => Err(e),
            Ok(v) => match digit_value(s.last()) {
                None => Err(NumberError::InvalidDigit),
                Some(d) => if v * 10 + d > usize::MAX {
                    Err(NumberError::Overflow)
                } else {
                    Ok((v * 10 + d) as usize)
                },
            },
        }
    }
}

/// The number that `word` writes: decimal digits, with one plus sign allowed
/// in front of them.
pub open spec fn number(word: Seq<char>) -> Result<usize, NumberError> {
    if word.len() == 0 {
        Err(NumberError::Empty)
    } else if word.len() == 1 && word[0] == '+' {
        Err(NumberError::InvalidDigit)
    } else if word[0] == '+' {
        digits_value(word.drop_first())
    } else {
        digits_value(word)
    }
}

/// The position that the line `s` gives. The line holds exactly two words,
/// each a number from 1 to 3: the row, then the column, counted from one.
/// The position counts them from zero.
pub open spec fn position(s: Seq<char>) -> Result<(usize, usize), PositionError> {
    let ws = words(s);
    if ws.len() != 2 {
        Err(PositionError::ArgumentCount)
    } else {
        match number(ws[0]) {
            Err(e) => Err(PositionError::Number(e)),
            Ok(i) => match number(ws[1]) {
                Err(e) => Err(PositionError::Number(e)),
                Ok(j) => if i > 3 || j > 3 || i == 0 || j == 0 {
                    Err(PositionError::BadValues(i, j))
                } else {
                    Ok(((i - 1) as usize, (j - 1) as usize))
                },
            },
        }
    }
}

/// The words that the vectors `ws` hold, as plain sequences.
pub open spec fn texts(ws: Seq<Vec<char>>) -> Seq<Seq<char>> {
    ws.map_values(|w: Vec<char>| w@)
}

/// Whether `c` separates words.
pub fn is_white_space(c: char) -> (b: bool)
    ensures
        b == white_space(c),
{
    ('\u{9}' <= c && c <= '\u{D}') || c == ' ' || c == '\u{85}' || c == '\u{A0}' || c
        == '\u{1680}' || ('\u{2000}' <= c && c <= '\u{200A}') || c == '\u{2028}' || c
        == '\u{2029}' || c == '\u{202F}' || c == '\u{205F}' || c == '\u{3000}'
}

/// Splits `input` into its words.
pub fn split_words(input: &str) -> (ws: Vec<Vec<char>>)
    ensures
        texts(ws@) == words(input@),
{
    let mut ws: Vec<Vec<char>> = Vec::new();
    let mut current: Vec<char> = Vec::new();
    for c in it: input.chars()
        invariant
            it.seq() == input@,
            current@.len() > 0 <==> it.index() > 0 && !white_space(input@[it.index() - 1]),
            words(input@.take(it.index() as int)) == if current@.len() > 0 {
                texts(ws@).push(current@)
            } else {
                texts(ws@)
            },
    {
        let ghost i = it.index() as int;
        assert(input@.take(i + 1).drop_last() =~= input@.take(i));
        if is_white_space(c) {
            if current.len() > 0 {
                ws.push(current);
                current = Vec::new();
            }
        } else {
            current.push(c);
            assert(current@.len() == 1 ==> current@ =~= seq![c]);
        }
    }
    assert(input@.take(input@.len() as int) =~= input@);
    if current.len() > 0 {
        ws.push(current);
    }
    ws
}

/// Reads `word` as a number: decimal digits, with one plus sign allowed in
/// front of them, and a value that a `usize` holds.
pub fn parse_number(word: &Vec<char>) -> (res: Result<usize, NumberError>)
    ensures
        res == number(word@),
{
    let n = word.len();
    if n == 0 {
        return Err(NumberError::Empty);
    }
    let start: usize = if word[0] == '+' {
        1
    } else {
        0
    };
    if n == start {
        return Err(NumberError::InvalidDigit);
    }
    let ghost text = word@.subrange(start as int, n as int);
    assert(text =~= if word@[0] == '+' {
        word@.drop_first()
    } else {
        word@
    });
    let mut value: usize = 0;
    let mut i: usize = start;
    while i < n
        invariant
            start <= i <= n,
            n == word@.len(),
            text == word@.subrange(start as int, n as int),
            number(word@) == digits_value(text),
            digits_value(text.take(i - start)) == Ok::<usize, NumberError>(value),
            i == n ==> digits_value(text) == Ok::<usize, NumberError>(value),
        decreases n - i,
    {
        let c = word[i];
        let ghost next = text.take(i - start + 1);
        proof {
            assert(next.drop_last() =~= text.take(i - start));
            lemma_digits_value_error(next, text);
        }
        if !('0' <= c && c <= '9') {
            return Err(NumberError::InvalidDigit);
        }
        let d: usize = (c as u32 - '0' as u32) as usize;
        if value > (usize::MAX - d) / 10 {
            return Err(NumberError::Overflow);
        }
        value = value * 10 + d;
        i += 1;
    }
    Ok(value)
}

/// An error met while reading a prefix of `s` is the error of `s`.
proof fn lemma_digits_value_error(prefix: Seq<char>, s: Seq<char>)
    requires
        prefix.len() <= s.len(),
        prefix == s.take(prefix.len() as int),
    ensures
        digits_value(prefix) is Err ==> digits_value(s) == digits_value(prefix),
    decreases s.len(),
{
    if prefix.len() < s.len() {
        assert(s.drop_last().take(prefix.len() as int) =~= prefix);
        lemma_digits_value_error(prefix, s.drop_last());
    } else {
        assert(prefix =~= s);
    }
}

/// Reads a line as a position: two words, the row and the column, each a
/// number from 1 to 3. The position that comes back counts from zero.
///
/// The words are counted first, then the first word is read, then the
/// second, and then both values are checked: the error is that of the first
/// step that fails.
pub fn get_position(input: String) -> (res: Result<(usize, usize), PositionError>)
    ensures
        res == position(input@),
{
    let ws = split_words(input.as_str());
    if ws.len() != 2 {
        return Err(PositionError::ArgumentCount);
    }
    let i = match parse_number(&ws[0]) {
        Ok(i) => i,
        Err(e) => {
            return Err(PositionError::Number(e));
        },
    };
    let j = match parse_number(&ws[1]) {
        Ok(j) => j,
        Err(e) => {
            return Err(PositionError::Number(e));
        },
    };
    if i > 3 || j > 3 || i == 0 || j == 0 {
        return Err(PositionError::BadValues(i, j));
    }
    Ok((i - 1, j - 1))
}

} // verus!
