//! The scanner: from the text of a program to the lexemes of its lines, and
//! from a lexeme to a token.
use crate::text::chars_of;
use crate::text::find_char;
use crate::text::length_before;
use crate::text::is_whitespace;
use crate::text::spec_is_whitespace;
use crate::text::str_eq;
use crate::text::string_of;
use vstd::prelude::*;

verus! {

/// A lexeme with its meaning.
pub enum Token {
    Identifier(String),
    Integer(i64),
    Boolean(bool),
    /// The bit pattern of an IEEE 754 double.
    Float(u64),
    Character(char),
    String(String),
}

/// The mathematical model of a [`Token`].
pub enum SpecToken {
    Identifier(Seq<char>),
    Integer(i64),
    Boolean(bool),
    Float(u64),
    Character(char),
    String(Seq<char>),
}

impl View for Token {
    type V = SpecToken;

    open spec fn view(&self) -> SpecToken {
        match self {
            Token::Identifier(name) => SpecToken::Identifier(name@),
            Token::Integer(i) => SpecToken::Integer(*i),
            Token::Boolean(b) => SpecToken::Boolean(*b),
            Token::Float(bits) => SpecToken::Float(*bits),
            Token::Character(c) => SpecToken::Character(*c),
            Token::String(text) => SpecToken::String(text@),
        }
    }
}

impl DeepView for Token {
    type V = SpecToken;

    open spec fn deep_view(&self) -> SpecToken {
        self.view()
    }
}

/// A copy of a token.
pub fn copy_of(token: &Token) -> (copy: Token)
    ensures
        copy == *token,
{
    match token {
        Token::Identifier(name) => Token::Identifier(name.clone()),
        Token::Integer(i) => Token::Integer(*i),
        Token::Boolean(b) => Token::Boolean(*b),
        Token::Float(bits) => Token::Float(*bits),
        Token::Character(c) => Token::Character(*c),
        Token::String(text) => Token::String(text.clone()),
    }
}

/// Whether an identifier may begin with the character: a letter of the
/// Latin alphabet or an underscore.
pub open spec fn identifier_start(c: char) -> bool {
    ('a' <= c && c <= 'z') || ('A' <= c && c <= 'Z') || c == '_'
}

/// Whether an identifier may go on with the character: as it may begin, or
/// with a decimal digit.
pub open spec fn identifier_part(c: char) -> bool {
    identifier_start(c) || ('0' <= c && c <= '9')
}

/// Whether the text is an identifier.
pub open spec fn spec_valid_identifier(value: Seq<char>) -> bool {
    &&& value.len() > 0
    &&& identifier_start(value[0])
    &&& forall|i: int| 1 <= i < value.len() ==> identifier_part(#[trigger] value[i])
}

/// Whether the text is an identifier.
pub fn valid_identifier(value: &str) -> (valid: bool)
    ensures
        valid == spec_valid_identifier(value@),
{
    let chars = chars_of(value);
    if chars.len() == 0 {
        return false;
    }
    let first = chars[0];
    if !(('a' <= first && first <= 'z') || ('A' <= first && first <= 'Z') || first == '_') {
        return false;
    }
    let mut index: usize = 1;
    while index < chars.len()
        invariant
            1 <= index <= chars.len(),
            chars@ == value@,
            forall|i: int| 1 <= i < index ==> identifier_part(#[trigger] chars@[i]),
        decreases chars.len() - index,
    {
        let c = chars[index];
        if !(('a' <= c && c <= 'z') || ('A' <= c && c <= 'Z') || c == '_' || ('0' <= c && c
            <= '9')) {
            return false;
        }
        index += 1;
    }
    true
}

/// The character that a backslash and `c` stand for, if the two are an
/// escape.
pub open spec fn escape(c: char) -> Option<char> {
    if c == 'n' {
        Some('\n')
    } else if c == 't' {
        Some('\t')
    } else if c == 'r' {
        Some('\r')
    } else if c == '\\' {
        Some('\\')
    } else if c == '\'' {
        Some('\'')
    } else if c == '"' {
        Some('"')
    } else if c == '0' {
        Some('\0')
    } else {
        None
    }
}

/// The character that a character literal stands for. A literal of four
/// characters, quotes included, is an escape: a backslash and the character
/// that names it. Any other literal stands for the character behind its
/// opening quote.
pub open spec fn spec_parse_character(value: Seq<char>) -> Option<char> {
    if value.len() == 4 {
        if value[1] == '\\' {
            escape(value[2])
        } else {
            None
        }
    } else if value.len() >= 2 {
        Some(value[1])
    } else {
        None
    }
}

/// The text that the characters of a string literal from `from` up to the
/// closing quote stand for: each character for itself, but a backslash and
/// the character behind it for the character that the escape names.
pub open spec fn unescaped(value: Seq<char>, from: int) -> Option<Seq<char>>
    decreases value.len() - from,
{
    if from < 1 || from >= value.len() - 1 {
        Some(Seq::empty())
    } else if value[from] == '\\' {
        match escape(value[from + 1]) {
            None => None,
            Some(c) => prefixed(seq![c], unescaped(value, from + 2)),
        }
    } else {
        prefixed(seq![value[from]], unescaped(value, from + 1))
    }
}

/// `rest` with `front` before it, where there is a `rest`.
pub open spec fn prefixed(front: Seq<char>, rest: Option<Seq<char>>) -> Option<Seq<char>> {
    match rest {
        Some(rest) => Some(front + rest),
        None => None,
    }
}

/// The text that a string literal stands for: what is between its first
/// and its last character, with the escapes replaced.
pub open spec fn spec_parse_string(value: Seq<char>) -> Option<Seq<char>> {
    if value.len() < 2 {
        None
    } else {
        unescaped(value, 1)
    }
}

/// The character that a backslash and `c` stand for.
fn escaped(c: char) -> (character: Option<char>)
    ensures
        character == escape(c),
{
    if c == 'n' {
        Some('\n')
    } else if c == 't' {
        Some('\t')
    } else if c == 'r' {
        Some('\r')
    } else if c == '\\' {
        Some('\\')
    } else if c == '\'' {
        Some('\'')
    } else if c == '"' {
        Some('"')
    } else if c == '0' {
        Some('\0')
    } else {
        None
    }
}

/// The character that a character literal stands for.
pub fn parse_character(value: String) -> (character: Result<char, ()>)
    ensures
        character == match spec_parse_character(value@) {
            Some(c) => Ok::<char, ()>(c),
            None => Err(()),
        },
{
    let chars = chars_of(value.as_str());
    if chars.len() == 4 {
        if chars[1] == '\\' {
            match escaped(chars[2]) {
                Some(c) => Ok(c),
                None => Err(()),
            }
        } else {
            Err(())
        }
    } else if chars.len() >= 2 {
        Ok(chars[1])
    } else {
        Err(())
    }
}

/// The text that a string literal stands for.
pub fn parse_string(value: String) -> (text: Result<String, ()>)
    ensures
        spec_parse_string(value@) == match text {
            Ok(text) => Some(text@),
            Err(()) => None,
        },
{
    let chars = chars_of(value.as_str());
    if chars.len() < 2 {
        return Err(());
    }
    let mut string: Vec<char> = Vec::new();
    let mut current_index: usize = 1;
    while current_index < chars.len() - 1
        invariant
            1 <= current_index <= chars.len(),
            chars.len() >= 2,
            chars@ == value@,
            unescaped(chars@, 1) == prefixed(string@, unescaped(chars@, current_index as int)),
        decreases chars.len() - current_index,
    {
        let ghost before = string@;
        let ghost rest = unescaped(chars@, current_index as int);
        let current_chr = chars[current_index];
        if current_chr == '\\' {
            match escaped(chars[current_index + 1]) {
                Some(c) => {
                    string.push(c);
                    current_index += 2;
                    proof {
                        let after = unescaped(chars@, current_index as int);
                        if let Some(tail) = after {
                            assert(before + (seq![c] + tail) =~= string@ + tail);
                        }
                    }
                },
                None => {
                    return Err(());
                },
            }
        } else {
            string.push(current_chr);
            current_index += 1;
            proof {
                let after = unescaped(chars@, current_index as int);
                if let Some(tail) = after {
                    assert(before + (seq![current_chr] + tail) =~= string@ + tail);
                }
            }
        }
    }
    assert(string@ + Seq::<char>::empty() =~= string@);
    let text = string_of(&string, 0, string.len());
    assert(string@.subrange(0, string@.len() as int) =~= string@);
    Ok(text)
}

/// Whether the character is a decimal digit.
pub open spec fn is_digit(c: char) -> bool {
    '0' <= c && c <= '9'
}

/// Whether the text is made of decimal digits.
pub open spec fn all_digits(digits: Seq<char>) -> bool {
    forall|i: int| 0 <= i < digits.len() ==> is_digit(#[trigger] digits[i])
}

/// The number that a text of decimal digits stands for.
pub open spec fn digits_value(digits: Seq<char>) -> int
    decreases digits.len(),
{
    if digits.len() == 0 {
        0
    } else {
        digits_value(digits.drop_last()) * 10 + (digits.last() as int - '0' as int)
    }
}

/// The integer that a lexeme stands for: an optional sign and at least one
/// decimal digit, with a value that is a 64-bit integer.
pub open spec fn spec_parse_integer(value: Seq<char>) -> Option<i64> {
    let signed = value.len() > 0 && (value[0] == '-' || value[0] == '+');
    let digits = if signed {
        value.drop_first()
    } else {
        value
    };
    if digits.len() == 0 || !all_digits(digits) {
        None
    } else if signed && value[0] == '-' {
        crate::data_type::data::fit(-digits_value(digits))
    } else {
        crate::data_type::data::fit(digits_value(digits))
    }
}

/// The value of a text of digits is not negative and not less than that of
/// any of its beginnings.
proof fn lemma_digits_value_grows(digits: Seq<char>, count: int)
    requires
        0 <= count <= digits.len(),
        all_digits(digits),
    ensures
        0 <= digits_value(digits.take(count)) <= digits_value(digits),
    decreases digits.len() - count,
{
    lemma_digits_value_positive(digits.take(count));
    if count < digits.len() {
        assert(digits.take(count + 1).drop_last() =~= digits.take(count));
        assert(is_digit(digits[count]));
        lemma_digits_value_grows(digits, count + 1);
    } else {
        assert(digits.take(count) =~= digits);
    }
}

/// The value of a text of digits is not negative.
proof fn lemma_digits_value_positive(digits: Seq<char>)
    requires
        all_digits(digits),
    ensures
        0 <= digits_value(digits),
    decreases digits.len(),
{
    if digits.len() > 0 {
        lemma_digits_value_positive(digits.drop_last());
        assert(is_digit(digits.last()));
    }
}

/// The integer that a lexeme stands for.
pub fn parse_integer(value: &str) -> (integer: Option<i64>)
    ensures
        integer == spec_parse_integer(value@),
{
    let chars = chars_of(value);
    let signed = chars.len() > 0 && (chars[0] == '-' || chars[0] == '+');
    let negative = signed && chars[0] == '-';
    let start: usize = if signed {
        1
    } else {
        0
    };
    let ghost digits = chars@.subrange(start as int, chars.len() as int);
    assert(digits =~= if signed {
        value@.drop_first()
    } else {
        value@
    });
    if start == chars.len() {
        return None;
    }
    let limit: i128 = if negative {
        0x8000_0000_0000_0000
    } else {
        0x7fff_ffff_ffff_ffff
    };
    let mut magnitude: i128 = 0;
    let mut index: usize = start;
    assert(digits.take(0) =~= Seq::<char>::empty());
    while index < chars.len()
        invariant
            start <= index <= chars.len(),
            start < chars.len(),
            chars@ == value@,
            signed == (value@.len() > 0 && (value@[0] == '-' || value@[0] == '+')),
            negative == (signed && value@[0] == '-'),
            digits == chars@.subrange(start as int, chars.len() as int),
            digits == if signed {
                value@.drop_first()
            } else {
                value@
            },
            all_digits(digits.take(index - start)),
            magnitude == digits_value(digits.take(index - start)),
            0 <= magnitude <= limit,
            limit == if negative {
                0x8000_0000_0000_0000i128
            } else {
                0x7fff_ffff_ffff_ffffi128
            },
        decreases chars.len() - index,
    {
        let c = chars[index];
        assert(digits[index - start] == c);
        if !('0' <= c && c <= '9') {
            assert(!is_digit(digits[index - start]));
            return None;
        }
        let digit: i128 = (c as u32 - '0' as u32) as i128;
        magnitude = magnitude * 10 + digit;
        proof {
            assert(digits.take(index - start + 1).drop_last() =~= digits.take(index - start));
            assert(digits.take(index - start + 1).last() == c);
        }
        if magnitude > limit {
            proof {
                if all_digits(digits) {
                    lemma_digits_value_grows(digits, index - start + 1);
                }
            }
            return None;
        }
        index += 1;
    }
    assert(digits.take(index - start) =~= digits);
    if negative {
        Some((-magnitude) as i64)
    } else {
        Some(magnitude as i64)
    }
}

/// The token that a lexeme stands for, tried in this order: an integer; a
/// float; `true` or `false`; a character between single quotes; a string
/// between double quotes; an identifier.
///
/// Whether the lexeme is a float, and which, is for the caller to say, by
/// `float`: the library has no floats of its own.
pub open spec fn spec_classify(value: Seq<char>, float: Option<u64>) -> Option<SpecToken> {
    if let Some(i) = spec_parse_integer(value) {
        Some(SpecToken::Integer(i))
    } else if let Some(bits) = float {
        Some(SpecToken::Float(bits))
    } else if value == "true"@ {
        Some(SpecToken::Boolean(true))
    } else if value == "false"@ {
        Some(SpecToken::Boolean(false))
    } else if value.len() > 0 && value.first() == '\'' && value.last() == '\'' {
        match spec_parse_character(value) {
            Some(c) => Some(SpecToken::Character(c)),
            None => None,
        }
    } else if value.len() > 0 && value.first() == '"' && value.last() == '"' {
        match spec_parse_string(value) {
            Some(text) => Some(SpecToken::String(text)),
            None => None,
        }
    } else if spec_valid_identifier(value) {
        Some(SpecToken::Identifier(value))
    } else {
        None
    }
}

impl Token {
    /// The token that the lexeme `value` stands for. `float` is the bit
    /// pattern of the float that the lexeme stands for, if it is one.
    pub fn classify(value: String, float: Option<u64>) -> (token: Result<Token, ()>)
        ensures
            spec_classify(value@, float) == match token {
                Ok(token) => Some(token@),
                Err(()) => None,
            },
    {
        if let Some(i) = parse_integer(value.as_str()) {
            return Ok(Token::Integer(i));
        }
        if let Some(bits) = float {
            return Ok(Token::Float(bits));
        }
        if str_eq(value.as_str(), "true") {
            return Ok(Token::Boolean(true));
        }
        if str_eq(value.as_str(), "false") {
            return Ok(Token::Boolean(false));
        }
        let chars = chars_of(value.as_str());
        let quoted_by = if chars.len() > 0 && chars[0] == chars[chars.len() - 1] {
            Some(chars[0])
        } else {
            None
        };
        if quoted_by == Some('\'') {
            return match parse_character(value) {
                Ok(c) => Ok(Token::Character(c)),
                Err(()) => Err(()),
            };
        }
        if quoted_by == Some('"') {
            return match parse_string(value) {
                Ok(text) => Ok(Token::String(text)),
                Err(()) => Err(()),
            };
        }
        if valid_identifier(value.as_str()) {
            Ok(Token::Identifier(value))
        } else {
            Err(())
        }
    }
}

/// The state of the scanner within a line.
pub struct Scan {
    /// The lexemes that are complete.
    pub lexemes: Seq<Seq<char>>,
    /// The lexeme that is being read.
    pub argument: Seq<char>,
    /// Whether a string literal is open.
    pub in_string: bool,
    /// Whether a character literal is open.
    pub in_character: bool,
}

impl Scan {
    /// The state with the lexeme that is being read, and `c` behind it,
    /// among the complete ones.
    pub open spec fn closed_by(self, c: char) -> Scan {
        Scan {
            lexemes: self.lexemes.push(self.argument.push(c)),
            argument: Seq::empty(),
            in_string: false,
            in_character: false,
        }
    }

    /// The state after the scanner has read `c`. A space outside a string
    /// literal ends the lexeme that is being read. A quote opens a literal
    /// unless one is open, and the quote that opened a literal closes it
    /// and ends the lexeme. Every character but such a space belongs to
    /// the lexeme.
    pub open spec fn read(self, c: char) -> Scan {
        let closed = !self.in_string && !self.in_character;
        if c == ' ' && !self.in_string {
            if self.argument.len() > 0 {
                Scan { lexemes: self.lexemes.push(self.argument), argument: Seq::empty(), ..self }
            } else {
                self
            }
        } else if c == '"' && closed {
            Scan { argument: self.argument.push(c), in_string: true, ..self }
        } else if c == '"' && self.in_string {
            self.closed_by(c)
        } else if c == '\'' && closed {
            Scan { argument: self.argument.push(c), in_character: true, ..self }
        } else if c == '\'' && self.in_character {
            self.closed_by(c)
        } else {
            Scan { argument: self.argument.push(c), ..self }
        }
    }
}

/// The state of the scanner after it has read `code`.
pub open spec fn scanned(code: Seq<char>) -> Scan
    decreases code.len(),
{
    if code.len() == 0 {
        Scan {
            lexemes: Seq::empty(),
            argument: Seq::empty(),
            in_string: false,
            in_character: false,
        }
    } else {
        scanned(code.drop_last()).read(code.last())
    }
}

/// Whether the text holds nothing but white space.
pub open spec fn blank(text: Seq<char>) -> bool {
    forall|i: int| 0 <= i < text.len() ==> spec_is_whitespace(#[trigger] text[i])
}

/// The lexemes of a line. The line ends at its first semicolon, where a
/// comment begins. What the scanner is left with at the end of the line is
/// a lexeme too, unless it is blank.
pub open spec fn spec_tokenise_line(line: Seq<char>) -> Seq<Seq<char>> {
    let scan = scanned(line.take(length_before(line, ';') as int));
    if blank(scan.argument) {
        scan.lexemes
    } else {
        scan.lexemes.push(scan.argument)
    }
}

/// Whether the characters are nothing but white space.
fn is_blank(chars: &Vec<char>) -> (all: bool)
    ensures
        all == blank(chars@),
{
    let mut index: usize = 0;
    while index < chars.len()
        invariant
            index <= chars.len(),
            forall|i: int| 0 <= i < index ==> spec_is_whitespace(#[trigger] chars@[i]),
        decreases chars.len() - index,
    {
        if !is_whitespace(chars[index]) {
            return false;
        }
        index += 1;
    }
    true
}

/// The lexemes of the line that the characters from `from` up to `to` make.
fn lexemes_between(chars: &Vec<char>, from: usize, to: usize) -> (lexemes: Vec<String>)
    requires
        from <= to <= chars.len(),
    ensures
        lexemes.deep_view() == spec_tokenise_line(chars@.subrange(from as int, to as int)),
{
    let ghost line = chars@.subrange(from as int, to as int);
    let end = find_char(chars, from, to, ';');
    let ghost code = line.take(end - from);
    let mut lexemes: Vec<String> = Vec::new();
    let mut argument: Vec<char> = Vec::new();
    let mut in_string = false;
    let mut in_character = false;
    let mut index: usize = from;
    assert(code.take(0) =~= Seq::<char>::empty());
    assert(lexemes.deep_view() =~= Seq::<Seq<char>>::empty());
    while index < end
        invariant
            from <= index <= end <= to <= chars.len(),
            line == chars@.subrange(from as int, to as int),
            code == line.take(end - from),
            scanned(code.take(index - from)) == (Scan {
                lexemes: lexemes.deep_view(),
                argument: argument@,
                in_string,
                in_character,
            }),
        decreases end - index,
    {
        let c = chars[index];
        let ghost before = lexemes.deep_view();
        proof {
            assert(code[index - from] == c);
            assert(code.take(index - from + 1).drop_last() =~= code.take(index - from));
            assert(code.take(index - from + 1).last() == c);
        }
        let closed = !in_string && !in_character;
        if c == ' ' && !in_string {
            if argument.len() > 0 {
                let lexeme = string_of(&argument, 0, argument.len());
                assert(lexeme@ =~= argument@);
                lexemes.push(lexeme);
                assert(lexemes.deep_view() =~= before.push(argument@));
                argument = Vec::new();
            }
        } else if (c == '"' && in_string) || (c == '\'' && in_character) {
            let ghost read = argument@;
            argument.push(c);
            let lexeme = string_of(&argument, 0, argument.len());
            assert(lexeme@ =~= read.push(c));
            lexemes.push(lexeme);
            assert(lexemes.deep_view() =~= before.push(read.push(c)));
            argument = Vec::new();
            in_string = false;
            in_character = false;
        } else {
            argument.push(c);
            if c == '"' && closed {
                in_string = true;
            } else if c == '\'' && closed {
                in_character = true;
            }
        }
        index += 1;
    }
    assert(code.take(index - from) =~= code);
    if !is_blank(&argument) {
        let ghost before = lexemes.deep_view();
        let lexeme = string_of(&argument, 0, argument.len());
        assert(lexeme@ =~= argument@);
        lexemes.push(lexeme);
        assert(lexemes.deep_view() =~= before.push(argument@));
    }
    lexemes
}

/// The lexemes of a line.
pub fn tokenise_line(line: &str) -> (lexemes: Vec<String>)
    ensures
        lexemes.deep_view() == spec_tokenise_line(line@),
{
    let chars = chars_of(line);
    assert(chars@.subrange(0, chars@.len() as int) =~= line@);
    lexemes_between(&chars, 0, chars.len())
}

/// The lines of a text: a line feed ends a line and begins the next, and
/// every other character belongs to the line that it stands in. A text
/// has one line more than it has line feeds.
pub open spec fn lines_of(text: Seq<char>) -> Seq<Seq<char>>
    decreases text.len(),
{
    if text.len() == 0 {
        seq![Seq::empty()]
    } else {
        let front = lines_of(text.drop_last());
        if text.last() == '\n' {
            front.push(Seq::empty())
        } else {
            front.drop_last().push(front.last().push(text.last()))
        }
    }
}

/// The text without the white space that it begins with.
pub open spec fn trim_start(text: Seq<char>) -> Seq<char>
    decreases text.len(),
{
    if text.len() > 0 && spec_is_whitespace(text.first()) {
        trim_start(text.drop_first())
    } else {
        text
    }
}

/// The text without the white space that it ends with.
pub open spec fn trim_end(text: Seq<char>) -> Seq<char>
    decreases text.len(),
{
    if text.len() > 0 && spec_is_whitespace(text.last()) {
        trim_end(text.drop_last())
    } else {
        text
    }
}

/// The text without the white space at either end.
pub open spec fn trimmed(text: Seq<char>) -> Seq<char> {
    trim_end(trim_start(text))
}

/// Whether a trimmed line holds code: it is not empty and does not begin
/// with the semicolon of a comment.
pub open spec fn holds_code(line: Seq<char>) -> bool {
    line.len() > 0 && line.first() != ';'
}

/// The lexemes of each of the lines that hold code, in their order.
pub open spec fn tokenised(lines: Seq<Seq<char>>) -> Seq<Seq<Seq<char>>>
    decreases lines.len(),
{
    if lines.len() == 0 {
        Seq::empty()
    } else {
        let line = trimmed(lines.last());
        if holds_code(line) {
            tokenised(lines.drop_last()).push(spec_tokenise_line(line))
        } else {
            tokenised(lines.drop_last())
        }
    }
}

/// The lexemes of a program, line by line. Lines are trimmed, and empty
/// lines and comment lines are passed over.
pub open spec fn spec_tokenise(program: Seq<char>) -> Seq<Seq<Seq<char>>> {
    tokenised(lines_of(program))
}

/// Where the characters from `from` up to `to` begin and end once they are
/// trimmed.
fn trim(chars: &Vec<char>, from: usize, to: usize) -> (bounds: (usize, usize))
    requires
        from <= to <= chars.len(),
    ensures
        from <= bounds.0 <= bounds.1 <= to,
        chars@.subrange(bounds.0 as int, bounds.1 as int) == trimmed(
            chars@.subrange(from as int, to as int),
        ),
{
    let mut begin: usize = from;
    while begin < to && is_whitespace(chars[begin])
        invariant
            from <= begin <= to <= chars.len(),
            trim_start(chars@.subrange(from as int, to as int)) == trim_start(
                chars@.subrange(begin as int, to as int),
            ),
        decreases to - begin,
    {
        assert(chars@.subrange(begin as int, to as int).drop_first() =~= chars@.subrange(
            begin + 1,
            to as int,
        ));
        begin += 1;
    }
    let mut end: usize = to;
    while end > begin && is_whitespace(chars[end - 1])
        invariant
            begin <= end <= to <= chars.len(),
            trim_end(chars@.subrange(begin as int, to as int)) == trim_end(
                chars@.subrange(begin as int, end as int),
            ),
        decreases end - begin,
    {
        assert(chars@.subrange(begin as int, end as int).drop_last() =~= chars@.subrange(
            begin as int,
            end - 1,
        ));
        end -= 1;
    }
    (begin, end)
}

/// Adds the lexemes of the line that the characters from `from` up to `to`
/// make, if the line holds code. `done` are the lines before it.
fn tokenise_between(
    chars: &Vec<char>,
    from: usize,
    to: usize,
    lines: &mut Vec<Vec<String>>,
    Ghost(done): Ghost<Seq<Seq<char>>>,
)
    requires
        from <= to <= chars.len(),
        tokenised(done) == old(lines).deep_view(),
    ensures
        tokenised(done.push(chars@.subrange(from as int, to as int))) == final(lines).deep_view(),
{
    let ghost before = lines.deep_view();
    let ghost all = done.push(chars@.subrange(from as int, to as int));
    assert(all.drop_last() =~= done);
    let (begin, end) = trim(chars, from, to);
    if begin < end && chars[begin] != ';' {
        let lexemes = lexemes_between(chars, begin, end);
        lines.push(lexemes);
        assert(lines.deep_view() =~= before.push(lexemes.deep_view()));
    }
}

/// The lexemes of a program, line by line.
pub fn tokenise(program: &str) -> (lines: Vec<Vec<String>>)
    ensures
        lines.deep_view() == spec_tokenise(program@),
{
    let chars = chars_of(program);
    let mut lines: Vec<Vec<String>> = Vec::new();
    let ghost mut done: Seq<Seq<char>> = Seq::empty();
    let mut start: usize = 0;
    let mut index: usize = 0;
    assert(chars@.take(0) =~= Seq::<char>::empty());
    assert(chars@.subrange(0, 0) =~= Seq::<char>::empty());
    assert(lines_of(chars@.take(0)) =~= done.push(chars@.subrange(0, 0)));
    assert(lines.deep_view() =~= Seq::<Seq<Seq<char>>>::empty());
    while index < chars.len()
        invariant
            start <= index <= chars.len(),
            chars@ == program@,
            lines_of(chars@.take(index as int)) == done.push(
                chars@.subrange(start as int, index as int),
            ),
            tokenised(done) == lines.deep_view(),
        decreases chars.len() - index,
    {
        proof {
            assert(chars@.take(index + 1).drop_last() =~= chars@.take(index as int));
            assert(chars@.take(index + 1).last() == chars@[index as int]);
            let line = chars@.subrange(start as int, index as int);
            assert(done.push(line).drop_last() =~= done);
            assert(done.push(line).last() == line);
        }
        if chars[index] == '\n' {
            tokenise_between(&chars, start, index, &mut lines, Ghost(done));
            proof {
                done = done.push(chars@.subrange(start as int, index as int));
                assert(chars@.subrange(index + 1, index + 1) =~= Seq::<char>::empty());
            }
            start = index + 1;
        } else {
            assert(chars@.subrange(start as int, index as int).push(chars@[index as int])
                =~= chars@.subrange(start as int, index + 1));
        }
        index += 1;
    }
    assert(chars@.take(index as int) =~= chars@);
    tokenise_between(&chars, start, index, &mut lines, Ghost(done));
    lines
}

} // verus!
