//! The scanner: a cursor over an input string that produces one token per
//! call, together with the specification of what each call must produce.

use crate::token::{keyword_kind, Token, TokenKind};
use vstd::prelude::*;
use vstd::string::StrSliceExecFns;

verus! {

/// The characters the scanner skips between tokens.
pub open spec fn is_whitespace_char(c: char) -> bool {
    c == ' ' || c == '\t' || c == '\n' || c == '\r'
}

/// The characters an identifier is made of: ASCII letters and underscore.
/// Digits are not letters, so they never continue an identifier.
pub open spec fn is_letter_char(c: char) -> bool {
    ('a' as u32 <= c as u32 && c as u32 <= 'z' as u32) || ('A' as u32 <= c as u32 && c as u32
        <= 'Z' as u32) || c == '_'
}

/// The characters an integer literal is made of: ASCII digits.
pub open spec fn is_digit_char(c: char) -> bool {
    '0' as u32 <= c as u32 && c as u32 <= '9' as u32
}

/// The first position at or after `i` that does not hold whitespace
/// (or the end of the input).
pub open spec fn ws_end(s: Seq<char>, i: int) -> int
    decreases s.len() - i
        when 0 <= i <= s.len()
{
    if i < s.len() && is_whitespace_char(s[i]) {
        ws_end(s, i + 1)
    } else {
        i
    }
}

/// The first position at or after `i` that does not hold a letter
/// (or the end of the input): the end of the maximal identifier run.
pub open spec fn letters_end(s: Seq<char>, i: int) -> int
    decreases s.len() - i
        when 0 <= i <= s.len()
{
    if i < s.len() && is_letter_char(s[i]) {
        letters_end(s, i + 1)
    } else {
        i
    }
}

/// The first position at or after `i` that does not hold a digit
/// (or the end of the input): the end of the maximal integer run.
pub open spec fn digits_end(s: Seq<char>, i: int) -> int
    decreases s.len() - i
        when 0 <= i <= s.len()
{
    if i < s.len() && is_digit_char(s[i]) {
        digits_end(s, i + 1)
    } else {
        i
    }
}

/// The kind of a single-character token: the twelve punctuation and operator
/// characters each map to their own kind, anything else is `Illegal`.
/// `=` and `!` never reach this table; they are classified with lookahead.
pub open spec fn punct_kind(c: char) -> TokenKind {
    if c == '+' {
        TokenKind::Plus
    } else if c == '-' {
        TokenKind::Minus
    } else if c == '/' {
        TokenKind::Slash
    } else if c == '*' {
        TokenKind::Asterisk
    } else if c == '<' {
        TokenKind::LessThan
    } else if c == '>' {
        TokenKind::GreaterThan
    } else if c == '(' {
        TokenKind::LeftParen
    } else if c == ')' {
        TokenKind::RightParen
    } else if c == ';' {
        TokenKind::Semicolon
    } else if c == ',' {
        TokenKind::Comma
    } else if c == '{' {
        TokenKind::LeftBrace
    } else if c == '}' {
        TokenKind::RightBrace
    } else {
        TokenKind::Illegal
    }
}

/// The token that starts at position `i` (already past any whitespace):
/// its kind, its literal text, and the position after it.
///
/// The null character acts as the end-of-input sentinel: it yields
/// `EndOfInput` with an empty literal and does not advance, so that state
/// is absorbing.
pub open spec fn token_at(s: Seq<char>, i: int) -> (TokenKind, Seq<char>, int)
    recommends
        0 <= i <= s.len(),
{
    if i >= s.len() {
        (TokenKind::EndOfInput, Seq::<char>::empty(), i)
    } else {
        let c = s[i];
        if c == '=' {
            if i + 1 < s.len() && s[i + 1] == '=' {
                (TokenKind::Equal, s.subrange(i, i + 2), i + 2)
            } else {
                (TokenKind::Assign, s.subrange(i, i + 1), i + 1)
            }
        } else if c == '!' {
            if i + 1 < s.len() && s[i + 1] == '=' {
                (TokenKind::NotEqual, s.subrange(i, i + 2), i + 2)
            } else {
                (TokenKind::Bang, s.subrange(i, i + 1), i + 1)
            }
        } else if c == '\0' {
            (TokenKind::EndOfInput, Seq::<char>::empty(), i)
        } else if is_letter_char(c) {
            (
                keyword_kind(s.subrange(i, letters_end(s, i))),
                s.subrange(i, letters_end(s, i)),
                letters_end(s, i),
            )
        } else if is_digit_char(c) {
            (TokenKind::Integer, s.subrange(i, digits_end(s, i)), digits_end(s, i))
        } else {
            (punct_kind(c), s.subrange(i, i + 1), i + 1)
        }
    }
}

/// What one call of `next_token` must produce from position `pos`: skip the
/// whitespace, then take the token that starts there.
pub open spec fn next_token_spec(s: Seq<char>, pos: int) -> (TokenKind, Seq<char>, int)
    recommends
        0 <= pos <= s.len(),
{
    token_at(s, ws_end(s, pos))
}

/// The scanner. It owns the input text and three cursors: `position` is the
/// index of the current character (in characters, not bytes), `read_position`
/// the index of the next character to read, and `ch` the character under the
/// cursor, or the null sentinel once the input is exhausted.
#[derive(Debug)]
pub struct Lexer {
    input: String,
    position: usize,
    read_position: usize,
    ch: char,
}

impl Lexer {
    /// The input text, as the sequence of its characters.
    pub closed spec fn text(&self) -> Seq<char> {
        self.input@
    }

    /// The index of the current character; equal to the input length once
    /// the input is exhausted.
    pub closed spec fn pos(&self) -> int {
        self.position as int
    }

    /// The cursor invariant: `position` never passes the end of the input,
    /// `read_position` is the next index (clamped at the end), and `ch`
    /// mirrors the character at `position`, or the sentinel at the end.
    pub closed spec fn wf(&self) -> bool {
        &&& self.position as int <= self.input@.len()
        &&& self.read_position as int == (if (self.position as int) < self.input@.len() {
            self.position as int + 1
        } else {
            self.input@.len() as int
        })
        &&& self.ch == (if (self.position as int) < self.input@.len() {
            self.input@[self.position as int]
        } else {
            '\0'
        })
    }

    /// Creates a scanner over `input` with the first character pre-read;
    /// over empty input the cursor starts on the sentinel.
    pub fn new(input: String) -> (l: Lexer)
        ensures
            l.wf(),
            l.text() == input@,
            l.pos() == 0,
    {
        let mut l = Lexer { input, position: 0, read_position: 0, ch: '\0' };
        l.read_char();
        l
    }

    /// Advances the cursor one character, clamping at the end of the input,
    /// and loads `ch` with the character now under it (or the sentinel).
    fn read_char(&mut self)
        requires
            old(self).read_position as int <= old(self).input@.len(),
        ensures
            final(self).wf(),
            final(self).text() == old(self).text(),
            final(self).pos() == old(self).read_position as int,
    {
        let n = self.input.as_str().unicode_len();
        if self.read_position >= n {
            self.ch = '\0';
        } else {
            let c = self.input.as_str().get_char(self.read_position);
            self.ch = c;
        }
        self.position = self.read_position;
        if self.read_position < n {
            self.read_position = self.read_position + 1;
        }
    }

    /// The character after the current one, without consuming anything;
    /// the sentinel when fewer than two characters remain.
    fn peek_char(&self) -> (c: char)
        requires
            self.wf(),
        ensures
            c == (if self.pos() + 1 < self.text().len() {
                self.text()[self.pos() + 1]
            } else {
                '\0'
            }),
    {
        let n = self.input.as_str().unicode_len();
        if self.read_position >= n {
            '\0'
        } else {
            self.input.as_str().get_char(self.read_position)
        }
    }

    /// Decides whether `ch` can form part of an identifier.
    fn is_letter(ch: char) -> (b: bool)
        ensures
            b == is_letter_char(ch),
    {
        let u: u32 = ch as u32;
        ('a' as u32 <= u && u <= 'z' as u32) || ('A' as u32 <= u && u <= 'Z' as u32) || ch == '_'
    }

    /// Decides whether `ch` can form part of an integer literal.
    fn is_digit(ch: char) -> (b: bool)
        ensures
            b == is_digit_char(ch),
    {
        let u: u32 = ch as u32;
        '0' as u32 <= u && u <= '9' as u32
    }

    /// Advances the cursor past consecutive whitespace characters.
    fn skip_whitespace(&mut self)
        requires
            old(self).wf(),
        ensures
            final(self).wf(),
            final(self).text() == old(self).text(),
            final(self).pos() == ws_end(old(self).text(), old(self).pos()),
    {
        let ghost s = self.input@;
        let ghost p0 = self.position as int;
        while self.ch == ' ' || self.ch == '\t' || self.ch == '\n' || self.ch == '\r'
            invariant
                self.wf(),
                self.text() == s,
                ws_end(s, p0) == ws_end(s, self.pos()),
            decreases s.len() - self.pos(),
        {
            self.read_char();
        }
    }

    /// Consumes the maximal run of letter characters starting at the cursor
    /// and returns it as the matched substring.
    fn read_identifier(&mut self) -> (lit: String)
        requires
            old(self).wf(),
        ensures
            final(self).wf(),
            final(self).text() == old(self).text(),
            final(self).pos() == letters_end(old(self).text(), old(self).pos()),
            lit@ == old(self).text().subrange(
                old(self).pos(),
                letters_end(old(self).text(), old(self).pos()),
            ),
    {
        let ghost s = self.input@;
        let ghost p0 = self.position as int;
        let start = self.position;
        while Lexer::is_letter(self.ch)
            invariant
                self.wf(),
                self.text() == s,
                start as int == p0,
                p0 <= self.pos(),
                letters_end(s, p0) == letters_end(s, self.pos()),
            decreases s.len() - self.pos(),
        {
            self.read_char();
        }
        let sub = self.input.as_str().substring_char(start, self.position);
        sub.to_owned()
    }

    /// Consumes the maximal run of digit characters starting at the cursor
    /// and returns it as the matched substring.
    fn read_number(&mut self) -> (lit: String)
        requires
            old(self).wf(),
        ensures
            final(self).wf(),
            final(self).text() == old(self).text(),
            final(self).pos() == digits_end(old(self).text(), old(self).pos()),
            lit@ == old(self).text().subrange(
                old(self).pos(),
                digits_end(old(self).text(), old(self).pos()),
            ),
    {
        let ghost s = self.input@;
        let ghost p0 = self.position as int;
        let start = self.position;
        while Lexer::is_digit(self.ch)
            invariant
                self.wf(),
                self.text() == s,
                start as int == p0,
                p0 <= self.pos(),
                digits_end(s, p0) == digits_end(s, self.pos()),
            decreases s.len() - self.pos(),
        {
            self.read_char();
        }
        let sub = self.input.as_str().substring_char(start, self.position);
        sub.to_owned()
    }

    /// Emits a token for the single character under the cursor and consumes
    /// that character.
    fn single_char_token(&mut self, kind: TokenKind) -> (tok: Token)
        requires
            old(self).wf(),
            old(self).pos() < old(self).text().len(),
        ensures
            final(self).wf(),
            final(self).text() == old(self).text(),
            final(self).pos() == old(self).pos() + 1,
            tok.kind == kind,
            tok.literal@ == old(self).text().subrange(old(self).pos(), old(self).pos() + 1),
    {
        let start = self.position;
        let lit = self.input.as_str().substring_char(start, start + 1).to_owned();
        self.read_char();
        Token::new(kind, lit)
    }

    /// Emits a token for the two characters under the cursor and consumes
    /// both.
    fn two_char_token(&mut self, kind: TokenKind) -> (tok: Token)
        requires
            old(self).wf(),
            old(self).pos() + 1 < old(self).text().len(),
        ensures
            final(self).wf(),
            final(self).text() == old(self).text(),
            final(self).pos() == old(self).pos() + 2,
            tok.kind == kind,
            tok.literal@ == old(self).text().subrange(old(self).pos(), old(self).pos() + 2),
    {
        // The character count fits in usize, so the end index cannot overflow.
        let n = self.input.as_str().unicode_len();
        let start = self.position;
        assert(start + 2 <= n);
        let lit = self.input.as_str().substring_char(start, start + 2).to_owned();
        self.read_char();
        self.read_char();
        Token::new(kind, lit)
    }

    /// Advances the scanner exactly one token and returns it: whitespace is
    /// skipped, `==` and `!=` are recognized with one character of lookahead,
    /// identifiers and integers consume their maximal run, every recognized
    /// single character maps to its own kind, any other character is emitted
    /// as `Illegal`, and at the end of the input an `EndOfInput` token with
    /// an empty literal is returned again on every further call.
    pub fn next_token(&mut self) -> (tok: Token)
        requires
            old(self).wf(),
        ensures
            final(self).wf(),
            final(self).text() == old(self).text(),
            tok.kind == next_token_spec(old(self).text(), old(self).pos()).0,
            tok.literal@ == next_token_spec(old(self).text(), old(self).pos()).1,
            final(self).pos() == next_token_spec(old(self).text(), old(self).pos()).2,
    {
        self.skip_whitespace();
        if self.ch == '=' {
            if self.peek_char() == '=' {
                self.two_char_token(TokenKind::Equal)
            } else {
                self.single_char_token(TokenKind::Assign)
            }
        } else if self.ch == '!' {
            if self.peek_char() == '=' {
                self.two_char_token(TokenKind::NotEqual)
            } else {
                self.single_char_token(TokenKind::Bang)
            }
        } else if self.ch == '\0' {
            Token::new(TokenKind::EndOfInput, String::new())
        } else if Lexer::is_letter(self.ch) {
            let lit = self.read_identifier();
            let kind = Token::lookup_ident(lit.as_str());
            Token::new(kind, lit)
        } else if Lexer::is_digit(self.ch) {
            let lit = self.read_number();
            Token::new(TokenKind::Integer, lit)
        } else {
            let kind = if self.ch == '+' {
                TokenKind::Plus
            } else if self.ch == '-' {
                TokenKind::Minus
            } else if self.ch == '/' {
                TokenKind::Slash
            } else if self.ch == '*' {
                TokenKind::Asterisk
            } else if self.ch == '<' {
                TokenKind::LessThan
            } else if self.ch == '>' {
                TokenKind::GreaterThan
            } else if self.ch == '(' {
                TokenKind::LeftParen
            } else if self.ch == ')' {
                TokenKind::RightParen
            } else if self.ch == ';' {
                TokenKind::Semicolon
            } else if self.ch == ',' {
                TokenKind::Comma
            } else if self.ch == '{' {
                TokenKind::LeftBrace
            } else if self.ch == '}' {
                TokenKind::RightBrace
            } else {
                TokenKind::Illegal
            };
            self.single_char_token(kind)
        }
    }
}

/// The whitespace run is well bounded: it ends no earlier than it starts and
/// no later than the input does, it consists of whitespace throughout, and
/// the character it stops on (if any) is not whitespace.
pub proof fn lemma_ws_end_bounds(s: Seq<char>, i: int)
    requires
        0 <= i <= s.len(),
    ensures
        i <= ws_end(s, i) <= s.len(),
        forall|k: int| i <= k < ws_end(s, i) ==> is_whitespace_char(s[k]),
        ws_end(s, i) < s.len() ==> !is_whitespace_char(s[ws_end(s, i)]),
    decreases s.len() - i,
{
    if i < s.len() && is_whitespace_char(s[i]) {
        lemma_ws_end_bounds(s, i + 1);
    }
}

/// The letter run is well bounded: it ends no earlier than it starts and no
/// later than the input does, it consists of letters throughout, and the
/// character it stops on (if any) is not a letter.
pub proof fn lemma_letters_end_bounds(s: Seq<char>, i: int)
    requires
        0 <= i <= s.len(),
    ensures
        i <= letters_end(s, i) <= s.len(),
        forall|k: int| i <= k < letters_end(s, i) ==> is_letter_char(s[k]),
        letters_end(s, i) < s.len() ==> !is_letter_char(s[letters_end(s, i)]),
    decreases s.len() - i,
{
    if i < s.len() && is_letter_char(s[i]) {
        lemma_letters_end_bounds(s, i + 1);
    }
}

/// The digit run is well bounded: it ends no earlier than it starts and no
/// later than the input does, it consists of digits throughout, and the
/// character it stops on (if any) is not a digit.
pub proof fn lemma_digits_end_bounds(s: Seq<char>, i: int)
    requires
        0 <= i <= s.len(),
    ensures
        i <= digits_end(s, i) <= s.len(),
        forall|k: int| i <= k < digits_end(s, i) ==> is_digit_char(s[k]),
        digits_end(s, i) < s.len() ==> !is_digit_char(s[digits_end(s, i)]),
    decreases s.len() - i,
{
    if i < s.len() && is_digit_char(s[i]) {
        lemma_digits_end_bounds(s, i + 1);
    }
}

/// Over an input that holds nothing but whitespace, the very first scan step
/// yields `EndOfInput` with an empty literal.
pub proof fn lemma_whitespace_only_input(s: Seq<char>)
    requires
        forall|k: int| 0 <= k < s.len() ==> is_whitespace_char(s[k]),
    ensures
        next_token_spec(s, 0).0 == TokenKind::EndOfInput,
        next_token_spec(s, 0).1 == Seq::<char>::empty(),
{
    lemma_ws_end_bounds(s, 0);
}

/// `EndOfInput` is absorbing: once a scan step yields it, the step taken
/// from the resulting position yields exactly the same outcome, so every
/// later call keeps returning `EndOfInput`.
pub proof fn lemma_end_of_input_absorbing(s: Seq<char>, pos: int)
    requires
        0 <= pos <= s.len(),
        next_token_spec(s, pos).0 == TokenKind::EndOfInput,
    ensures
        next_token_spec(s, next_token_spec(s, pos).2) == next_token_spec(s, pos),
{
    let i = ws_end(s, pos);
    lemma_ws_end_bounds(s, pos);
    if i < s.len() {
        assert(s[i] == '\0');
    }
}

/// Identifier tokens are maximal: when the scan step lands on a letter, the
/// token covers the whole contiguous letter run, the character after the
/// token (if any) is not a letter, and the keyword lookup sees the complete
/// run, never a prefix of it.
pub proof fn lemma_identifier_token_maximal(s: Seq<char>, pos: int)
    requires
        0 <= pos <= s.len(),
        ws_end(s, pos) < s.len(),
        is_letter_char(s[ws_end(s, pos)]),
    ensures
        ({
            let i = ws_end(s, pos);
            let j = letters_end(s, i);
            &&& next_token_spec(s, pos).1 == s.subrange(i, j)
            &&& next_token_spec(s, pos).0 == keyword_kind(s.subrange(i, j))
            &&& i < j
            &&& forall|k: int| i <= k < j ==> is_letter_char(s[k])
            &&& j < s.len() ==> !is_letter_char(s[j])
        }),
{
    let i = ws_end(s, pos);
    lemma_ws_end_bounds(s, pos);
    lemma_letters_end_bounds(s, i);
}

} // verus!
