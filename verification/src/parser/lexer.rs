//! Factor expression lexer
//!
//! Tokenizes factor expressions. Token positions and lengths are byte offsets
//! into the input, as `str::char_indices` reports them.

use vstd::prelude::*;
use crate::text::{
    alphanumeric, byte_offset, byte_offset_of, char_is_whitespace, is_alnum, char_len_utf8,
    chars_to_string, is_ascii_digit, is_ascii_letter, is_whitespace, sat_usize,
    str_chars, utf8_len,
};
use crate::parser::number::{
    canonical_literal, is_float_literal, is_float_literal_range, lemma_negated_literal,
    literal_text,
};

verus! {

/// Token kinds in factor expressions
#[derive(Debug, Clone, PartialEq)]
pub enum TokenKind {
    /// Identifier (function name or variable)
    Ident(String),
    /// Numeric literal, written as it displays (a leading `-` is part of it)
    Number(String),
    /// Opening parenthesis
    LParen,
    /// Closing parenthesis
    RParen,
    /// Comma separator (commas separate arguments like whitespace, so the
    /// lexer does not produce this kind)
    Comma,
    /// Plus operator
    Plus,
    /// Minus operator
    Minus,
    /// Multiply operator
    Star,
    /// Divide operator
    Slash,
    /// End of input
    Eof,
}

/// The mathematical content of a token kind.
pub enum SpecTokenKind {
    Ident(Seq<char>),
    Number(Seq<char>),
    LParen,
    RParen,
    Comma,
    Plus,
    Minus,
    Star,
    Slash,
    Eof,
}

impl View for TokenKind {
    type V = SpecTokenKind;

    open spec fn view(&self) -> SpecTokenKind {
        match self {
            TokenKind::Ident(s) => SpecTokenKind::Ident(s@),
            TokenKind::Number(s) => SpecTokenKind::Number(s@),
            TokenKind::LParen => SpecTokenKind::LParen,
            TokenKind::RParen => SpecTokenKind::RParen,
            TokenKind::Comma => SpecTokenKind::Comma,
            TokenKind::Plus => SpecTokenKind::Plus,
            TokenKind::Minus => SpecTokenKind::Minus,
            TokenKind::Star => SpecTokenKind::Star,
            TokenKind::Slash => SpecTokenKind::Slash,
            TokenKind::Eof => SpecTokenKind::Eof,
        }
    }
}

/// A token with position information
#[derive(Debug, Clone)]
pub struct Token {
    pub kind: TokenKind,
    pub position: usize,
    pub length: usize,
}

pub struct SpecToken {
    pub kind: SpecTokenKind,
    pub position: usize,
    pub length: usize,
}

impl View for Token {
    type V = SpecToken;

    open spec fn view(&self) -> SpecToken {
        SpecToken { kind: self.kind@, position: self.position, length: self.length }
    }
}

impl Token {
    pub fn new(kind: TokenKind, position: usize, length: usize) -> (r: Self)
        ensures
            r.kind == kind,
            r.position == position,
            r.length == length,
    {
        Self { kind, position, length }
    }
}

/// Lexer error types
#[derive(Debug, Clone, Copy, PartialEq, Eq, Structural)]
pub enum LexerError {
    /// An unexpected character and its byte position
    UnexpectedChar(char, usize),
    /// A malformed number starting at the byte position
    InvalidNumber(usize),
}

// ---------------------------------------------------------------------------
// Specification of the scanner

/// A char that only separates tokens: whitespace or a comma.
pub open spec fn is_separator(c: char) -> bool {
    char_is_whitespace(c) || c == ','
}

/// Index of the first char at or after `i` that is no separator.
pub open spec fn skip_ws(s: Seq<char>, i: int) -> int
    decreases s.len() - i,
{
    if 0 <= i < s.len() && is_separator(s[i]) {
        skip_ws(s, i + 1)
    } else {
        i
    }
}

/// A char that continues an identifier: alphanumeric or `_`.
pub open spec fn is_ident_char(c: char) -> bool {
    is_alnum(c) || c == '_'
}

/// End of the identifier starting at `i`.
pub open spec fn ident_end(s: Seq<char>, i: int) -> int
    decreases s.len() - i,
{
    if 0 <= i < s.len() && is_ident_char(s[i]) {
        ident_end(s, i + 1)
    } else {
        i
    }
}

/// End of the number text starting at `i`: digits, one dot, and `e`/`E`
/// markers each followed by an optional sign.
pub open spec fn number_end(s: Seq<char>, i: int, has_dot: bool) -> int
    decreases s.len() - i,
{
    if i < 0 || i >= s.len() {
        i
    } else if is_ascii_digit(s[i]) {
        number_end(s, i + 1, has_dot)
    } else if s[i] == '.' && !has_dot {
        number_end(s, i + 1, true)
    } else if s[i] == 'e' || s[i] == 'E' {
        if i + 1 < s.len() && (s[i + 1] == '+' || s[i + 1] == '-') {
            number_end(s, i + 2, has_dot)
        } else {
            number_end(s, i + 1, has_dot)
        }
    } else {
        i
    }
}

pub open spec fn spec_token(kind: SpecTokenKind, position: usize, length: usize) -> SpecToken {
    SpecToken { kind, position, length }
}

/// The token found at index `i` of `s`, and the index after it.
pub open spec fn lex_step(s: Seq<char>, i: int) -> (Result<SpecToken, LexerError>, int) {
    let j = skip_ws(s, i);
    if j >= s.len() {
        (Ok(spec_token(SpecTokenKind::Eof, sat_usize(utf8_len(s) as int), 0)), j)
    } else {
        let c = s[j];
        let p = byte_offset(s, j);
        if c == '(' {
            (Ok(spec_token(SpecTokenKind::LParen, p, 1)), j + 1)
        } else if c == ')' {
            (Ok(spec_token(SpecTokenKind::RParen, p, 1)), j + 1)
        } else if c == '+' {
            (Ok(spec_token(SpecTokenKind::Plus, p, 1)), j + 1)
        } else if c == '-' {
            if j + 1 < s.len() && (is_ascii_digit(s[j + 1]) || s[j + 1] == '.') {
                let e = number_end(s, j + 1, false);
                let lexeme = s.subrange(j + 1, e);
                if is_float_literal(lexeme) {
                    (
                        Ok(
                            spec_token(
                                SpecTokenKind::Number(literal_text(seq!['-'] + lexeme)),
                                p,
                                (e - j) as usize,
                            ),
                        ),
                        e,
                    )
                } else {
                    (Err(LexerError::InvalidNumber(p)), e)
                }
            } else {
                (Ok(spec_token(SpecTokenKind::Minus, p, 1)), j + 1)
            }
        } else if c == '*' {
            (Ok(spec_token(SpecTokenKind::Star, p, 1)), j + 1)
        } else if c == '/' {
            (Ok(spec_token(SpecTokenKind::Slash, p, 1)), j + 1)
        } else if is_ascii_digit(c) || c == '.' {
            let e = number_end(s, j, false);
            let lexeme = s.subrange(j, e);
            if is_float_literal(lexeme) {
                (Ok(spec_token(SpecTokenKind::Number(literal_text(lexeme)), p, (e - j) as usize)), e)
            } else {
                (Err(LexerError::InvalidNumber(p)), e)
            }
        } else if is_ascii_letter(c) || c == '_' {
            let e = ident_end(s, j);
            let name = s.subrange(j, e);
            (Ok(spec_token(SpecTokenKind::Ident(name), p, sat_usize(utf8_len(name) as int))), e)
        } else {
            (Err(LexerError::UnexpectedChar(c, p)), j)
        }
    }
}

pub proof fn lemma_skip_ws(s: Seq<char>, i: int)
    requires
        0 <= i <= s.len(),
    ensures
        i <= skip_ws(s, i) <= s.len(),
    decreases s.len() - i,
{
    if i < s.len() && is_separator(s[i]) {
        lemma_skip_ws(s, i + 1);
    }
}

pub proof fn lemma_ident_end(s: Seq<char>, i: int)
    requires
        0 <= i <= s.len(),
    ensures
        i <= ident_end(s, i) <= s.len(),
        i < s.len() && is_ident_char(s[i]) ==> i < ident_end(s, i),
    decreases s.len() - i,
{
    if i < s.len() && is_ident_char(s[i]) {
        lemma_ident_end(s, i + 1);
    }
}

pub proof fn lemma_number_end(s: Seq<char>, i: int, has_dot: bool)
    requires
        0 <= i <= s.len(),
    ensures
        i <= number_end(s, i, has_dot) <= s.len(),
        i < s.len() && (is_ascii_digit(s[i]) || (s[i] == '.' && !has_dot)) ==> i < number_end(
            s,
            i,
            has_dot,
        ),
    decreases s.len() - i,
{
    if i < s.len() {
        if is_ascii_digit(s[i]) {
            lemma_number_end(s, i + 1, has_dot);
        } else if s[i] == '.' && !has_dot {
            lemma_number_end(s, i + 1, true);
        } else if s[i] == 'e' || s[i] == 'E' {
            if i + 1 < s.len() && (s[i + 1] == '+' || s[i + 1] == '-') {
                lemma_number_end(s, i + 2, has_dot);
            } else {
                lemma_number_end(s, i + 1, has_dot);
            }
        }
    }
}

/// The index after a step stays in range, and every token but the last moves forward.
pub proof fn lemma_lex_step(s: Seq<char>, i: int)
    requires
        0 <= i <= s.len(),
    ensures
        i <= lex_step(s, i).1 <= s.len(),
        lex_step(s, i).0 matches Ok(t) && !(t.kind is Eof) ==> i < lex_step(s, i).1,
{
    lemma_skip_ws(s, i);
    let j = skip_ws(s, i);
    if j < s.len() {
        lemma_number_end(s, j, false);
        lemma_ident_end(s, j);
        if j + 1 <= s.len() {
            lemma_number_end(s, j + 1, false);
        }
    }
}

/// The tokens from index `i` of `s` up to and including the end of input, or
/// the first error; and the index where scanning stopped.
pub open spec fn lex_all(s: Seq<char>, i: int) -> (Result<Seq<SpecToken>, LexerError>, int)
    decreases s.len() - i,
{
    if i < 0 || i > s.len() {
        (Ok(Seq::empty()), i)
    } else {
        let (r, j) = lex_step(s, i);
        match r {
            Err(e) => (Err(e), j),
            Ok(t) => {
                if t.kind is Eof {
                    (Ok(seq![t]), j)
                } else {
                    proof {
                        lemma_lex_step(s, i);
                    }
                    let (rest, k) = lex_all(s, j);
                    match rest {
                        Ok(ts) => (Ok(seq![t] + ts), k),
                        Err(e) => (Err(e), k),
                    }
                }
            }
        }
    }
}

// ---------------------------------------------------------------------------
// The lexer

/// Lexer for factor expressions
pub struct FactorLexer {
    chars: Vec<char>,
    next: usize,
}

impl FactorLexer {
    #[verifier::type_invariant]
    spec fn inv(self) -> bool {
        &&& self.next <= self.chars@.len()
        &&& self.chars@.len() <= usize::MAX
    }

    /// The whole input.
    pub closed spec fn input(&self) -> Seq<char> {
        self.chars@
    }

    /// Index of the next unread char.
    pub closed spec fn index(&self) -> int {
        self.next as int
    }

    /// Create a new lexer for the given input
    pub fn new(input: &str) -> (r: Self)
        ensures
            r.input() == input@,
            r.index() == 0,
    {
        let chars = str_chars(input);
        assert(chars@.len() == chars.len());
        FactorLexer { chars, next: 0 }
    }

    /// Moves past the char at `next`.
    fn advance(&mut self)
        requires
            old(self).index() < old(self).input().len(),
        ensures
            final(self).input() == old(self).input(),
            final(self).index() == old(self).index() + 1,
    {
        proof {
            use_type_invariant(&*self);
        }
        let n = self.next;
        self.next = n + 1;
    }

    /// Moves past whitespace and commas.
    fn skip_whitespace(&mut self)
        ensures
            final(self).input() == old(self).input(),
            final(self).index() == skip_ws(old(self).input(), old(self).index()),
    {
        proof {
            use_type_invariant(&*self);
        }
        while self.next < self.chars.len() && (is_whitespace(self.chars[self.next])
            || self.chars[self.next] == ',')
            invariant
                self.input() == old(self).input(),
                skip_ws(self.input(), self.index()) == skip_ws(old(self).input(), old(self).index()),
            decreases self.input().len() - self.index(),
        {
            self.advance();
            proof {
                use_type_invariant(&*self);
            }
        }
    }

    /// Reads the number text at `next`; `start_pos` is reported on error.
    fn read_number(&mut self, start_pos: usize) -> (r: Result<(String, usize), LexerError>)
        ensures
            final(self).input() == old(self).input(),
            final(self).index() == number_end(old(self).input(), old(self).index(), false),
            old(self).index() <= final(self).index() <= old(self).input().len(),
            ({
                let lexeme = old(self).input().subrange(old(self).index(), final(self).index());
                match r {
                    Ok((text, len)) => is_float_literal(lexeme) && text@ == lexeme && len
                        == lexeme.len(),
                    Err(e) => !is_float_literal(lexeme) && e == LexerError::InvalidNumber(
                        start_pos,
                    ),
                }
            }),
    {
        proof {
            use_type_invariant(&*self);
        }
        let start = self.next;
        let mut has_dot = false;
        loop
            invariant
                self.input() == old(self).input(),
                start == old(self).index(),
                start <= self.index() <= self.input().len(),
                number_end(self.input(), self.index(), has_dot) == number_end(
                    old(self).input(),
                    old(self).index(),
                    false,
                ),
            ensures
                number_end(self.input(), self.index(), has_dot) == self.index(),
            decreases self.input().len() - self.index(),
        {
            proof {
                use_type_invariant(&*self);
            }
            if self.next >= self.chars.len() {
                assert(number_end(self.input(), self.index(), has_dot) == self.index());
                break;
            }
            let ch = self.chars[self.next];
            if '0' <= ch && ch <= '9' {
                self.advance();
            } else if ch == '.' && !has_dot {
                has_dot = true;
                self.advance();
            } else if ch == 'e' || ch == 'E' {
                self.advance();
                proof {
                    use_type_invariant(&*self);
                }
                if self.next < self.chars.len() && (self.chars[self.next] == '+'
                    || self.chars[self.next] == '-') {
                    self.advance();
                }
            } else {
                assert(number_end(self.input(), self.index(), has_dot) == self.index());
                break;
            }
        }
        proof {
            use_type_invariant(&*self);
        }
        let end = self.next;
        if is_float_literal_range(&self.chars, start, end) {
            let text = chars_to_string(&self.chars, start, end);
            Ok((text, end - start))
        } else {
            Err(LexerError::InvalidNumber(start_pos))
        }
    }

    fn read_identifier(&mut self) -> (r: (String, usize))
        ensures
            final(self).input() == old(self).input(),
            final(self).index() == ident_end(old(self).input(), old(self).index()),
            r.0@ == old(self).input().subrange(old(self).index(), final(self).index()),
            r.1 == sat_usize(utf8_len(r.0@) as int),
    {
        proof {
            use_type_invariant(&*self);
        }
        let start = self.next;
        while self.next < self.chars.len() && (alphanumeric(self.chars[self.next])
            || self.chars[self.next] == '_')
            invariant
                self.input() == old(self).input(),
                start == old(self).index(),
                start <= self.index() <= self.input().len(),
                ident_end(self.input(), self.index()) == ident_end(
                    old(self).input(),
                    old(self).index(),
                ),
            decreases self.input().len() - self.index(),
        {
            self.advance();
            proof {
                use_type_invariant(&*self);
            }
        }
        proof {
            use_type_invariant(&*self);
        }
        let end = self.next;
        let ident = chars_to_string(&self.chars, start, end);
        let mut len: usize = 0;
        let mut k = start;
        while k < end
            invariant
                start <= k <= end <= self.chars@.len(),
                len == sat_usize(utf8_len(self.chars@.subrange(start as int, k as int)) as int),
            decreases end - k,
        {
            let w = char_len_utf8(self.chars[k]);
            assert(self.chars@.subrange(start as int, k + 1).drop_last() =~= self.chars@.subrange(
                start as int,
                k as int,
            ));
            len = len.saturating_add(w);
            k += 1;
        }
        (ident, len)
    }

    /// Get the next token
    pub fn next_token(&mut self) -> (r: Result<Token, LexerError>)
        ensures
            final(self).input() == old(self).input(),
            final(self).index() == lex_step(old(self).input(), old(self).index()).1,
            match (r, lex_step(old(self).input(), old(self).index()).0) {
                (Ok(t), Ok(st)) => t@ == st,
                (Err(e), Err(se)) => e == se,
                _ => false,
            },
    {
        self.skip_whitespace();
        proof {
            use_type_invariant(&*self);
            lemma_skip_ws(old(self).input(), old(self).index());
        }
        if self.next >= self.chars.len() {
            let total = byte_offset_of(&self.chars, self.chars.len());
            assert(self.chars@.take(self.chars@.len() as int) =~= self.chars@);
            return Ok(Token::new(TokenKind::Eof, total, 0));
        }
        let pos = byte_offset_of(&self.chars, self.next);
        let ch = self.chars[self.next];
        if ch == '(' {
            self.advance();
            Ok(Token::new(TokenKind::LParen, pos, 1))
        } else if ch == ')' {
            self.advance();
            Ok(Token::new(TokenKind::RParen, pos, 1))
        } else if ch == '+' {
            self.advance();
            Ok(Token::new(TokenKind::Plus, pos, 1))
        } else if ch == '-' {
            // Could be negative number or minus operator
            self.advance();
            proof {
                use_type_invariant(&*self);
            }
            if self.next < self.chars.len() && (('0' <= self.chars[self.next]
                && self.chars[self.next] <= '9') || self.chars[self.next] == '.') {
                let ghost j1 = self.index();
                proof {
                    lemma_number_end(self.input(), j1, false);
                }
                let (text, len) = self.read_number(pos)?;
                let mut neg = String::new();
                neg.push('-');
                neg.push_str(text.as_str());
                proof {
                    assert(text@[0] == old(self).input()[j1]);
                    lemma_negated_literal(text@);
                }
                let shown = canonical_literal(&neg);
                return Ok(Token::new(TokenKind::Number(shown), pos, len + 1));
            }
            Ok(Token::new(TokenKind::Minus, pos, 1))
        } else if ch == '*' {
            self.advance();
            Ok(Token::new(TokenKind::Star, pos, 1))
        } else if ch == '/' {
            self.advance();
            Ok(Token::new(TokenKind::Slash, pos, 1))
        } else if ('0' <= ch && ch <= '9') || ch == '.' {
            let (text, len) = self.read_number(pos)?;
            let shown = canonical_literal(&text);
            Ok(Token::new(TokenKind::Number(shown), pos, len))
        } else if ('a' <= ch && ch <= 'z') || ('A' <= ch && ch <= 'Z') || ch == '_' {
            let (ident, len) = self.read_identifier();
            Ok(Token::new(TokenKind::Ident(ident), pos, len))
        } else {
            Err(LexerError::UnexpectedChar(ch, pos))
        }
    }

    /// Tokenize the entire input
    pub fn tokenize(&mut self) -> (r: Result<Vec<Token>, LexerError>)
        ensures
            final(self).input() == old(self).input(),
            final(self).index() == lex_all(old(self).input(), old(self).index()).1,
            match (r, lex_all(old(self).input(), old(self).index()).0) {
                (Ok(ts), Ok(sts)) => tokens_view(ts@) == sts,
                (Err(e), Err(se)) => e == se,
                _ => false,
            },
    {
        proof {
            use_type_invariant(&*self);
        }
        let mut tokens: Vec<Token> = Vec::new();
        assert(tokens_view(tokens@) + Seq::<SpecToken>::empty() =~= Seq::<SpecToken>::empty());
        loop
            invariant_except_break
                self.input() == old(self).input(),
                0 <= self.index() <= self.input().len(),
                lex_all(old(self).input(), old(self).index()) == prepend_tokens(
                    tokens_view(tokens@),
                    lex_all(self.input(), self.index()),
                ),
            ensures
                self.input() == old(self).input(),
                lex_all(old(self).input(), old(self).index()) == (
                    Ok::<Seq<SpecToken>, LexerError>(tokens_view(tokens@)),
                    self.index(),
                ),
            decreases self.input().len() - self.index(),
        {
            let ghost i = self.index();
            let ghost before = tokens_view(tokens@);
            proof {
                lemma_lex_step(self.input(), i);
            }
            let token = self.next_token()?;
            proof {
                use_type_invariant(&*self);
            }
            let is_eof = matches!(token.kind, TokenKind::Eof);
            tokens.push(token);
            assert(tokens_view(tokens@) =~= before.push(token@));
            if is_eof {
                assert(before + seq![token@] =~= before.push(token@));
                break;
            }
            proof {
                let (rest, k) = lex_all(self.input(), self.index());
                match rest {
                    Ok(ts) => {
                        assert(before + (seq![token@] + ts) =~= before.push(token@) + ts);
                    },
                    Err(e) => {},
                }
            }
        }
        Ok(tokens)
    }
}

/// The views of a sequence of tokens.
pub open spec fn tokens_view(ts: Seq<Token>) -> Seq<SpecToken> {
    ts.map_values(|t: Token| t@)
}

/// `done` followed by the tokens of a scanning result.
pub open spec fn prepend_tokens(
    done: Seq<SpecToken>,
    r: (Result<Seq<SpecToken>, LexerError>, int),
) -> (Result<Seq<SpecToken>, LexerError>, int) {
    (
        match r.0 {
            Ok(ts) => Ok(done + ts),
            Err(e) => Err(e),
        },
        r.1,
    )
}


/// Law: a successful scan yields exactly one end-of-input token, and it is
/// the last one.
pub proof fn law_tokens_end_with_eof(s: Seq<char>, i: int)
    requires
        0 <= i <= s.len(),
    ensures
        lex_all(s, i).0 matches Ok(ts) ==> {
            &&& ts.len() > 0
            &&& ts.last().kind is Eof
            &&& forall|k: int| 0 <= k < ts.len() - 1 ==> !(#[trigger] ts[k].kind is Eof)
        },
    decreases s.len() - i,
{
    lemma_lex_step(s, i);
    let (r, j) = lex_step(s, i);
    if let Ok(t) = r {
        if !(t.kind is Eof) {
            law_tokens_end_with_eof(s, j);
            if let Ok(rest) = lex_all(s, j).0 {
                let ts = seq![t] + rest;
                assert forall|k: int| 0 <= k < ts.len() - 1 implies !(#[trigger] ts[k].kind is Eof) by {
                    if k > 0 {
                        assert(ts[k] == rest[k - 1]);
                    }
                }
                assert(ts.last() == rest.last());
            }
        }
    }
}

proof fn lemma_skip_to(s: Seq<char>, i: int, j: int)
    requires
        0 <= i <= j < s.len(),
        forall|k: int| i <= k < j ==> is_separator(#[trigger] s[k]),
        !is_separator(s[j]),
    ensures
        skip_ws(s, i) == j,
    decreases j - i,
{
    if i < j {
        lemma_skip_to(s, i + 1, j);
    }
}

proof fn lemma_ident_run(s: Seq<char>, i: int)
    requires
        0 <= i <= s.len(),
    ensures
        forall|k: int| i <= k < ident_end(s, i) ==> is_ident_char(#[trigger] s[k]),
        ident_end(s, i) == s.len() || !is_ident_char(s[ident_end(s, i)]),
    decreases s.len() - i,
{
    if i < s.len() && is_ident_char(s[i]) {
        lemma_ident_run(s, i + 1);
    }
}

/// Law: where the next token starts with an ASCII letter of either case or
/// `_`, it is an identifier: the longest run of letters, digits and `_`
/// from there, at the byte offset where it starts.
pub proof fn law_letters_start_identifiers(s: Seq<char>, i: int, j: int)
    requires
        0 <= i <= j < s.len(),
        forall|k: int| i <= k < j ==> is_separator(#[trigger] s[k]),
        ('a' <= s[j] && s[j] <= 'z') || ('A' <= s[j] && s[j] <= 'Z') || s[j] == '_',
    ensures
        ({
            let e = lex_step(s, i).1;
            let name = s.subrange(j, e);
            &&& j < e <= s.len()
            &&& forall|k: int| j <= k < e ==> is_ident_char(#[trigger] s[k])
            &&& e == s.len() || !is_ident_char(s[e])
            &&& lex_step(s, i).0 == Ok::<SpecToken, LexerError>(
                spec_token(SpecTokenKind::Ident(name), byte_offset(s, j), sat_usize(utf8_len(name) as int)),
            )
        }),
{
    let c = s[j];
    assert(!char_is_whitespace(c));
    lemma_skip_to(s, i, j);
    lemma_ident_end(s, j);
    lemma_ident_run(s, j);
}

/// Law: the one-char tokens. Where the next token starts with `(`, `)`,
/// `+`, `*` or `/`, or with a `-` that no digit or `.` follows, it is that
/// token, one char long, at the byte offset where it stands.
pub proof fn law_single_char_tokens(s: Seq<char>, i: int, j: int)
    requires
        0 <= i <= j < s.len(),
        forall|k: int| i <= k < j ==> is_separator(#[trigger] s[k]),
        s[j] == '(' || s[j] == ')' || s[j] == '+' || s[j] == '*' || s[j] == '/' || (s[j] == '-'
            && !(j + 1 < s.len() && (('0' <= s[j + 1] && s[j + 1] <= '9') || s[j + 1] == '.'))),
    ensures
        lex_step(s, i).1 == j + 1,
        lex_step(s, i).0 == Ok::<SpecToken, LexerError>(
            spec_token(
                if s[j] == '(' {
                    SpecTokenKind::LParen
                } else if s[j] == ')' {
                    SpecTokenKind::RParen
                } else if s[j] == '+' {
                    SpecTokenKind::Plus
                } else if s[j] == '*' {
                    SpecTokenKind::Star
                } else if s[j] == '/' {
                    SpecTokenKind::Slash
                } else {
                    SpecTokenKind::Minus
                },
                byte_offset(s, j),
                1,
            ),
        ),
{
    assert(!char_is_whitespace(s[j]));
    lemma_skip_to(s, i, j);
}

/// Law: where only separators are left, the next token is the end of input,
/// at the byte length of the text.
pub proof fn law_end_of_input(s: Seq<char>, i: int)
    requires
        0 <= i <= s.len(),
        forall|k: int| i <= k < s.len() ==> is_separator(#[trigger] s[k]),
    ensures
        lex_step(s, i).0 == Ok::<SpecToken, LexerError>(
            spec_token(SpecTokenKind::Eof, sat_usize(utf8_len(s) as int), 0),
        ),
    decreases s.len() - i,
{
    if i < s.len() {
        law_end_of_input(s, i + 1);
    }
}

} // verus!
