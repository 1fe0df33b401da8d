//! A lexer for the text of mesh files.

use vstd::prelude::*;

use crate::text::{copy_text, is_keyword, is_space, spec_ascii, spec_is_space, HASH};

verus! {

/// The byte that ends a line.
pub const NEWLINE: u8 = 10;

/// The byte that separates the indices of a corner.
pub const SLASH: u8 = 47;

/// One token of a mesh file.
#[derive(Debug, Clone, PartialEq, Eq)]
pub enum Token {
    /// A comment, from its `#` to the end of the line.
    Comment(Vec<u8>),
    /// A number, as written.
    Number(Vec<u8>),
    Identifier(Vec<u8>),
    /// The keyword `g`.
    Group,
    /// The keyword `f`.
    Face,
    /// The keyword `v`.
    Vertice,
    /// The keyword `vn`.
    Normal,
    Slash,
    /// The end of the text, or a byte that starts no token.
    EOF,
}

/// A token as plain values.
pub enum TokenView {
    Comment(Seq<u8>),
    Number(Seq<u8>),
    Identifier(Seq<u8>),
    Group,
    Face,
    Vertice,
    Normal,
    Slash,
    EOF,
}

/// A lexer over the text of a mesh file.
#[derive(Debug, Clone)]
pub struct Lexer {
    /// The text.
    pub buffer: Vec<u8>,
    /// Where the next token is looked for.
    pub buffer_position: usize,
    /// The token that was looked at ahead of its turn.
    pub peeked_token: Option<Token>,
}

impl View for Token {
    type V = TokenView;

    open spec fn view(&self) -> TokenView {
        match *self {
            Token::Comment(text) => TokenView::Comment(text@),
            Token::Number(text) => TokenView::Number(text@),
            Token::Identifier(text) => TokenView::Identifier(text@),
            Token::Group => TokenView::Group,
            Token::Face => TokenView::Face,
            Token::Vertice => TokenView::Vertice,
            Token::Normal => TokenView::Normal,
            Token::Slash => TokenView::Slash,
            Token::EOF => TokenView::EOF,
        }
    }
}

/// A token that may be there, as plain values.
pub open spec fn spec_peeked(token: Option<Token>) -> Option<TokenView> {
    match token {
        Some(token) => Some(token@),
        None => None,
    }
}

/// Whether `byte` can stand in an identifier: an ASCII letter or an
/// underscore.
pub open spec fn spec_is_identifier_byte(byte: u8) -> bool {
    (65 <= byte && byte <= 90) || (97 <= byte && byte <= 122) || byte == 95
}

/// Whether `byte` can start a number: an ASCII digit, a point or a minus
/// sign.
pub open spec fn spec_starts_number(byte: u8) -> bool {
    (48 <= byte && byte <= 57) || byte == 46 || byte == 45
}

/// The first position at or after `from` that holds no white space.
pub open spec fn spec_skip_whitespace(text: Seq<u8>, from: int) -> int
    decreases text.len() - from,
{
    if 0 <= from < text.len() && spec_is_space(text[from]) {
        spec_skip_whitespace(text, from + 1)
    } else {
        from
    }
}

/// The first position at or after `from` that holds no identifier byte.
pub open spec fn spec_identifier_end(text: Seq<u8>, from: int) -> int
    decreases text.len() - from,
{
    if 0 <= from < text.len() && spec_is_identifier_byte(text[from]) {
        spec_identifier_end(text, from + 1)
    } else {
        from
    }
}

/// The first position at or after `from` that holds white space.
pub open spec fn spec_number_end(text: Seq<u8>, from: int) -> int
    decreases text.len() - from,
{
    if 0 <= from < text.len() && !spec_is_space(text[from]) {
        spec_number_end(text, from + 1)
    } else {
        from
    }
}

/// The first position at or after `from` that holds the end of a line.
pub open spec fn spec_line_end(text: Seq<u8>, from: int) -> int
    decreases text.len() - from,
{
    if 0 <= from < text.len() && text[from] != NEWLINE {
        spec_line_end(text, from + 1)
    } else {
        from
    }
}

/// The token that an identifier stands for: a keyword, or the identifier
/// itself.
pub open spec fn spec_word_token(word: Seq<u8>) -> TokenView {
    if word == spec_ascii("g"@) {
        TokenView::Group
    } else if word == spec_ascii("v"@) {
        TokenView::Vertice
    } else if word == spec_ascii("vn"@) {
        TokenView::Normal
    } else if word == spec_ascii("f"@) {
        TokenView::Face
    } else {
        TokenView::Identifier(word)
    }
}

/// The token that stands at or after `from`, and where the text goes on
/// after it.
///
/// White space before the token is passed over. At the end of the text the
/// token is the end token. Letters and underscores make an identifier or a
/// keyword. A digit, a point or a minus sign starts a number, which runs up
/// to the next white space. A `#` starts a comment, which runs up to the end
/// of the line and takes the line end with it. A slash stands for itself.
/// Any other byte gives the end token, and the text does not go on.
pub open spec fn spec_next_token(text: Seq<u8>, from: int) -> (TokenView, int) {
    let start = spec_skip_whitespace(text, from);
    if start < 0 || start >= text.len() {
        (TokenView::EOF, start)
    } else if spec_is_identifier_byte(text[start]) {
        let end = spec_identifier_end(text, start);
        (spec_word_token(text.subrange(start, end)), end)
    } else if spec_starts_number(text[start]) {
        let end = spec_number_end(text, start);
        (TokenView::Number(text.subrange(start, end)), end)
    } else if text[start] == HASH {
        let end = spec_line_end(text, start);
        (
            TokenView::Comment(text.subrange(start, end)),
            if end < text.len() {
                end + 1
            } else {
                end
            },
        )
    } else if text[start] == SLASH {
        (TokenView::Slash, start + 1)
    } else {
        (TokenView::EOF, start)
    }
}

/// The ends of runs lie between the start of the run and the end of the
/// text.
pub proof fn run_ends_in_text(text: Seq<u8>, from: int)
    requires
        0 <= from <= text.len(),
    ensures
        from <= spec_skip_whitespace(text, from) <= text.len(),
        from <= spec_identifier_end(text, from) <= text.len(),
        from <= spec_number_end(text, from) <= text.len(),
        from <= spec_line_end(text, from) <= text.len(),
    decreases text.len() - from,
{
    if from < text.len() {
        run_ends_in_text(text, from + 1);
    }
}

/// A copy of `token`.
pub fn copy_token(token: &Token) -> (r: Token)
    ensures
        r@ == token@,
{
    match token {
        Token::Comment(text) => Token::Comment(copy_text(text)),
        Token::Number(text) => Token::Number(copy_text(text)),
        Token::Identifier(text) => Token::Identifier(copy_text(text)),
        Token::Group => Token::Group,
        Token::Face => Token::Face,
        Token::Vertice => Token::Vertice,
        Token::Normal => Token::Normal,
        Token::Slash => Token::Slash,
        Token::EOF => Token::EOF,
    }
}

/// Whether `byte` can stand in an identifier.
fn is_identifier_byte(byte: u8) -> (r: bool)
    ensures
        r == spec_is_identifier_byte(byte),
{
    (65 <= byte && byte <= 90) || (97 <= byte && byte <= 122) || byte == 95
}

/// Whether `byte` can start a number.
fn starts_number(byte: u8) -> (r: bool)
    ensures
        r == spec_starts_number(byte),
{
    (48 <= byte && byte <= 57) || byte == 46 || byte == 45
}

impl Lexer {
    /// The position is within the text.
    pub open spec fn wf(self) -> bool {
        self.buffer_position <= self.buffer@.len()
    }

    /// A lexer at the start of `text`.
    pub fn new(text: Vec<u8>) -> (r: Lexer)
        ensures
            r.wf(),
            r.buffer@ == text@,
            r.buffer_position == 0,
            r.peeked_token is None,
    {
        Lexer { buffer: text, buffer_position: 0, peeked_token: None }
    }

    /// The bytes from `start` up to `end`.
    fn slice(&self, start: usize, end: usize) -> (r: Vec<u8>)
        requires
            start <= end <= self.buffer@.len(),
        ensures
            r@ == self.buffer@.subrange(start as int, end as int),
    {
        let mut bytes: Vec<u8> = Vec::new();
        let mut i: usize = start;
        while i < end
            invariant
                start <= i <= end <= self.buffer@.len(),
                bytes@ == self.buffer@.subrange(start as int, i as int),
            decreases end - i,
        {
            bytes.push(self.buffer[i]);
            i += 1;
            assert(bytes@ =~= self.buffer@.subrange(start as int, i as int));
        }
        bytes
    }

    /// Passes over white space.
    fn skip_whitespace(&mut self)
        requires
            old(self).wf(),
        ensures
            final(self).wf(),
            final(self).buffer == old(self).buffer,
            final(self).peeked_token == old(self).peeked_token,
            final(self).buffer_position == spec_skip_whitespace(
                old(self).buffer@,
                old(self).buffer_position as int,
            ),
    {
        while self.buffer_position < self.buffer.len() && is_space(
            self.buffer[self.buffer_position],
        )
            invariant
                self.wf(),
                self.buffer == old(self).buffer,
                self.peeked_token == old(self).peeked_token,
                spec_skip_whitespace(old(self).buffer@, old(self).buffer_position as int)
                    == spec_skip_whitespace(self.buffer@, self.buffer_position as int),
            decreases self.buffer@.len() - self.buffer_position,
        {
            self.buffer_position += 1;
        }
    }

    /// Reads an identifier or a keyword.
    fn consume_identifier(&mut self) -> (r: Token)
        requires
            old(self).wf(),
        ensures
            final(self).wf(),
            final(self).buffer == old(self).buffer,
            final(self).peeked_token == old(self).peeked_token,
            final(self).buffer_position == spec_identifier_end(
                old(self).buffer@,
                old(self).buffer_position as int,
            ),
            r@ == spec_word_token(
                old(self).buffer@.subrange(
                    old(self).buffer_position as int,
                    final(self).buffer_position as int,
                ),
            ),
    {
        let start = self.buffer_position;
        while self.buffer_position < self.buffer.len() && is_identifier_byte(
            self.buffer[self.buffer_position],
        )
            invariant
                self.wf(),
                start <= self.buffer_position,
                self.buffer == old(self).buffer,
                self.peeked_token == old(self).peeked_token,
                spec_identifier_end(old(self).buffer@, old(self).buffer_position as int)
                    == spec_identifier_end(self.buffer@, self.buffer_position as int),
            decreases self.buffer@.len() - self.buffer_position,
        {
            self.buffer_position += 1;
        }
        let word = self.slice(start, self.buffer_position);
        proof {
            reveal_strlit("g");
            reveal_strlit("v");
            reveal_strlit("vn");
            reveal_strlit("f");
        }
        if is_keyword(word.as_slice(), "g") {
            Token::Group
        } else if is_keyword(word.as_slice(), "v") {
            Token::Vertice
        } else if is_keyword(word.as_slice(), "vn") {
            Token::Normal
        } else if is_keyword(word.as_slice(), "f") {
            Token::Face
        } else {
            Token::Identifier(word)
        }
    }

    /// Reads a number: everything up to the next white space.
    fn consumer_number(&mut self) -> (r: Token)
        requires
            old(self).wf(),
        ensures
            final(self).wf(),
            final(self).buffer == old(self).buffer,
            final(self).peeked_token == old(self).peeked_token,
            final(self).buffer_position == spec_number_end(
                old(self).buffer@,
                old(self).buffer_position as int,
            ),
            r@ == TokenView::Number(
                old(self).buffer@.subrange(
                    old(self).buffer_position as int,
                    final(self).buffer_position as int,
                ),
            ),
    {
        let start = self.buffer_position;
        while self.buffer_position < self.buffer.len() && !is_space(
            self.buffer[self.buffer_position],
        )
            invariant
                self.wf(),
                start <= self.buffer_position,
                self.buffer == old(self).buffer,
                self.peeked_token == old(self).peeked_token,
                spec_number_end(old(self).buffer@, old(self).buffer_position as int)
                    == spec_number_end(self.buffer@, self.buffer_position as int),
            decreases self.buffer@.len() - self.buffer_position,
        {
            self.buffer_position += 1;
        }
        Token::Number(self.slice(start, self.buffer_position))
    }

    /// Reads a comment: everything up to the end of the line, which is
    /// passed over.
    fn consume_comment(&mut self) -> (r: Token)
        requires
            old(self).wf(),
        ensures
            final(self).wf(),
            final(self).buffer == old(self).buffer,
            final(self).peeked_token == old(self).peeked_token,
            ({
                let end = spec_line_end(old(self).buffer@, old(self).buffer_position as int);
                &&& final(self).buffer_position == if end < old(self).buffer@.len() {
                    end + 1
                } else {
                    end
                }
                &&& r@ == TokenView::Comment(
                    old(self).buffer@.subrange(old(self).buffer_position as int, end),
                )
            }),
    {
        let start = self.buffer_position;
        while self.buffer_position < self.buffer.len() && self.buffer[self.buffer_position]
            != NEWLINE
            invariant
                self.wf(),
                start <= self.buffer_position,
                self.buffer == old(self).buffer,
                self.peeked_token == old(self).peeked_token,
                spec_line_end(old(self).buffer@, old(self).buffer_position as int)
                    == spec_line_end(self.buffer@, self.buffer_position as int),
            decreases self.buffer@.len() - self.buffer_position,
        {
            self.buffer_position += 1;
        }
        let comment = self.slice(start, self.buffer_position);
        if self.buffer_position < self.buffer.len() {
            self.buffer_position += 1;
        }
        Token::Comment(comment)
    }

    /// The next token, which stays the next token.
    pub fn peek_token(&mut self) -> (r: Token)
        requires
            old(self).wf(),
        ensures
            final(self).wf(),
            final(self).buffer == old(self).buffer,
            spec_peeked(final(self).peeked_token) == Some(r@),
            match old(self).peeked_token {
                Some(token) => r@ == token@ && final(self).buffer_position
                    == old(self).buffer_position,
                None => (r@, final(self).buffer_position as int) == spec_next_token(
                    old(self).buffer@,
                    old(self).buffer_position as int,
                ),
            },
    {
        let token = match &self.peeked_token {
            Some(token) => copy_token(token),
            None => self.next_token(),
        };
        self.peeked_token = Some(copy_token(&token));
        token
    }

    /// Takes the next token: the one that was looked at ahead, if there is
    /// one, else the one that the text holds next.
    pub fn next_token(&mut self) -> (r: Token)
        requires
            old(self).wf(),
        ensures
            final(self).wf(),
            final(self).buffer == old(self).buffer,
            final(self).peeked_token is None,
            match old(self).peeked_token {
                Some(token) => r@ == token@ && final(self).buffer_position
                    == old(self).buffer_position,
                None => (r@, final(self).buffer_position as int) == spec_next_token(
                    old(self).buffer@,
                    old(self).buffer_position as int,
                ),
            },
    {
        if self.peeked_token.is_some() {
            let mut taken: Option<Token> = None;
            std::mem::swap(&mut self.peeked_token, &mut taken);
            return taken.unwrap();
        }
        proof {
            run_ends_in_text(self.buffer@, self.buffer_position as int);
        }
        self.skip_whitespace();
        if self.buffer_position >= self.buffer.len() {
            return Token::EOF;
        }
        let byte = self.buffer[self.buffer_position];
        if is_identifier_byte(byte) {
            self.consume_identifier()
        } else if starts_number(byte) {
            self.consumer_number()
        } else if byte == HASH {
            self.consume_comment()
        } else if byte == SLASH {
            self.buffer_position += 1;
            Token::Slash
        } else {
            Token::EOF
        }
    }
}

} // verus!
