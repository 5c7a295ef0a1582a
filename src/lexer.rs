use vstd::prelude::*;
use vstd::string::*;
use vstd::utf8::*;

use crate::file::PaserFile;
use crate::token::{Token, TokenView};

verus! {

pub const SPACE: u8 = 32;
pub const CR: u8 = 13;
pub const LF: u8 = 10;
pub const QUOTE: u8 = 34;
pub const COLON: u8 = 58;
pub const SEMICOLON: u8 = 59;
pub const EQUALS: u8 = 61;
pub const PLUS: u8 = 43;
pub const MINUS: u8 = 45;
pub const GREATER: u8 = 62;
pub const STAR: u8 = 42;
pub const SLASH: u8 = 47;
pub const LEFT_BRACE: u8 = 123;
pub const RIGHT_BRACE: u8 = 125;
pub const LESS: u8 = 60;
pub const BANG: u8 = 33;
pub const LEFT_PAREN: u8 = 40;
pub const RIGHT_PAREN: u8 = 41;
pub const COMMA: u8 = 44;
pub const LEFT_SQUARE: u8 = 91;
pub const RIGHT_SQUARE: u8 = 93;
pub const DOT: u8 = 46;
pub const LOWER_A: u8 = 97;
pub const LOWER_Z: u8 = 122;
pub const UPPER_A: u8 = 65;
pub const UPPER_Z: u8 = 90;
pub const UNDERSCORE: u8 = 95;
pub const DIGIT_0: u8 = 48;
pub const DIGIT_9: u8 = 57;

pub open spec fn is_letter_byte(c: u8) -> bool {
    (LOWER_A <= c && c <= LOWER_Z) || (UPPER_A <= c && c <= UPPER_Z) || c == UNDERSCORE
}

pub open spec fn is_digit_byte(c: u8) -> bool {
    DIGIT_0 <= c && c <= DIGIT_9
}

/// The byte at `k`, or 0 past the end.
pub open spec fn byte_at(b: Seq<u8>, k: int) -> u8 {
    if 0 <= k < b.len() {
        b[k]
    } else {
        0
    }
}

/// The 1-based line of position `i`: one more than the carriage returns before it.
pub open spec fn line_at(b: Seq<u8>, i: int) -> int
    decreases i,
{
    if i <= 0 {
        1
    } else if b[i - 1] == CR {
        line_at(b, i - 1) + 1
    } else {
        line_at(b, i - 1)
    }
}

/// The number of bytes before position `i` since the last carriage return.
pub open spec fn column_at(b: Seq<u8>, i: int) -> int
    decreases i,
{
    if i <= 0 {
        0
    } else if b[i - 1] == CR {
        0
    } else {
        column_at(b, i - 1) + 1
    }
}

/// The first position at or after `i` that holds no space or carriage return.
pub open spec fn blank_end(b: Seq<u8>, i: int) -> int
    decreases b.len() - i,
{
    if i < b.len() && (b[i] == SPACE || b[i] == CR) {
        blank_end(b, i + 1)
    } else {
        i
    }
}

/// The end of the run of letters, underscores and digits that starts at `i`.
pub open spec fn word_end(b: Seq<u8>, i: int) -> int
    decreases b.len() - i,
{
    if 0 <= i < b.len() && (is_letter_byte(b[i]) || is_digit_byte(b[i])) {
        word_end(b, i + 1)
    } else {
        i
    }
}

/// The end of the run of digits that starts at `i`.
pub open spec fn digits_end(b: Seq<u8>, i: int) -> int
    decreases b.len() - i,
{
    if 0 <= i < b.len() && is_digit_byte(b[i]) {
        digits_end(b, i + 1)
    } else {
        i
    }
}

/// The first position at or after `i` that holds a double quote, or the end.
pub open spec fn quote_end(b: Seq<u8>, i: int) -> int
    decreases b.len() - i,
{
    if 0 <= i < b.len() && b[i] != QUOTE {
        quote_end(b, i + 1)
    } else {
        i
    }
}

/// The token a word stands for: a keyword, a boolean literal or an identifier.
pub open spec fn word_token(w: Seq<char>) -> TokenView {
    if w == "let"@ {
        TokenView::Let
    } else if w == "if"@ {
        TokenView::If
    } else if w == "else"@ {
        TokenView::Else
    } else if w == "true"@ || w == "false"@ {
        TokenView::Basics(w, Box::new(TokenView::Bool))
    } else if w == "string"@ {
        TokenView::String
    } else if w == "int"@ {
        TokenView::Int
    } else if w == "float"@ {
        TokenView::Float
    } else if w == "fun"@ {
        TokenView::Fun
    } else if w == "type"@ {
        TokenView::Type
    } else if w == "struct"@ {
        TokenView::Struct
    } else if w == "for"@ {
        TokenView::For
    } else if w == "continue"@ {
        TokenView::Continue
    } else if w == "break"@ {
        TokenView::Break
    } else if w == "return"@ {
        TokenView::Return
    } else {
        TokenView::Ident(w)
    }
}

pub open spec fn number_message() -> Seq<char> {
    "the number cannot contain other char"@
}

pub open spec fn block_end_message() -> Seq<char> {
    "notes block end not '*/' the is a '**/'"@
}

pub open spec fn block_message() -> Seq<char> {
    "notes block not '/*' the is a '/**'"@
}

pub open spec fn string_message() -> Seq<char> {
    "is not the expected string type"@
}

pub open spec fn text_message() -> Seq<char> {
    "the string is not valid UTF-8"@
}

/// A numeric literal starting with the digit at `j`: digits with at most one
/// embedded dot; a letter right after it is an error.
pub open spec fn scan_number(b: Seq<u8>, j: int) -> (TokenView, int) {
    let d = digits_end(b, j + 1);
    let (e, kind) = if byte_at(b, d) == DOT {
        (digits_end(b, d + 1), TokenView::Float)
    } else {
        (d, TokenView::Int)
    };
    if is_letter_byte(byte_at(b, e)) {
        (TokenView::Error(number_message()), e)
    } else {
        (TokenView::Basics(decode_utf8(b.subrange(j, e)), Box::new(kind)), e)
    }
}

/// A string literal whose opening quote is at `j`.
pub open spec fn scan_string(b: Seq<u8>, j: int) -> (TokenView, int) {
    if byte_at(b, j + 1) == QUOTE {
        (TokenView::Basics(Seq::empty(), Box::new(TokenView::String)), j + 2)
    } else {
        let q = quote_end(b, j + 1);
        if q >= b.len() {
            (TokenView::Error(string_message()), b.len() as int)
        } else if valid_utf8(b.subrange(j + 1, q)) {
            (TokenView::Basics(decode_utf8(b.subrange(j + 1, q)), Box::new(TokenView::String)), q + 1)
        } else {
            (TokenView::Error(text_message()), q + 1)
        }
    }
}

/// A token of one or two bytes, or a comment delimiter, starting at `j`.
pub open spec fn scan_symbol(b: Seq<u8>, j: int) -> (TokenView, int) {
    let c = b[j];
    let n = byte_at(b, j + 1);
    if c == COLON {
        (TokenView::Colon, j + 1)
    } else if c == LF {
        (TokenView::N, j + 1)
    } else if c == SEMICOLON {
        (TokenView::Sem, j + 1)
    } else if c == EQUALS {
        if n == EQUALS { (TokenView::Equ, j + 2) } else { (TokenView::Assign, j + 1) }
    } else if c == PLUS {
        if n == PLUS { (TokenView::SelfAdd, j + 2) } else { (TokenView::Add, j + 1) }
    } else if c == MINUS {
        if n == GREATER {
            (TokenView::Arrow, j + 2)
        } else if n == MINUS {
            (TokenView::SelfSub, j + 2)
        } else {
            (TokenView::Sub, j + 1)
        }
    } else if c == STAR {
        if n == STAR {
            if byte_at(b, j + 2) == SLASH {
                (TokenView::NotesBlockEnd, j + 3)
            } else {
                (TokenView::Error(block_end_message()), j + 2)
            }
        } else {
            (TokenView::Mul, j + 1)
        }
    } else if c == SLASH {
        if n == SLASH {
            (TokenView::Notes, j + 2)
        } else if n == STAR {
            if byte_at(b, j + 2) == STAR {
                (TokenView::NotesBlock, j + 3)
            } else {
                (TokenView::Error(block_message()), j + 2)
            }
        } else {
            (TokenView::Div, j + 1)
        }
    } else if c == LEFT_BRACE {
        (TokenView::LeftCurlyBracket, j + 1)
    } else if c == RIGHT_BRACE {
        (TokenView::RightCurlyBracket, j + 1)
    } else if c == LESS {
        if n == EQUALS { (TokenView::LTEqu, j + 2) } else { (TokenView::LT, j + 1) }
    } else if c == GREATER {
        if n == EQUALS { (TokenView::GTEqu, j + 2) } else { (TokenView::GT, j + 1) }
    } else if c == BANG {
        if n == EQUALS { (TokenView::BangEqu, j + 2) } else { (TokenView::Bang, j + 1) }
    } else if c == LEFT_PAREN {
        (TokenView::LeftBracket, j + 1)
    } else if c == RIGHT_PAREN {
        (TokenView::RightBracket, j + 1)
    } else if c == COMMA {
        (TokenView::Comma, j + 1)
    } else if c == LEFT_SQUARE {
        (TokenView::LeftSquareBra, j + 1)
    } else if c == RIGHT_SQUARE {
        (TokenView::RightSquareBra, j + 1)
    } else {
        (TokenView::Unknown, j + 1)
    }
}

/// The token that the lexer produces from position `i` of `b`, and the
/// position after it.
pub open spec fn scan(b: Seq<u8>, i: int) -> (TokenView, int) {
    let j = blank_end(b, i);
    if j >= b.len() {
        (TokenView::Eof, b.len() as int)
    } else if is_letter_byte(b[j]) {
        let e = word_end(b, j + 1);
        (word_token(decode_utf8(b.subrange(j, e))), e)
    } else if is_digit_byte(b[j]) {
        scan_number(b, j)
    } else if b[j] == QUOTE {
        scan_string(b, j)
    } else {
        scan_symbol(b, j)
    }
}

/// Bytes below 0x80 form valid UTF-8.
pub proof fn lemma_ascii_valid(s: Seq<u8>)
    requires
        forall|k: int| 0 <= k < s.len() ==> s[k] < 0x80,
    ensures
        valid_utf8(s),
    decreases s.len(),
{
    if s.len() > 0 {
        let b0 = s[0];
        assert((b0 & 0x7f) as u32 <= 0x7f) by (bit_vector);
        let rest = s.subrange(1, s.len() as int);
        assert(pop_first_scalar(s) == rest);
        lemma_ascii_valid(rest);
    }
}

/// Relies on `String::from_utf8`: it accepts exactly the valid UTF-8 byte
/// sequences, and the text it returns is what they encode.
#[verifier::external_body]
fn text_from_bytes(bytes: Vec<u8>) -> (r: Option<String>)
    ensures
        r is Some <==> valid_utf8(bytes@),
        r matches Some(s) ==> s@ == decode_utf8(bytes@),
{
    String::from_utf8(bytes).ok()
}

/// Whether two texts are the same, character by character.
pub fn same_text(a: &str, b: &str) -> (r: bool)
    ensures
        r == (a@ == b@),
{
    let n = a.unicode_len();
    if n != b.unicode_len() {
        return false;
    }
    let mut k: usize = 0;
    while k < n
        invariant
            n == a@.len(),
            n == b@.len(),
            k <= n,
            forall|i: int| 0 <= i < k ==> a@[i] == b@[i],
        decreases n - k,
    {
        if a.get_char(k) != b.get_char(k) {
            return false;
        }
        k = k + 1;
    }
    assert(a@ =~= b@);
    true
}

/// Turns the bytes of a source unit into tokens, one per call.
pub struct Lexer {
    f: PaserFile,
    index: usize,
    line: usize,
    line_index: usize,
}

impl Lexer {
    /// The bytes being read.
    pub closed spec fn source(&self) -> Seq<u8> {
        self.f.content()
    }

    /// How many bytes have been consumed.
    pub closed spec fn cursor(&self) -> int {
        self.index as int
    }

    /// The path of the source unit.
    pub closed spec fn path_text(&self) -> Seq<char> {
        self.f.path_text()
    }

    /// The cursor is within the source, and the line and column are those
    /// of the cursor.
    pub closed spec fn wf(&self) -> bool {
        &&& self.f.content() == self.f.body@
        &&& self.index <= self.f.body@.len() < usize::MAX
        &&& self.line == line_at(self.f.body@, self.index as int)
        &&& self.line_index == column_at(self.f.body@, self.index as int)
        &&& 1 <= self.line <= self.index + 1
        &&& self.line_index <= self.index
    }

    /// A lexer at the start of `file`.
    pub fn new(file: PaserFile) -> (r: Lexer)
        requires
            file.content().len() < usize::MAX,
        ensures
            r.wf(),
            r.source() == file.content(),
            r.path_text() == file.path_text(),
            r.cursor() == 0,
            r.cursor() <= r.source().len(),
    {
        Lexer { f: file, index: 0, line: 1, line_index: 0 }
    }

    /// Consumes one byte, keeping the line and column up to date.
    fn read(&mut self)
        requires
            old(self).wf(),
            old(self).cursor() < old(self).source().len(),
        ensures
            final(self).wf(),
            final(self).source() == old(self).source(),
            final(self).path_text() == old(self).path_text(),
            final(self).cursor() == old(self).cursor() + 1,
    {
        if self.f.body[self.index] == CR {
            self.line = self.line + 1;
            self.line_index = 0;
        } else {
            self.line_index = self.line_index + 1;
        }
        self.index = self.index + 1;
    }

    /// The byte under the cursor, or 0 at the end.
    fn peek(&self) -> (r: u8)
        requires
            self.wf(),
        ensures
            r == byte_at(self.source(), self.cursor()),
    {
        if self.index >= self.f.body.len() {
            return 0;
        }
        self.f.body[self.index]
    }

    /// Consumes the byte under the cursor when it is `symbol`.
    fn expect_peek(&mut self, symbol: u8) -> (r: bool)
        requires
            old(self).wf(),
            symbol != 0,
        ensures
            final(self).wf(),
            final(self).source() == old(self).source(),
            final(self).path_text() == old(self).path_text(),
            r == (byte_at(old(self).source(), old(self).cursor()) == symbol),
            final(self).cursor() == old(self).cursor() + if r { 1int } else { 0int },
    {
        if self.peek() == symbol {
            self.read();
            return true;
        }
        false
    }

    fn is_letter(val: u8) -> (r: bool)
        ensures
            r == is_letter_byte(val),
    {
        (val >= LOWER_A && val <= LOWER_Z) || (val >= UPPER_A && val <= UPPER_Z) || val == UNDERSCORE
    }

    fn is_num(val: u8) -> (r: bool)
        ensures
            r == is_digit_byte(val),
    {
        val >= DIGIT_0 && val <= DIGIT_9
    }

    /// The bytes from `start` up to the cursor.
    fn taken(&self, start: usize) -> (r: Vec<u8>)
        requires
            self.wf(),
            start <= self.cursor(),
        ensures
            r@ == self.source().subrange(start as int, self.cursor()),
    {
        let mut v: Vec<u8> = Vec::new();
        let mut k: usize = start;
        while k < self.index
            invariant
                self.wf(),
                start <= k <= self.index,
                v@ == self.source().subrange(start as int, k as int),
            decreases self.index - k,
        {
            v.push(self.f.body[k]);
            k = k + 1;
            assert(v@ =~= self.source().subrange(start as int, k as int));
        }
        v
    }

    /// Reads the rest of a word whose first letter is consumed (letters,
    /// underscores and digits), and returns its text.
    fn read_string(&mut self, start: usize) -> (r: String)
        requires
            old(self).wf(),
            start + 1 == old(self).cursor(),
            is_letter_byte(old(self).source()[start as int]),
        ensures
            final(self).cursor() >= old(self).cursor(),
            final(self).wf(),
            final(self).source() == old(self).source(),
            final(self).path_text() == old(self).path_text(),
            final(self).cursor() == word_end(old(self).source(), old(self).cursor()),
            r@ == decode_utf8(old(self).source().subrange(start as int, final(self).cursor())),
    {
        while Self::is_letter(self.peek()) || Self::is_num(self.peek())
            invariant
                self.wf(),
                self.source() == old(self).source(),
                self.path_text() == old(self).path_text(),
                start < self.cursor(),
                word_end(self.source(), self.cursor()) == word_end(
                    self.source(),
                    old(self).cursor(),
                ),
                forall|k: int|
                    start <= k < self.cursor() ==> is_letter_byte(self.source()[k]) || is_digit_byte(
                        self.source()[k],
                    ),
            decreases self.source().len() - self.cursor(),
        {
            self.read();
        }
        let bytes = self.taken(start);
        proof {
            assert forall|k: int| 0 <= k < bytes@.len() implies bytes@[k] < 0x80 by {
                assert(is_letter_byte(self.source()[start + k]) || is_digit_byte(
                    self.source()[start + k],
                ));
            }
            lemma_ascii_valid(bytes@);
        }
        match text_from_bytes(bytes) {
            Some(s) => s,
            None => String::new(),
        }
    }

    /// Reads a string literal's content after its opening quote, up to the
    /// closing quote, and consumes that quote.
    fn read_strings(&mut self) -> (r: Token)
        requires
            old(self).wf(),
            old(self).cursor() >= 1,
            old(self).source()[old(self).cursor() - 1] == QUOTE,
            byte_at(old(self).source(), old(self).cursor()) != QUOTE,
        ensures
            final(self).cursor() >= old(self).cursor(),
            final(self).wf(),
            final(self).source() == old(self).source(),
            final(self).path_text() == old(self).path_text(),
            (r@, final(self).cursor()) == scan_string(old(self).source(), old(self).cursor() - 1),
    {
        let start = self.index;
        let len = self.f.body.len();
        while self.index < len && self.f.body[self.index] != QUOTE
            invariant
                self.wf(),
                self.source() == old(self).source(),
                self.path_text() == old(self).path_text(),
                len == self.source().len(),
                start <= self.cursor(),
                quote_end(self.source(), self.cursor()) == quote_end(self.source(), start as int),
            decreases len - self.cursor(),
        {
            self.read();
        }
        if self.index >= len {
            return Token::Error("is not the expected string type".to_owned());
        }
        let bytes = self.taken(start);
        self.read();
        match text_from_bytes(bytes) {
            Some(s) => Token::literal(s, Token::String),
            None => Token::Error("the string is not valid UTF-8".to_owned()),
        }
    }

    /// Reads a numeric literal whose first digit is consumed.
    fn read_num(&mut self) -> (r: Token)
        requires
            old(self).wf(),
            old(self).cursor() >= 1,
            is_digit_byte(old(self).source()[old(self).cursor() - 1]),
        ensures
            final(self).cursor() >= old(self).cursor(),
            final(self).wf(),
            final(self).source() == old(self).source(),
            final(self).path_text() == old(self).path_text(),
            (r@, final(self).cursor()) == scan_number(old(self).source(), old(self).cursor() - 1),
    {
        let ghost b = self.source();
        let start = self.index - 1;
        let mut kind = Token::Int;
        while Self::is_num(self.peek())
            invariant
                self.wf(),
                self.source() == b,
                self.path_text() == old(self).path_text(),
                start < self.cursor(),
                digits_end(b, self.cursor()) == digits_end(b, start + 1),
                forall|k: int| start <= k < self.cursor() ==> is_digit_byte(b[k]),
            decreases b.len() - self.cursor(),
        {
            self.read();
        }
        if self.expect_peek(DOT) {
            kind = Token::Float;
            while Self::is_num(self.peek())
                invariant
                    self.wf(),
                    self.source() == b,
                    self.path_text() == old(self).path_text(),
                    start + 1 < self.cursor(),
                    byte_at(b, digits_end(b, start + 1)) == DOT,
                    digits_end(b, self.cursor()) == digits_end(b, digits_end(b, start + 1) + 1),
                    forall|k: int|
                        start <= k < self.cursor() ==> is_digit_byte(b[k]) || b[k] == DOT,
                decreases b.len() - self.cursor(),
            {
                self.read();
            }
        }
        if Self::is_letter(self.peek()) {
            return Token::Error("the number cannot contain other char".to_owned());
        }
        let bytes = self.taken(start);
        proof {
            assert forall|k: int| 0 <= k < bytes@.len() implies bytes@[k] < 0x80 by {
                assert(is_digit_byte(b[start + k]) || b[start + k] == DOT);
            }
            lemma_ascii_valid(bytes@);
        }
        match text_from_bytes(bytes) {
            Some(s) => Token::literal(s, kind),
            None => Token::Unknown,
        }
    }

    /// The next token, or `Eof` once the whole source is consumed.
    pub fn next(&mut self) -> (r: Token)
        requires
            old(self).wf(),
        ensures
            final(self).wf(),
            final(self).source() == old(self).source(),
            final(self).path_text() == old(self).path_text(),
            (r@, final(self).cursor()) == scan(old(self).source(), old(self).cursor()),
            final(self).cursor() <= final(self).source().len(),
            !(r@ is Array),
            r@ is Eof ==> final(self).cursor() == final(self).source().len(),
            !(r@ is Eof) ==> final(self).cursor() > old(self).cursor(),
            old(self).cursor() == old(self).source().len() ==> r@ is Eof && *final(self) == *old(self),
    {
        let ghost b = self.source();
        let len = self.f.body.len();
        if self.index >= len {
            return Token::Eof;
        }
        while self.index < len && (self.f.body[self.index] == SPACE || self.f.body[self.index] == CR)
            invariant
                self.wf(),
                self.source() == b,
                self.path_text() == old(self).path_text(),
                len == b.len(),
                old(self).cursor() <= self.cursor(),
                blank_end(b, self.cursor()) == blank_end(b, old(self).cursor()),
            decreases len - self.cursor(),
        {
            self.read();
        }
        if self.index >= len {
            return Token::Eof;
        }
        let j = self.index;
        let c = self.f.body[j];
        self.read();
        if Self::is_letter(c) {
            let word = self.read_string(j);
            return Self::as_token(word.as_str());
        }
        if Self::is_num(c) {
            return self.read_num();
        }
        if c == QUOTE {
            if self.expect_peek(QUOTE) {
                return Token::literal(String::new(), Token::String);
            }
            return self.read_strings();
        }
        if c == COLON {
            Token::Colon
        } else if c == LF {
            Token::N
        } else if c == SEMICOLON {
            Token::Sem
        } else if c == EQUALS {
            if self.expect_peek(EQUALS) { Token::Equ } else { Token::Assign }
        } else if c == PLUS {
            if self.expect_peek(PLUS) { Token::SelfAdd } else { Token::Add }
        } else if c == MINUS {
            if self.expect_peek(GREATER) {
                Token::Arrow
            } else if self.expect_peek(MINUS) {
                Token::SelfSub
            } else {
                Token::Sub
            }
        } else if c == STAR {
            if self.expect_peek(STAR) {
                if self.expect_peek(SLASH) {
                    Token::NotesBlockEnd
                } else {
                    Token::Error("notes block end not '*/' the is a '**/'".to_owned())
                }
            } else {
                Token::Mul
            }
        } else if c == SLASH {
            if self.expect_peek(SLASH) {
                Token::Notes
            } else if self.expect_peek(STAR) {
                if self.expect_peek(STAR) {
                    Token::NotesBlock
                } else {
                    Token::Error("notes block not '/*' the is a '/**'".to_owned())
                }
            } else {
                Token::Div
            }
        } else if c == LEFT_BRACE {
            Token::LeftCurlyBracket
        } else if c == RIGHT_BRACE {
            Token::RightCurlyBracket
        } else if c == LESS {
            if self.expect_peek(EQUALS) { Token::LTEqu } else { Token::LT }
        } else if c == GREATER {
            if self.expect_peek(EQUALS) { Token::GTEqu } else { Token::GT }
        } else if c == BANG {
            if self.expect_peek(EQUALS) { Token::BangEqu } else { Token::Bang }
        } else if c == LEFT_PAREN {
            Token::LeftBracket
        } else if c == RIGHT_PAREN {
            Token::RightBracket
        } else if c == COMMA {
            Token::Comma
        } else if c == LEFT_SQUARE {
            Token::LeftSquareBra
        } else if c == RIGHT_SQUARE {
            Token::RightSquareBra
        } else {
            Token::Unknown
        }
    }

    /// The 1-based line of the cursor.
    pub fn line(&self) -> (r: usize)
        requires
            self.wf(),
        ensures
            r == line_at(self.source(), self.cursor()),
    {
        self.line
    }

    /// The column of the cursor: bytes consumed since the line began.
    pub fn line_index(&self) -> (r: usize)
        requires
            self.wf(),
        ensures
            r == column_at(self.source(), self.cursor()),
    {
        self.line_index
    }

    pub fn file_path(&self) -> (r: &str)
        ensures
            r@ == self.path_text(),
    {
        self.f.file_path()
    }

    /// The token that a word stands for.
    fn as_token(ident: &str) -> (r: Token)
        ensures
            r@ == word_token(ident@),
    {
        if same_text(ident, "let") {
            Token::Let
        } else if same_text(ident, "if") {
            Token::If
        } else if same_text(ident, "else") {
            Token::Else
        } else if same_text(ident, "true") || same_text(ident, "false") {
            Token::literal(ident.to_owned(), Token::Bool)
        } else if same_text(ident, "string") {
            Token::String
        } else if same_text(ident, "int") {
            Token::Int
        } else if same_text(ident, "float") {
            Token::Float
        } else if same_text(ident, "fun") {
            Token::Fun
        } else if same_text(ident, "type") {
            Token::Type
        } else if same_text(ident, "struct") {
            Token::Struct
        } else if same_text(ident, "for") {
            Token::For
        } else if same_text(ident, "continue") {
            Token::Continue
        } else if same_text(ident, "break") {
            Token::Break
        } else if same_text(ident, "return") {
            Token::Return
        } else {
            Token::Ident(ident.to_owned())
        }
    }
}

} // verus!
