//! Tokens: the leaves of the tree, with their text and the trivia around it.

use biome_rowan::{RawSyntaxKind, TextRange, TextSize, TokenText};
use vstd::prelude::*;
use vstd::utf8::*;

use crate::error::{SyntaxError, SyntaxResult};
use crate::kind::JsSyntaxKind;

verus! {

/// `biome_rowan::TokenText`: a piece of the text of a token that keeps the
/// token alive. Nothing is known of it but the characters it stands for.
#[verifier::external_type_specification]
#[verifier::external_body]
pub struct ExTokenText(TokenText);

/// The characters that a `TokenText` stands for: what `TokenText::text`
/// returns.
pub uninterp spec fn token_text_chars(text: TokenText) -> Seq<char>;

/// `TokenText::new_raw`: the text of a fresh token that holds `text` and no
/// trivia. The result stands for the whole of `text`.
#[verifier::external_body]
fn token_text_new_raw(kind: u16, text: &str) -> (r: TokenText)
    requires
        encode_utf8(text@).len() <= u32::MAX,
    ensures
        token_text_chars(r) == text@,
{
    TokenText::new_raw(RawSyntaxKind(kind), text)
}

/// `TokenText::slice`: the part of `text` between the byte offsets `start`
/// and `end`, both counted from where `text` begins. The bytes of the result
/// are those bytes of `text`.
#[verifier::external_body]
fn token_text_slice(text: TokenText, start: u32, end: u32) -> (r: TokenText)
    requires
        start <= end <= encode_utf8(token_text_chars(text)).len(),
        is_char_boundary(encode_utf8(token_text_chars(text)), start as int),
        is_char_boundary(encode_utf8(token_text_chars(text)), end as int),
    ensures
        encode_utf8(token_text_chars(r)) == encode_utf8(token_text_chars(text)).subrange(
            start as int,
            end as int,
        ),
{
    text.slice(TextRange::new(TextSize::from(start), TextSize::from(end)))
}

/// Whether an optional text stands for the characters that `expected`
/// names, or for none where it names none.
pub open spec fn matches_text(r: Option<TokenText>, expected: Option<Seq<char>>) -> bool {
    match r {
        Some(text) => expected == Some(token_text_chars(text)),
        None => expected is None,
    }
}

/// Whether the result of reading a text stands for the characters that
/// `expected` names, or is the error that it names.
pub open spec fn matches_text_result(
    r: SyntaxResult<TokenText>,
    expected: SyntaxResult<Seq<char>>,
) -> bool {
    match r {
        Ok(text) => expected == Ok::<Seq<char>, SyntaxError>(token_text_chars(text)),
        Err(error) => expected == Err::<Seq<char>, SyntaxError>(error),
    }
}

/// A quote character that can delimit a string literal.
pub open spec fn is_quote(c: char) -> bool {
    c == '"' || c == '\''
}

/// Whether `text` is a body between two quote characters of one sort.
pub open spec fn has_delimiters(text: Seq<char>) -> bool {
    &&& text.len() >= 2
    &&& is_quote(text[0])
    &&& text.last() == text[0]
}

/// What a token is made of.
pub ghost struct TokenData {
    pub kind: JsSyntaxKind,
    /// Whitespace and comments before the text.
    pub leading: Seq<char>,
    /// The text without trivia.
    pub text: Seq<char>,
    /// Whitespace and comments after the text.
    pub trailing: Seq<char>,
}

impl TokenData {
    /// The number of bytes of the whole token, trivia included.
    pub open spec fn byte_len(self) -> nat {
        encode_utf8(self.leading).len() + encode_utf8(self.text).len() + encode_utf8(
            self.trailing,
        ).len()
    }

    /// A token can exist if a `u32` can count its bytes and, where its kind
    /// is that of a string literal, its text has its delimiters.
    pub open spec fn wf(self) -> bool {
        &&& self.byte_len() <= u32::MAX
        &&& self.kind.is_string_literal() ==> has_delimiters(self.text)
    }

    /// The text of the token, trivia included.
    pub open spec fn full_text(self) -> Seq<char> {
        self.leading + self.text + self.trailing
    }

    /// The text without trivia and, for a string literal, without its
    /// delimiters. Escape sequences stay as they are written.
    pub open spec fn inner_string_text(self) -> Seq<char> {
        if self.kind.is_string_literal() {
            self.text.subrange(1, self.text.len() - 1)
        } else {
            self.text
        }
    }
}

/// A token of the tree.
#[derive(Debug, PartialEq, Eq)]
pub struct JsSyntaxToken {
    kind: JsSyntaxKind,
    leading: String,
    text: String,
    trailing: String,
}

impl View for JsSyntaxToken {
    type V = TokenData;

    closed spec fn view(&self) -> TokenData {
        TokenData {
            kind: self.kind,
            leading: self.leading@,
            text: self.text@,
            trailing: self.trailing@,
        }
    }
}

impl Clone for JsSyntaxToken {
    fn clone(&self) -> (r: Self)
        ensures
            r == *self,
    {
        proof {
            use_type_invariant(self);
        }
        JsSyntaxToken {
            kind: self.kind,
            leading: self.leading.clone(),
            text: self.text.clone(),
            trailing: self.trailing.clone(),
        }
    }
}

impl JsSyntaxToken {
    #[verifier::type_invariant]
    spec fn inv(self) -> bool {
        self@.wf()
    }

    /// Makes a token that belongs to no tree.
    ///
    /// There is no such token, and the result is `None`, where `kind` is
    /// that of a string literal and `text` lacks its delimiters, or where
    /// the token would be longer than a `u32` can count.
    pub fn new_detached(kind: JsSyntaxKind, leading: &str, text: &str, trailing: &str) -> (r:
        Option<JsSyntaxToken>)
        ensures
            match r {
                Some(token) => token@ == (TokenData {
                    kind,
                    leading: leading@,
                    text: text@,
                    trailing: trailing@,
                }) && token@.wf(),
                None => !(TokenData {
                    kind,
                    leading: leading@,
                    text: text@,
                    trailing: trailing@,
                }).wf(),
            },
    {
        let limit: usize = 0xffff_ffff;
        let a: usize = leading.as_bytes().len();
        let b: usize = text.as_bytes().len();
        let c: usize = trailing.as_bytes().len();
        if a > limit || b > limit - a || c > limit - a - b {
            return None;
        }
        if kind.is_string_literal() {
            let n: usize = text.unicode_len();
            if n < 2 {
                return None;
            }
            let first = text.get_char(0);
            let last = text.get_char(n - 1);
            if !(first == '"' || first == '\'') || last != first {
                return None;
            }
        }
        Some(
            JsSyntaxToken {
                kind,
                leading: leading.to_owned(),
                text: text.to_owned(),
                trailing: trailing.to_owned(),
            },
        )
    }

    /// The kind of the token.
    pub fn kind(&self) -> (r: JsSyntaxKind)
        ensures
            r == self@.kind,
            self@.wf(),
    {
        proof {
            use_type_invariant(self);
        }
        self.kind
    }

    /// The text of the token without the trivia around it.
    pub fn text_trimmed(&self) -> (r: &str)
        ensures
            r@ == self@.text,
    {
        self.text.as_str()
    }

    /// Whether the text of the token, without trivia, is `expected`.
    pub fn text_trimmed_is(&self, expected: &str) -> (r: bool)
        ensures
            r == (self@.text == expected@),
    {
        let expected = expected.to_owned();
        self.text == expected
    }

    /// The text of the token, trivia included.
    pub fn text(&self) -> (r: String)
        ensures
            r@ == self@.full_text(),
    {
        let r = self.leading.clone();
        let r = r.concat(self.text.as_str());
        r.concat(self.trailing.as_str())
    }

    /// The text of the token without trivia, as a `TokenText`.
    pub fn token_text_trimmed(&self) -> (r: TokenText)
        ensures
            token_text_chars(r) == self@.text,
    {
        proof {
            use_type_invariant(self);
        }
        token_text_new_raw(self.kind.to_raw(), self.text.as_str())
    }
}

/// The text of `token` without trivia and, where it is a string literal,
/// without the quote at each end. Nothing is unescaped.
pub fn inner_string_text(token: &JsSyntaxToken) -> (r: TokenText)
    ensures
        token_text_chars(r) == token@.inner_string_text(),
{
    let text = token.token_text_trimmed();
    if token.kind().is_string_literal() {
        let len: usize = token.text_trimmed().as_bytes().len();
        proof {
            lemma_strip_delimiters(token@.text);
        }
        let inner = token_text_slice(text, 1, (len - 1) as u32);
        proof {
            let body = token@.text.subrange(1, token@.text.len() - 1);
            encode_utf8_decode_utf8(token_text_chars(inner));
            encode_utf8_decode_utf8(body);
        }
        inner
    } else {
        text
    }
}

/// Encoding a text piece by piece gives the encoding of the whole.
pub proof fn lemma_encode_concat(a: Seq<char>, b: Seq<char>)
    ensures
        encode_utf8(a + b) =~= encode_utf8(a) + encode_utf8(b),
    decreases a.len(),
{
    if a.len() == 0 {
        assert(a + b =~= b);
    } else {
        assert((a + b).drop_first() =~= a.drop_first() + b);
        lemma_encode_concat(a.drop_first(), b);
    }
}

/// In the encoding of a text, the place where a prefix of the text ends is
/// a character boundary.
pub proof fn lemma_boundary_after_prefix(a: Seq<char>, b: Seq<char>)
    ensures
        is_char_boundary(encode_utf8(a + b), encode_utf8(a).len() as int),
        encode_utf8(a).len() <= encode_utf8(a + b).len(),
    decreases a.len(),
{
    let whole = a + b;
    let bytes = encode_utf8(whole);
    encode_utf8_valid_utf8(whole);
    lemma_encode_concat(a, b);
    if a.len() == 0 {
    } else {
        encode_utf8_first_scalar(whole);
        assert(whole.drop_first() =~= a.drop_first() + b);
        assert(pop_first_scalar(bytes) =~= encode_utf8(whole.drop_first()));
        lemma_boundary_after_prefix(a.drop_first(), b);
        encode_utf8_first_scalar(a);
        assert(encode_utf8(a).len() == encode_scalar(a[0] as u32).len() + encode_utf8(
            a.drop_first(),
        ).len());
    }
}

/// A quote is one byte long.
pub proof fn lemma_quote_is_one_byte(c: char)
    requires
        is_quote(c),
    ensures
        encode_utf8(seq![c]).len() == 1,
{
    reveal_with_fuel(encode_utf8, 2);
    assert(seq![c].drop_first() =~= Seq::<char>::empty());
}

/// In the encoding of a delimited text, the body lies between the first and
/// the last byte, and both places are character boundaries.
pub proof fn lemma_strip_delimiters(text: Seq<char>)
    requires
        has_delimiters(text),
    ensures
        encode_utf8(text).len() >= 2,
        is_char_boundary(encode_utf8(text), 1),
        is_char_boundary(encode_utf8(text), encode_utf8(text).len() - 1),
        encode_utf8(text).subrange(1, encode_utf8(text).len() - 1) == encode_utf8(
            text.subrange(1, text.len() - 1),
        ),
{
    let open = seq![text[0]];
    let body = text.subrange(1, text.len() - 1);
    let close = seq![text.last()];
    assert(text =~= open + body + close);
    assert(text =~= open + (body + close));
    lemma_quote_is_one_byte(text[0]);
    lemma_quote_is_one_byte(text.last());
    lemma_encode_concat(open, body + close);
    lemma_encode_concat(body, close);
    lemma_encode_concat(open, body);
    lemma_encode_concat(open + body, close);
    lemma_boundary_after_prefix(open, body + close);
    lemma_boundary_after_prefix(open + body, close);
    assert(encode_utf8(text) =~= encode_utf8(open) + encode_utf8(body) + encode_utf8(close));
    assert(encode_utf8(text).subrange(1, encode_utf8(text).len() - 1) =~= encode_utf8(body));
}

} // verus!
