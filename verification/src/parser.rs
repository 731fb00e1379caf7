//! The token stream of the base value grammar, as far as the reference forms
//! read it.

use crate::u256::U256;
use vstd::prelude::*;

verus! {

/// The kind of a token.
#[derive(Clone, Copy, Debug, PartialEq, Eq, Hash, Structural)]
pub enum ValueToken {
    Ident,
    Number,
    LParen,
    RParen,
    Comma,
    AtSign,
    /// Any other token of the base grammar.
    Other,
}

/// One token: its kind, its text and, for a number, the number that the text
/// denotes.
#[derive(Clone, Debug, PartialEq, Eq)]
pub struct Token {
    pub kind: ValueToken,
    pub text: String,
    /// The value of a number token whose text is a well-formed literal of at
    /// most 256 bits; `None` for every other token.
    pub number: Option<U256>,
}

/// Why a token stream is not the form that was asked for.
#[derive(Clone, Debug, PartialEq, Eq)]
pub enum ParseError {
    /// The stream ended where a token was needed.
    UnexpectedEnd,
    /// A token of another kind stood where `expected` was needed.
    UnexpectedToken { found: ValueToken, expected: ValueToken },
    /// An identifier other than the keyword of the form; holds its text.
    UnexpectedIdent(String),
    /// A number token that denotes no 256-bit number; holds its text.
    InvalidU256(String),
    /// A number token that denotes no 64-bit number; holds its text.
    InvalidU64(String),
    /// The first number of an enumerated handle is above `u64::MAX`.
    ObjectIdTooLarge,
}

/// What taking a token of kind `expected` from the front of `tokens` gives.
pub open spec fn expect(tokens: Seq<Token>, expected: ValueToken) -> Result<Token, ParseError> {
    if tokens.len() == 0 {
        Err(ParseError::UnexpectedEnd)
    } else if tokens[0].kind != expected {
        Err(ParseError::UnexpectedToken { found: tokens[0].kind, expected })
    } else {
        Ok(tokens[0])
    }
}

/// A cursor over a token stream.
pub struct Parser<'a> {
    tokens: &'a Vec<Token>,
    position: usize,
}

impl<'a> Parser<'a> {
    #[verifier::type_invariant]
    spec fn in_bounds(&self) -> bool {
        self.position <= self.tokens@.len()
    }

    /// The tokens not yet taken.
    pub closed spec fn remaining(&self) -> Seq<Token> {
        self.tokens@.skip(self.position as int)
    }

    /// A cursor at the start of `tokens`.
    pub fn new(tokens: &'a Vec<Token>) -> (parser: Self)
        ensures
            parser.remaining() == tokens@,
    {
        assert(tokens@.skip(0) == tokens@);
        Parser { tokens, position: 0 }
    }

    /// The next token, which stays in the stream.
    pub fn peek(&self) -> (next: Option<&'a Token>)
        ensures
            self.remaining().len() == 0 ==> next is None,
            self.remaining().len() > 0 ==> next == Some(&self.remaining()[0]),
    {
        proof {
            use_type_invariant(self);
        }
        if self.position < self.tokens.len() {
            Some(&self.tokens[self.position])
        } else {
            None
        }
    }

    /// The kind of the next token, which stays in the stream.
    pub fn peek_tok(&self) -> (kind: Option<ValueToken>)
        ensures
            self.remaining().len() == 0 ==> kind is None,
            self.remaining().len() > 0 ==> kind == Some(self.remaining()[0].kind),
    {
        match self.peek() {
            Some(token) => Some(token.kind),
            None => None,
        }
    }

    /// Takes the next token, whatever its kind.
    pub fn advance_any(&mut self) -> (taken: Result<&'a Token, ParseError>)
        ensures
            old(self).remaining().len() == 0 ==> taken == Err::<&Token, ParseError>(
                ParseError::UnexpectedEnd,
            ) && final(self).remaining() == old(self).remaining(),
            old(self).remaining().len() > 0 ==> taken == Ok::<&Token, ParseError>(
                &old(self).remaining()[0],
            ) && final(self).remaining() == old(self).remaining().drop_first(),
    {
        proof {
            use_type_invariant(&*self);
        }
        if self.position < self.tokens.len() {
            let token = &self.tokens[self.position];
            assert(self.tokens@.skip(self.position as int).drop_first() == self.tokens@.skip(
                self.position + 1,
            ));
            self.position = self.position + 1;
            Ok(token)
        } else {
            Err(ParseError::UnexpectedEnd)
        }
    }

    /// Takes the next token, which has to be of kind `expected`. A token of
    /// another kind is taken too, and refused.
    pub fn advance(&mut self, expected: ValueToken) -> (taken: Result<&'a Token, ParseError>)
        ensures
            match expect(old(self).remaining(), expected) {
                Ok(token) => taken == Ok::<&Token, ParseError>(&token),
                Err(e) => taken == Err::<&Token, ParseError>(e),
            },
            final(self).remaining() == (if old(self).remaining().len() == 0 {
                old(self).remaining()
            } else {
                old(self).remaining().drop_first()
            }),
    {
        let token = self.advance_any()?;
        if token.kind != expected {
            return Err(ParseError::UnexpectedToken { found: token.kind, expected });
        }
        Ok(token)
    }
}

} // verus!
