//! The argument of the obfuscating macro: exactly one string, byte string or
//! C string literal, possibly wrapped in invisible groups.
use vstd::prelude::*;
use vstd::string::StringSliceAdditionalSpecFns;
use vstd::utf8::encode_utf8;

use crate::codec::unmask_all;
use crate::data::{Bytes, CText, Text};
use crate::encoder::{obfuscate_byte_str, obfuscate_cstr, obfuscate_str};
use crate::obfuscated::Obfuscated;

verus! {

/// The value of a literal token.
#[derive(Debug, Clone, PartialEq, Eq)]
pub enum Literal {
    /// A string literal, after its escapes are resolved.
    Str(String),
    /// A byte string literal.
    ByteStr(Vec<u8>),
    /// A C string literal, without its closing NUL.
    CStr(Vec<u8>),
    /// Any other literal: a number, a character, a byte.
    Other,
}

/// A token of the macro's input. Each carries the position under which the
/// caller keeps its source location, so that an error can point at it.
#[derive(Debug)]
pub enum Token {
    Literal(Literal, usize),
    /// A group with invisible delimiters, as a macro forwarding a fragment makes.
    Group(Vec<Token>, usize),
    /// Any other token: an identifier, a punctuation mark, a delimited group.
    Other(usize),
}

/// Why the input is not a single literal of a supported kind.
#[derive(Debug, Clone, Copy, PartialEq, Eq, Structural)]
pub enum ArgError {
    /// There is no token at all.
    MissingArgument,
    /// The token at this position is not a literal.
    NotALiteral(usize),
    /// The literal at this position is not a string, byte string or C string.
    UnsupportedLiteralKind(usize),
    /// A C string literal at this position holds a NUL.
    InteriorNul(usize),
    /// Tokens follow the literal, starting at this position.
    TrailingTokens(usize),
}

/// An obfuscated table, tagged with the kind of its literal.
pub enum Table {
    Text(Obfuscated<Text>),
    Bytes(Obfuscated<Bytes>),
    CText(Obfuscated<CText>),
}

/// The position a token carries.
pub open spec fn position(t: Token) -> usize {
    match t {
        Token::Literal(_, at) => at,
        Token::Group(_, at) => at,
        Token::Other(at) => at,
    }
}

/// The literal token that `tokens` consist of, looking through invisible
/// groups, or the first reason they do not.
pub open spec fn sole_literal(tokens: Seq<Token>) -> Result<Token, ArgError>
    decreases tokens,
{
    if tokens.len() == 0 {
        Err(ArgError::MissingArgument)
    } else {
        let first = match tokens[0] {
            Token::Literal(lit, at) => Ok(Token::Literal(lit, at)),
            Token::Group(inner, _) => sole_literal(inner@),
            Token::Other(at) => Err(ArgError::NotALiteral(at)),
        };
        match first {
            Err(e) => Err(e),
            Ok(t) => if tokens.len() > 1 {
                Err(ArgError::TrailingTokens(position(tokens[1])))
            } else {
                Ok(t)
            },
        }
    }
}

/// The literal that the first of `tokens` is or wraps, or why it is none.
pub open spec fn leading_literal(tokens: Seq<Token>) -> Result<Token, ArgError> {
    if tokens.len() == 0 {
        Err(ArgError::MissingArgument)
    } else {
        sole_literal(seq![tokens[0]])
    }
}

/// Reads the literal that `tokens` start with, looking through invisible groups.
pub fn expect_literal(tokens: &[Token]) -> (r: Result<&Token, ArgError>)
    ensures
        r is Ok <==> leading_literal(tokens@) is Ok,
        r matches Ok(t) ==> leading_literal(tokens@) == Ok::<Token, ArgError>(*t),
        r matches Err(e) ==> leading_literal(tokens@) == Err::<Token, ArgError>(e),
    decreases tokens@,
{
    if tokens.len() == 0 {
        return Err(ArgError::MissingArgument);
    }
    match &tokens[0] {
        Token::Literal(_, _) => Ok(&tokens[0]),
        Token::Group(inner, _) => {
            proof {
                reveal_with_fuel(sole_literal, 2);
                assert(leading_literal(tokens@) == sole_literal(inner@));
                if inner@.len() == 1 {
                    assert(inner@ =~= seq![inner@[0]]);
                }
            }
            let lit = expect_literal(inner.as_slice());
            match lit {
                Err(e) => Err(e),
                Ok(t) => {
                    match expect_empty(inner.as_slice(), 1) {
                        Err(e) => Err(e),
                        Ok(()) => Ok(t),
                    }
                },
            }
        },
        Token::Other(at) => Err(ArgError::NotALiteral(*at)),
    }
}

/// Checks that no token follows position `from`.
pub fn expect_empty(tokens: &[Token], from: usize) -> (r: Result<(), ArgError>)
    ensures
        r is Ok <==> tokens@.len() <= from,
        r matches Err(e) ==> e == ArgError::TrailingTokens(position(tokens@[from as int])),
{
    if from < tokens.len() {
        Err(ArgError::TrailingTokens(position_of(&tokens[from])))
    } else {
        Ok(())
    }
}

/// The position a token carries.
pub fn position_of(t: &Token) -> (r: usize)
    ensures
        r == position(*t),
{
    match t {
        Token::Literal(_, at) => *at,
        Token::Group(_, at) => *at,
        Token::Other(at) => *at,
    }
}

/// Whether `bytes` hold a NUL.
pub open spec fn holds_nul(bytes: Seq<u8>) -> bool {
    exists|i: int| 0 <= i < bytes.len() && bytes[i] == 0u8
}

/// The table each supported literal gives is the one its bytes call for:
/// the UTF-8 of a string, the bytes of a byte string, the bytes of a C string
/// and its closing NUL.
pub open spec fn obfuscates(tokens: Seq<Token>, r: Result<Table, ArgError>) -> bool {
    match sole_literal(tokens) {
        Err(e) => r == Err::<Table, ArgError>(e),
        Ok(Token::Literal(Literal::Str(s), _)) => r matches Ok(Table::Text(o)) && unmask_all(o@)
            == encode_utf8(s@),
        Ok(Token::Literal(Literal::ByteStr(b), _)) => r matches Ok(Table::Bytes(o)) && unmask_all(
            o@,
        ) == b@,
        Ok(Token::Literal(Literal::CStr(b), at)) => if holds_nul(b@) {
            r == Err::<Table, ArgError>(ArgError::InteriorNul(at))
        } else {
            r matches Ok(Table::CText(o)) && unmask_all(o@) == b@.push(0u8)
        },
        Ok(Token::Literal(Literal::Other, at)) => r == Err::<Table, ArgError>(
            ArgError::UnsupportedLiteralKind(at),
        ),
        Ok(_) => false,
    }
}

/// What `sole_literal` finds is always a literal token.
proof fn lemma_sole_literal_is_literal(tokens: Seq<Token>)
    ensures
        sole_literal(tokens) matches Ok(t) ==> t is Literal,
    decreases tokens,
{
    if tokens.len() > 0 {
        if let Token::Group(inner, _) = tokens[0] {
            assert(decreases_to!(tokens => tokens[0]));
            lemma_sole_literal_is_literal(inner@);
        }
    }
}

/// Whether `bytes` hold a NUL.
pub fn has_nul(bytes: &[u8]) -> (r: bool)
    ensures
        r == holds_nul(bytes@),
{
    let mut i: usize = 0;
    while i < bytes.len()
        invariant
            i <= bytes@.len(),
            forall|j: int| 0 <= j < i ==> bytes@[j] != 0u8,
        decreases bytes@.len() - i,
    {
        if bytes[i] == 0u8 {
            return true;
        }
        i = i + 1;
    }
    false
}

/// Obfuscates the one literal that `tokens` hold, by its kind.
pub fn obfuscate(tokens: &[Token]) -> (r: Result<Table, ArgError>)
    ensures
        obfuscates(tokens@, r),
{
    proof {
        lemma_sole_literal_is_literal(tokens@);
    }
    let tok = match expect_literal(tokens) {
        Err(e) => return Err(e),
        Ok(t) => t,
    };
    if let Err(e) = expect_empty(tokens, 1) {
        return Err(e);
    }
    proof {
        if tokens@.len() == 1 {
            assert(tokens@ =~= seq![tokens@[0]]);
        }
    }
    match tok {
        Token::Literal(Literal::Str(s), _) => Ok(Table::Text(obfuscate_str(s.as_str()))),
        Token::Literal(Literal::ByteStr(b), _) => Ok(Table::Bytes(obfuscate_byte_str(b.as_slice()))),
        Token::Literal(Literal::CStr(b), at) => {
            if has_nul(b.as_slice()) {
                Err(ArgError::InteriorNul(*at))
            } else {
                Ok(Table::CText(obfuscate_cstr(b.as_slice())))
            }
        },
        Token::Literal(Literal::Other, at) => Err(ArgError::UnsupportedLiteralKind(*at)),
        Token::Group(_, at) => Err(ArgError::NotALiteral(*at)),
        Token::Other(at) => Err(ArgError::NotALiteral(*at)),
    }
}

} // verus!
