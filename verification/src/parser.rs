use crate::ast::{
    exprs_view, functions_view, Expr, ExprModel, Function, FunctionModel, Program, ProgramModel,
};
use crate::lexer::{token_debug, view_all, Token, TokenModel};
use vstd::prelude::*;

verus! {

/// What the parser was looking for when it gave up.
#[derive(Debug, Clone, PartialEq)]
pub enum Expected {
    /// This very token.
    Token(Token),
    /// Any identifier.
    Ident,
    /// The operand of a `return`: an integer literal or an identifier.
    Operand,
}

/// The first mismatch between the tokens and the grammar.
#[derive(Debug, Clone, PartialEq)]
pub struct ParseError {
    /// What the grammar asks for at this place.
    pub expected: Expected,
    /// The token that stands there; `None` at the end of the input.
    pub found: Option<Token>,
    /// The index of that token; the number of tokens at the end of the input.
    pub position: usize,
}

/// The mathematical value of an [`Expected`].
pub enum ExpectedModel {
    Token(TokenModel),
    Ident,
    Operand,
}

/// The mathematical value of a [`ParseError`].
pub struct ParseErrorModel {
    pub expected: ExpectedModel,
    pub found: Option<TokenModel>,
    pub position: int,
}

impl View for Expected {
    type V = ExpectedModel;

    open spec fn view(&self) -> ExpectedModel {
        match self {
            Expected::Token(t) => ExpectedModel::Token(t@),
            Expected::Ident => ExpectedModel::Ident,
            Expected::Operand => ExpectedModel::Operand,
        }
    }
}

impl View for ParseError {
    type V = ParseErrorModel;

    open spec fn view(&self) -> ParseErrorModel {
        ParseErrorModel {
            expected: self.expected@,
            found: match self.found {
                Some(t) => Some(t@),
                None => None,
            },
            position: self.position as int,
        }
    }
}

/// What a parse error says it was looking for.
pub open spec fn expected_text(e: ParseErrorModel) -> Seq<char> {
    match e.expected {
        ExpectedModel::Token(t) => token_debug(t),
        ExpectedModel::Ident => "Ident(_)"@,
        ExpectedModel::Operand => if e.found is Some {
            "Int(_) or Ident(_)"@
        } else {
            "expression"@
        },
    }
}

/// What a parse error says it found.
pub open spec fn found_text(e: ParseErrorModel) -> Seq<char> {
    match e.found {
        Some(t) => token_debug(t),
        None => "end of input"@,
    }
}

/// The text of a parse error: what was expected, and what was found.
pub open spec fn parse_error_text(e: ParseErrorModel) -> Seq<char> {
    "Expected "@ + expected_text(e) + ", found "@ + found_text(e)
}

impl ParseError {
    /// The text of this error: what was expected, and what was found in its
    /// place, a token or the end of the input.
    pub fn message(&self) -> (r: String)
        ensures
            r@ == parse_error_text(self@),
    {
        let expected = match &self.expected {
            Expected::Token(t) => t.debug_string(),
            Expected::Ident => String::from_str("Ident(_)"),
            Expected::Operand => if self.found.is_some() {
                String::from_str("Int(_) or Ident(_)")
            } else {
                String::from_str("expression")
            },
        };
        let found = match &self.found {
            Some(t) => t.debug_string(),
            None => String::from_str("end of input"),
        };
        String::from_str("Expected ").concat(expected.as_str()).concat(", found ").concat(
            found.as_str(),
        )
    }
}

/// The error of finding, at index `i` of `ts`, something else than `expected`.
pub open spec fn mismatch(ts: Seq<TokenModel>, i: int, expected: ExpectedModel) -> ParseErrorModel {
    ParseErrorModel {
        expected,
        found: if 0 <= i < ts.len() {
            Some(ts[i])
        } else {
            None
        },
        position: if i < ts.len() {
            i
        } else {
            ts.len() as int
        },
    }
}

/// Where the cursor stands once the token at `position` has been refused: just
/// behind it, or at the end of the `len` tokens.
pub open spec fn cursor_after(len: int, position: int) -> int {
    if position < len {
        position + 1
    } else {
        len
    }
}

/// Consuming the token `t` at index `i`: the index behind it.
pub open spec fn expect_at(ts: Seq<TokenModel>, i: int, t: TokenModel) -> Result<
    int,
    ParseErrorModel,
> {
    if 0 <= i < ts.len() && ts[i] == t {
        Ok(i + 1)
    } else {
        Err(mismatch(ts, i, ExpectedModel::Token(t)))
    }
}

/// Consuming an identifier at index `i`: its text.
pub open spec fn ident_at(ts: Seq<TokenModel>, i: int) -> Result<Seq<char>, ParseErrorModel> {
    if 0 <= i < ts.len() && ts[i] is Ident {
        Ok(ts[i]->Ident_0)
    } else {
        Err(mismatch(ts, i, ExpectedModel::Ident))
    }
}

/// The value that an integer literal has as an expression: the literal's 64
/// bits read as a signed number.
pub open spec fn literal_value(v: u64) -> i64 {
    if v <= i64::MAX {
        v as i64
    } else {
        (v - 0x1_0000_0000_0000_0000) as i64
    }
}

/// The operand of a `return` at index `i`.
pub open spec fn operand_at(ts: Seq<TokenModel>, i: int) -> Result<ExprModel, ParseErrorModel> {
    if 0 <= i < ts.len() && ts[i] is Int {
        Ok(ExprModel::Int(literal_value(ts[i]->Int_0)))
    } else if 0 <= i < ts.len() && ts[i] is Ident {
        Ok(ExprModel::Ident(ts[i]->Ident_0))
    } else {
        Err(mismatch(ts, i, ExpectedModel::Operand))
    }
}

/// A function body from index `i`: `return`, an operand, `;`. It takes three
/// tokens.
pub open spec fn body_at(ts: Seq<TokenModel>, i: int) -> Result<Seq<ExprModel>, ParseErrorModel> {
    match expect_at(ts, i, TokenModel::Return) {
        Err(e) => Err(e),
        Ok(_) => match operand_at(ts, i + 1) {
            Err(e) => Err(e),
            Ok(operand) => match expect_at(ts, i + 2, TokenModel::Semicolon) {
                Err(e) => Err(e),
                Ok(_) => Ok(seq![ExprModel::Return(Box::new(operand))]),
            },
        },
    }
}

/// The number of tokens that a function definition takes.
pub open spec fn function_len() -> int {
    11
}

/// A function definition from index `i`:
/// `fn` name `(` `)` `->` type `{` body `}`.
pub open spec fn function_at(ts: Seq<TokenModel>, i: int) -> Result<
    FunctionModel,
    ParseErrorModel,
> {
    match expect_at(ts, i, TokenModel::Fn) {
        Err(e) => Err(e),
        Ok(_) => match ident_at(ts, i + 1) {
            Err(e) => Err(e),
            Ok(name) => match expect_at(ts, i + 2, TokenModel::LParen) {
                Err(e) => Err(e),
                Ok(_) => match expect_at(ts, i + 3, TokenModel::RParen) {
                    Err(e) => Err(e),
                    Ok(_) => match expect_at(ts, i + 4, TokenModel::Arrow) {
                        Err(e) => Err(e),
                        Ok(_) => match ident_at(ts, i + 5) {
                            Err(e) => Err(e),
                            Ok(return_type) => match expect_at(ts, i + 6, TokenModel::LBrace) {
                                Err(e) => Err(e),
                                Ok(_) => match body_at(ts, i + 7) {
                                    Err(e) => Err(e),
                                    Ok(body) => match expect_at(ts, i + 10, TokenModel::RBrace) {
                                        Err(e) => Err(e),
                                        Ok(_) => Ok(FunctionModel { name, return_type, body }),
                                    },
                                },
                            },
                        },
                    },
                },
            },
        },
    }
}

/// The function definitions from index `i` to the end of the tokens, or the
/// first mismatch.
pub open spec fn functions_from(ts: Seq<TokenModel>, i: int) -> Result<
    Seq<FunctionModel>,
    ParseErrorModel,
>
    decreases ts.len() - i,
{
    if i < 0 || i >= ts.len() {
        Ok(Seq::empty())
    } else {
        match function_at(ts, i) {
            Err(e) => Err(e),
            Ok(f) => match functions_from(ts, i + function_len()) {
                Err(e) => Err(e),
                Ok(rest) => Ok(seq![f] + rest),
            },
        }
    }
}

/// The program that the tokens `ts` spell, or the first mismatch.
pub open spec fn parse_tokens(ts: Seq<TokenModel>) -> Result<ProgramModel, ParseErrorModel> {
    match functions_from(ts, 0) {
        Err(e) => Err(e),
        Ok(functions) => Ok(ProgramModel { functions }),
    }
}

/// A cursor over a sequence of tokens, with one token of lookahead.
pub struct Parser<'a> {
    tokens: &'a [Token],
    position: usize,
}

/// The value that the integer literal `v` has as an expression.
fn literal(v: u64) -> (r: i64)
    ensures
        r == literal_value(v),
{
    if v <= 0x7fff_ffff_ffff_ffff {
        v as i64
    } else {
        let low: u64 = v - 0x8000_0000_0000_0000;
        (low as i64) + i64::MIN
    }
}

impl<'a> Parser<'a> {
    /// The tokens that the parser reads.
    pub closed spec fn tokens(&self) -> Seq<Token> {
        self.tokens@
    }

    /// The index of the next token to read.
    pub closed spec fn position(&self) -> int {
        self.position as int
    }

    /// The cursor stands inside the tokens or just behind them.
    pub open spec fn wf(&self) -> bool {
        0 <= self.position() <= self.tokens().len()
    }

    /// A parser at the start of `tokens`.
    pub fn new(tokens: &'a [Token]) -> (p: Self)
        ensures
            p.tokens() == tokens@,
            p.position() == 0,
            p.wf(),
    {
        Self { tokens, position: 0 }
    }

    /// The token under the cursor, if any; the cursor stays.
    pub fn peek(&self) -> (r: Option<&'a Token>)
        requires
            self.wf(),
        ensures
            self.position() < self.tokens().len() ==> r == Some(&self.tokens()[self.position()]),
            self.position() >= self.tokens().len() ==> r is None,
    {
        if self.position < self.tokens.len() {
            Some(&self.tokens[self.position])
        } else {
            None
        }
    }

    /// The token under the cursor, if any; the cursor moves behind it.
    pub fn advance(&mut self) -> (r: Option<&'a Token>)
        requires
            old(self).wf(),
        ensures
            final(self).wf(),
            final(self).tokens() == old(self).tokens(),
            old(self).position() < old(self).tokens().len() ==> r == Some(
                &old(self).tokens()[old(self).position()],
            ) && final(self).position() == old(self).position() + 1,
            old(self).position() >= old(self).tokens().len() ==> r is None
                && final(self).position() == old(self).position(),
    {
        if self.position < self.tokens.len() {
            let idx = self.position;
            self.position = self.position + 1;
            Some(&self.tokens[idx])
        } else {
            None
        }
    }

    /// Consumes the token `expected`, or fails with what stands in its place.
    /// Either way the cursor moves behind the token that was read.
    pub fn expect(&mut self, expected: &Token) -> (r: Result<(), ParseError>)
        requires
            old(self).wf(),
        ensures
            final(self).wf(),
            final(self).tokens() == old(self).tokens(),
            match expect_at(view_all(old(self).tokens()), old(self).position(), expected@) {
                Ok(next) => r is Ok && final(self).position() == next,
                Err(e) => r is Err && r->Err_0@ == e && final(self).position() == cursor_after(
                    old(self).tokens().len() as int,
                    e.position,
                ),
            },
    {
        let at = self.position;
        match self.advance() {
            Some(t) => {
                if *t == *expected {
                    Ok(())
                } else {
                    Err(
                        ParseError {
                            expected: Expected::Token(expected.clone()),
                            found: Some(t.clone()),
                            position: at,
                        },
                    )
                }
            },
            None => Err(
                ParseError {
                    expected: Expected::Token(expected.clone()),
                    found: None,
                    position: at,
                },
            ),
        }
    }

    /// Consumes an identifier and returns its text, or fails with what stands
    /// in its place. Either way the cursor moves behind the token that was read.
    pub fn expect_ident_string(&mut self) -> (r: Result<String, ParseError>)
        requires
            old(self).wf(),
        ensures
            final(self).wf(),
            final(self).tokens() == old(self).tokens(),
            match ident_at(view_all(old(self).tokens()), old(self).position()) {
                Ok(name) => r is Ok && r->Ok_0@ == name
                    && final(self).position() == old(self).position() + 1,
                Err(e) => r is Err && r->Err_0@ == e && final(self).position() == cursor_after(
                    old(self).tokens().len() as int,
                    e.position,
                ),
            },
    {
        let at = self.position;
        match self.advance() {
            Some(Token::Ident(s)) => Ok(s.clone()),
            Some(t) => Err(
                ParseError { expected: Expected::Ident, found: Some(t.clone()), position: at },
            ),
            None => Err(ParseError { expected: Expected::Ident, found: None, position: at }),
        }
    }

    /// Parses a function body: one `return` statement. On success the cursor
    /// has moved over its three tokens; on failure it stands behind the token
    /// that was refused.
    pub fn parse_body_mvp(&mut self) -> (r: Result<Vec<Expr>, ParseError>)
        requires
            old(self).wf(),
        ensures
            final(self).wf(),
            final(self).tokens() == old(self).tokens(),
            match body_at(view_all(old(self).tokens()), old(self).position()) {
                Ok(body) => r is Ok && exprs_view(r->Ok_0@) == body && final(self).position()
                    == old(self).position() + 3,
                Err(e) => r is Err && r->Err_0@ == e && final(self).position() == cursor_after(
                    old(self).tokens().len() as int,
                    e.position,
                ),
            },
    {
        let mut body: Vec<Expr> = Vec::new();
        match self.expect(&Token::Return) {
            Err(e) => {
                return Err(e);
            },
            Ok(_) => {},
        }
        let at = self.position;
        let expr = match self.advance() {
            Some(Token::Int(v)) => Expr::Int(literal(*v)),
            Some(Token::Ident(s)) => Expr::Ident(s.clone()),
            Some(t) => {
                return Err(
                    ParseError {
                        expected: Expected::Operand,
                        found: Some(t.clone()),
                        position: at,
                    },
                );
            },
            None => {
                return Err(
                    ParseError { expected: Expected::Operand, found: None, position: at },
                );
            },
        };
        match self.expect(&Token::Semicolon) {
            Err(e) => {
                return Err(e);
            },
            Ok(_) => {},
        }
        let ghost operand = expr@;
        let statement = Expr::Return(Box::new(expr));
        assert(statement@ == ExprModel::Return(Box::new(operand)));
        body.push(statement);
        assert(exprs_view(body@) =~= seq![ExprModel::Return(Box::new(operand))]);
        Ok(body)
    }

    /// Parses one function definition. On success the cursor has moved over
    /// its eleven tokens; on failure it stands behind the token that was
    /// refused.
    pub fn parse_function(&mut self) -> (r: Result<Function, ParseError>)
        requires
            old(self).wf(),
        ensures
            final(self).wf(),
            final(self).tokens() == old(self).tokens(),
            match function_at(view_all(old(self).tokens()), old(self).position()) {
                Ok(f) => r is Ok && r->Ok_0@ == f
                    && final(self).position() == old(self).position() + function_len(),
                Err(e) => r is Err && r->Err_0@ == e && final(self).position() == cursor_after(
                    old(self).tokens().len() as int,
                    e.position,
                ),
            },
    {
        match self.expect(&Token::Fn) {
            Err(e) => {
                return Err(e);
            },
            Ok(_) => {},
        }
        let name = match self.expect_ident_string() {
            Err(e) => {
                return Err(e);
            },
            Ok(name) => name,
        };
        match self.expect(&Token::LParen) {
            Err(e) => {
                return Err(e);
            },
            Ok(_) => {},
        }
        match self.expect(&Token::RParen) {
            Err(e) => {
                return Err(e);
            },
            Ok(_) => {},
        }
        match self.expect(&Token::Arrow) {
            Err(e) => {
                return Err(e);
            },
            Ok(_) => {},
        }
        let return_type = match self.expect_ident_string() {
            Err(e) => {
                return Err(e);
            },
            Ok(return_type) => return_type,
        };
        match self.expect(&Token::LBrace) {
            Err(e) => {
                return Err(e);
            },
            Ok(_) => {},
        }
        let body = match self.parse_body_mvp() {
            Err(e) => {
                return Err(e);
            },
            Ok(body) => body,
        };
        match self.expect(&Token::RBrace) {
            Err(e) => {
                return Err(e);
            },
            Ok(_) => {},
        }
        Ok(Function { name, return_type, body })
    }

    /// Parses function definitions until the tokens end. The first mismatch
    /// ends parsing: no program comes back, only that one error.
    pub fn parse_program(&mut self) -> (r: Result<Program, ParseError>)
        requires
            old(self).wf(),
        ensures
            final(self).wf(),
            final(self).tokens() == old(self).tokens(),
            match functions_from(view_all(old(self).tokens()), old(self).position()) {
                Ok(functions) => r is Ok && r->Ok_0@ == (ProgramModel { functions })
                    && final(self).position() == old(self).tokens().len(),
                Err(e) => r is Err && r->Err_0@ == e && final(self).position() == cursor_after(
                    old(self).tokens().len() as int,
                    e.position,
                ),
            },
    {
        let ghost ts = view_all(self.tokens());
        let ghost start = self.position();
        let mut functions: Vec<Function> = Vec::new();
        assert(functions_view(functions@) + functions_from(ts, start)->Ok_0 =~= functions_from(
            ts,
            start,
        )->Ok_0);
        while self.peek().is_some()
            invariant
                self.wf(),
                self.tokens() == old(self).tokens(),
                ts == view_all(self.tokens()),
                start == old(self).position(),
                functions_from(ts, start) == match functions_from(ts, self.position()) {
                    Ok(rest) => Ok::<Seq<FunctionModel>, ParseErrorModel>(
                        functions_view(functions@) + rest,
                    ),
                    Err(e) => Err(e),
                },
            decreases self.tokens().len() - self.position(),
        {
            let ghost before = functions_view(functions@);
            let ghost at = self.position();
            match self.parse_function() {
                Err(e) => {
                    return Err(e);
                },
                Ok(f) => {
                    proof {
                        assert(functions_view(functions@.push(f)) =~= before + seq![f@]);
                        match functions_from(ts, at + function_len()) {
                            Ok(rest) => {
                                assert(before + (seq![f@] + rest) =~= (before + seq![f@]) + rest);
                            },
                            Err(e) => {},
                        }
                    }
                    functions.push(f);
                },
            }
        }
        proof {
            assert(functions_view(functions@) + Seq::<FunctionModel>::empty() =~= functions_view(
                functions@,
            ));
        }
        Ok(Program { functions })
    }
}

} // verus!
