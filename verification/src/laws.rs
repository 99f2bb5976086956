use crate::ast::{ExprModel, FunctionModel, ProgramModel};
use crate::lexer::{
    char_at, digits_value, first_lexeme, in_class, is_run, lemma_run_unique, scan, symbol,
    word_token, CharClass, Lexeme, TokenModel,
};
use crate::codegen::{codegen_outcome, first_codegen_error, CodegenErrorModel};
use crate::parser::{function_at, functions_from, literal_value, parse_tokens, ParseErrorModel};
use crate::trivia::{
    all_space, closes, lemma_leading_space, lemma_same_first_lexeme, starts_with_lexeme,
};
use vstd::prelude::*;

verus! {

/// `w` has the shape of an identifier: letters, digits and underscores, the
/// first of them no digit.
pub open spec fn is_word(w: Seq<char>) -> bool {
    &&& w.len() > 0
    &&& !in_class(w[0], CharClass::Digit)
    &&& forall|k: int| 0 <= k < w.len() ==> in_class(#[trigger] w[k], CharClass::Word)
}

/// `w` is one of the reserved words.
pub open spec fn is_keyword(w: Seq<char>) -> bool {
    w == "fn"@ || w == "return"@ || w == "if"@ || w == "else"@ || w == "while"@ || w == "for"@
}

/// `d` is a decimal literal: one digit or more.
pub open spec fn is_number(d: Seq<char>) -> bool {
    &&& d.len() > 0
    &&& forall|k: int| 0 <= k < d.len() ==> in_class(#[trigger] d[k], CharClass::Digit)
}

/// The outcome of a text that starts with the token `t`, over `n` characters,
/// and goes on with a text of outcome `rest`.
pub open spec fn then(t: TokenModel, n: int, rest: Result<Seq<TokenModel>, nat>) -> Result<
    Seq<TokenModel>,
    nat,
> {
    match rest {
        Ok(tokens) => Ok(seq![t] + tokens),
        Err(p) => Err((n + p) as nat),
    }
}

/// A lexeme that stands alone as the text `a` is lexed in the same way in
/// front of any text at whose first character it ends.
pub proof fn lemma_lexeme_then(a: Seq<char>, rest: Seq<char>, t: TokenModel)
    requires
        starts_with_lexeme(a, a.len() as int),
        first_lexeme(a).0 == Lexeme::Emit(t),
        closes(a, char_at(rest, 0)),
    ensures
        scan(a + rest) == then(t, a.len() as int, scan(rest)),
{
    let b = a + rest;
    assert(char_at(b, a.len() as int) == char_at(rest, 0)) by {
        if rest.len() > 0 {
            assert(b[a.len() as int] == rest[0]);
        }
    }
    lemma_same_first_lexeme(a, b, a.len() as int);
    assert(b.skip(a.len() as int) =~= rest);
}

/// A word that stands alone is one lexeme: the keyword that it spells, or else
/// an identifier.
pub proof fn lemma_word_alone(w: Seq<char>)
    requires
        is_word(w),
    ensures
        starts_with_lexeme(w, w.len() as int),
        first_lexeme(w).0 == Lexeme::Emit(word_token(w)),
{
    assert(in_class(w[0], CharClass::Word));
    assert(is_run(w, w.len() as int, CharClass::Word));
    lemma_run_unique(w, w.len() as int, CharClass::Word);
    assert(w.take(w.len() as int) =~= w);
}

/// A decimal literal that stands alone is one lexeme. It is a token where its
/// value fits in 64 bits.
pub proof fn lemma_number_alone(d: Seq<char>)
    requires
        is_number(d),
        digits_value(d) <= u64::MAX,
    ensures
        starts_with_lexeme(d, d.len() as int),
        first_lexeme(d).0 == Lexeme::Emit(TokenModel::Int(digits_value(d) as u64)),
{
    assert(in_class(d[0], CharClass::Digit));
    assert(is_run(d, d.len() as int, CharClass::Digit));
    lemma_run_unique(d, d.len() as int, CharClass::Digit);
    assert(d.take(d.len() as int) =~= d);
}

/// Keywords and identifiers are told apart by the whole word: a word lexes
/// to exactly one token, a keyword only where the word is that keyword, and
/// otherwise the identifier of the whole word, whatever keyword it starts
/// with.
pub proof fn lemma_word_is_one_token(w: Seq<char>)
    requires
        is_word(w),
    ensures
        scan(w) == Ok::<Seq<TokenModel>, nat>(seq![word_token(w)]),
        !is_keyword(w) ==> word_token(w) == TokenModel::Ident(w),
{
    lemma_word_alone(w);
    let rest = Seq::<char>::empty();
    lemma_lexeme_then(w, rest, word_token(w));
    assert(w + rest =~= w);
    assert(seq![word_token(w)] + Seq::<TokenModel>::empty() =~= seq![word_token(w)]);
}

/// A two-character operator wins over the operator that is its first
/// character: a text that starts with the two characters of `->`, `==`,
/// `!=`, `<=`, `>=`, `&&` or `||` starts with that one token.
pub proof fn lemma_longer_operator_wins(s: Seq<char>, t: TokenModel)
    requires
        s.len() >= 2,
        symbol(s[0], Some(s[1])) == Some((t, 2int)),
    ensures
        first_lexeme(s) == (Lexeme::Emit(t), 2int),
{
}

/// A word in front of a text that does not go on with a letter, a digit or an
/// underscore is one token.
pub proof fn lemma_word_then(w: Seq<char>, rest: Seq<char>)
    requires
        is_word(w),
        rest.len() == 0 || !in_class(rest[0], CharClass::Word),
    ensures
        scan(w + rest) == then(word_token(w), w.len() as int, scan(rest)),
{
    lemma_word_alone(w);
    assert(in_class(w[0], CharClass::Word));
    lemma_lexeme_then(w, rest, word_token(w));
}

/// A decimal literal that fits in 64 bits, in front of a text that does not
/// go on with a digit, is one token.
pub proof fn lemma_number_then(d: Seq<char>, rest: Seq<char>)
    requires
        is_number(d),
        digits_value(d) <= u64::MAX,
        rest.len() == 0 || !in_class(rest[0], CharClass::Digit),
    ensures
        scan(d + rest) == then(
            TokenModel::Int(digits_value(d) as u64),
            d.len() as int,
            scan(rest),
        ),
{
    lemma_number_alone(d);
    assert(in_class(d[0], CharClass::Digit));
    lemma_lexeme_then(d, rest, TokenModel::Int(digits_value(d) as u64));
}

/// A one-character operator or delimiter is one token in front of a text
/// whose first character makes no longer operator and no comment of it.
pub proof fn lemma_symbol_then(c: char, t: TokenModel, rest: Seq<char>)
    requires
        symbol(c, char_at(rest, 0)) == Some((t, 1int)),
        !(c == '/' && char_at(rest, 0) == Some('/')),
    ensures
        scan(seq![c] + rest) == then(t, 1, scan(rest)),
{
    let a = seq![c];
    assert(a[0] == c);
    assert(char_at(a, 1) is None);
    lemma_lexeme_then(a, rest, t);
}

/// A two-character operator is one token in front of any text.
pub proof fn lemma_pair_then(c: char, d: char, t: TokenModel, rest: Seq<char>)
    requires
        symbol(c, Some(d)) == Some((t, 2int)),
    ensures
        scan(seq![c, d] + rest) == then(t, 2, scan(rest)),
{
    let a = seq![c, d];
    assert(a[0] == c && a[1] == d);
    lemma_longer_operator_wins(a, t);
    lemma_lexeme_then(a, rest, t);
}

/// The source text of a function `name` that takes nothing and returns the
/// literal `digits` as a `u32`.
pub open spec fn single_return_source(name: Seq<char>, digits: Seq<char>) -> Seq<char> {
    "fn "@ + name + "() -> u32 { return "@ + digits + "; }"@
}

/// The tokens of a function `name` that takes nothing, declares the return
/// type `ty` and returns the literal `value`.
pub open spec fn typed_return_tokens(name: Seq<char>, ty: Seq<char>, value: u64) -> Seq<
    TokenModel,
> {
    seq![
        TokenModel::Fn,
        TokenModel::Ident(name),
        TokenModel::LParen,
        TokenModel::RParen,
        TokenModel::Arrow,
        TokenModel::Ident(ty),
        TokenModel::LBrace,
        TokenModel::Return,
        TokenModel::Int(value),
        TokenModel::Semicolon,
        TokenModel::RBrace,
    ]
}

/// The program that holds such a function and nothing else.
pub open spec fn typed_return_program(name: Seq<char>, ty: Seq<char>, value: i64) -> ProgramModel {
    ProgramModel {
        functions: seq![
            FunctionModel {
                name,
                return_type: ty,
                body: seq![ExprModel::Return(Box::new(ExprModel::Int(value)))],
            },
        ],
    }
}

/// The tokens of a function `name` that returns the literal `value` as a
/// `u32`.
pub open spec fn single_return_tokens(name: Seq<char>, value: u64) -> Seq<TokenModel> {
    typed_return_tokens(name, "u32"@, value)
}

/// The program that holds such a function and nothing else.
pub open spec fn single_return_program(name: Seq<char>, value: i64) -> ProgramModel {
    typed_return_program(name, "u32"@, value)
}

proof fn lemma_keyword_texts()
    ensures
        "fn"@ == seq!['f', 'n'],
        "return"@ == seq!['r', 'e', 't', 'u', 'r', 'n'],
        "if"@ == seq!['i', 'f'],
        "else"@ == seq!['e', 'l', 's', 'e'],
        "while"@ == seq!['w', 'h', 'i', 'l', 'e'],
        "for"@ == seq!['f', 'o', 'r'],
        "u32"@ == seq!['u', '3', '2'],
{
    reveal_strlit("fn");
    reveal_strlit("return");
    reveal_strlit("if");
    reveal_strlit("else");
    reveal_strlit("while");
    reveal_strlit("for");
    reveal_strlit("u32");
    assert("fn"@ =~= seq!['f', 'n']);
    assert("return"@ =~= seq!['r', 'e', 't', 'u', 'r', 'n']);
    assert("if"@ =~= seq!['i', 'f']);
    assert("else"@ =~= seq!['e', 'l', 's', 'e']);
    assert("while"@ =~= seq!['w', 'h', 'i', 'l', 'e']);
    assert("for"@ =~= seq!['f', 'o', 'r']);
    assert("u32"@ =~= seq!['u', '3', '2']);
}

/// The tokens of a function of one `return` statement spell that function,
/// whatever identifier stands for its return type.
pub proof fn lemma_typed_return_parses(name: Seq<char>, ty: Seq<char>, value: u64)
    ensures
        parse_tokens(typed_return_tokens(name, ty, value)) == Ok::<ProgramModel, ParseErrorModel>(
            typed_return_program(name, ty, literal_value(value)),
        ),
{
    let ts = typed_return_tokens(name, ty, value);
    let program = typed_return_program(name, ty, literal_value(value));
    let f = program.functions[0];
    assert(functions_from(ts, 11) == Ok::<Seq<FunctionModel>, ParseErrorModel>(Seq::empty()));
    assert(function_at(ts, 0) == Ok::<FunctionModel, ParseErrorModel>(f));
    assert(seq![f] + Seq::<FunctionModel>::empty() =~= seq![f]);
    assert(program.functions =~= seq![f]);
}

/// A return type is judged when code is generated, not when the program is
/// parsed: a function of one `return` statement parses whatever identifier
/// stands for its return type, and code generation accepts it where that
/// identifier is `u32` or `i32` and refuses it for its type otherwise.
pub proof fn lemma_type_is_judged_in_codegen(name: Seq<char>, ty: Seq<char>, value: u64)
    ensures
        parse_tokens(typed_return_tokens(name, ty, value)) is Ok,
        codegen_outcome(parse_tokens(typed_return_tokens(name, ty, value))->Ok_0) == (if ty
            == "u32"@ || ty == "i32"@ {
            None
        } else {
            Some(CodegenErrorModel::UnsupportedReturnType(ty))
        }),
{
    lemma_typed_return_parses(name, ty, value);
    let program = typed_return_program(name, ty, literal_value(value));
    assert(first_codegen_error(program.functions, 1) is None);
}

/// Lexing and then parsing the text `fn NAME() -> u32 { return K; }`, where
/// `NAME` is an identifier and `K` a decimal literal within 32 bits, gives
/// the program of exactly one function: its name `NAME`, its return type
/// `u32`, its body the one statement that returns the integer `K`.
pub proof fn lemma_single_return_function(name: Seq<char>, digits: Seq<char>)
    requires
        is_word(name),
        !is_keyword(name),
        is_number(digits),
        digits_value(digits) <= u32::MAX,
    ensures
        scan(single_return_source(name, digits)) == Ok::<Seq<TokenModel>, nat>(
            single_return_tokens(name, digits_value(digits) as u64),
        ),
        parse_tokens(single_return_tokens(name, digits_value(digits) as u64)) == Ok::<
            ProgramModel,
            ParseErrorModel,
        >(single_return_program(name, digits_value(digits) as i64)),
{
    let value = digits_value(digits) as u64;
    lemma_typed_return_parses(name, "u32"@, value);
    lemma_keyword_texts();
    reveal_strlit("fn ");
    reveal_strlit("() -> u32 { return ");
    reveal_strlit("; }");
    let sp = seq![' '];
    assert(all_space(sp));
    let kw_fn = seq!['f', 'n'];
    let kw_return = seq!['r', 'e', 't', 'u', 'r', 'n'];
    let ty = seq!['u', '3', '2'];
    let none = Seq::<char>::empty();
    let r17 = seq!['}'] + none;
    let r16 = sp + r17;
    let r15 = seq![';'] + r16;
    let r14 = digits + r15;
    let r13 = sp + r14;
    let r12 = kw_return + r13;
    let r11 = sp + r12;
    let r10 = seq!['{'] + r11;
    let r9 = sp + r10;
    let r8 = ty + r9;
    let r7 = sp + r8;
    let r6 = seq!['-', '>'] + r7;
    let r5 = sp + r6;
    let r4 = seq![')'] + r5;
    let r3 = seq!['('] + r4;
    let r2 = name + r3;
    let r1 = sp + r2;
    let r0 = kw_fn + r1;
    assert(single_return_source(name, digits) =~= r0);
    let e: Seq<TokenModel> = Seq::empty();
    let t17 = seq![TokenModel::RBrace] + e;
    let t15 = seq![TokenModel::Semicolon] + t17;
    let t14 = seq![TokenModel::Int(value)] + t15;
    let t12 = seq![TokenModel::Return] + t14;
    let t10 = seq![TokenModel::LBrace] + t12;
    let t8 = seq![TokenModel::Ident("u32"@)] + t10;
    let t6 = seq![TokenModel::Arrow] + t8;
    let t4 = seq![TokenModel::RParen] + t6;
    let t3 = seq![TokenModel::LParen] + t4;
    let t2 = seq![TokenModel::Ident(name)] + t3;
    let t0 = seq![TokenModel::Fn] + t2;
    assert(t0 =~= single_return_tokens(name, value));
    assert(scan(none) == Ok::<Seq<TokenModel>, nat>(e));
    lemma_symbol_then('}', TokenModel::RBrace, none);
    assert(scan(r17) == Ok::<Seq<TokenModel>, nat>(t17));
    lemma_leading_space(sp, r17);
    assert(r15[0] == ';' && r16[0] == ' ');
    lemma_symbol_then(';', TokenModel::Semicolon, r16);
    assert(scan(r15) == Ok::<Seq<TokenModel>, nat>(t15));
    lemma_number_then(digits, r15);
    assert(scan(r14) == Ok::<Seq<TokenModel>, nat>(t14));
    lemma_leading_space(sp, r14);
    assert(r13[0] == ' ');
    assert(is_word(kw_return));
    lemma_word_then(kw_return, r13);
    assert(word_token(kw_return) == TokenModel::Return);
    assert(scan(r12) == Ok::<Seq<TokenModel>, nat>(t12));
    lemma_leading_space(sp, r12);
    assert(r11[0] == ' ');
    lemma_symbol_then('{', TokenModel::LBrace, r11);
    assert(scan(r10) == Ok::<Seq<TokenModel>, nat>(t10));
    lemma_leading_space(sp, r10);
    assert(r9[0] == ' ');
    assert(is_word(ty));
    lemma_word_then(ty, r9);
    assert(word_token(ty) == TokenModel::Ident(ty));
    assert(scan(r8) == Ok::<Seq<TokenModel>, nat>(t8));
    lemma_leading_space(sp, r8);
    lemma_pair_then('-', '>', TokenModel::Arrow, r7);
    assert(scan(r6) == Ok::<Seq<TokenModel>, nat>(t6));
    lemma_leading_space(sp, r6);
    assert(r5[0] == ' ');
    lemma_symbol_then(')', TokenModel::RParen, r5);
    assert(scan(r4) == Ok::<Seq<TokenModel>, nat>(t4));
    assert(r4[0] == ')');
    lemma_symbol_then('(', TokenModel::LParen, r4);
    assert(scan(r3) == Ok::<Seq<TokenModel>, nat>(t3));
    assert(r3[0] == '(');
    lemma_word_then(name, r3);
    assert(scan(r2) == Ok::<Seq<TokenModel>, nat>(t2));
    lemma_leading_space(sp, r2);
    assert(r1[0] == ' ');
    assert(is_word(kw_fn));
    lemma_word_then(kw_fn, r1);
    assert(word_token(kw_fn) == TokenModel::Fn);
    assert(scan(r0) == Ok::<Seq<TokenModel>, nat>(t0));
}

} // verus!
