use crate::lexer::{
    char_at, first_lexeme, in_class, is_run, lemma_run_unique, lex_tokens, run_len, scan,
    string_close, symbol, CharClass, Lexeme, TokenModel,
};
use vstd::prelude::*;

verus! {

proof fn lemma_run_from(s: Seq<char>, i: int, class: CharClass) -> (n: int)
    requires
        0 <= i <= s.len(),
        forall|k: int| 0 <= k < i ==> in_class(#[trigger] s[k], class),
    ensures
        is_run(s, n, class),
        n >= i,
    decreases s.len() - i,
{
    if i < s.len() && in_class(s[i], class) {
        lemma_run_from(s, i + 1, class)
    } else {
        i
    }
}

/// Every text has a longest prefix of a class, and `run_len` is its length.
pub proof fn lemma_run_len(s: Seq<char>, class: CharClass)
    ensures
        is_run(s, run_len(s, class), class),
{
    let n = lemma_run_from(s, 0, class);
}

/// Whether the first lexeme of the non-empty text `a` ends where it does when
/// `x` follows it (`None`: the end of the text). A run ends before a
/// character of another class, a comment before a line feed, a string
/// literal at its closing quote, and a one-character operator unless `x`
/// makes a longer operator or a comment of it.
pub open spec fn closes(a: Seq<char>, x: Option<char>) -> bool {
    let c = a[0];
    if in_class(c, CharClass::Space) {
        x is None || !in_class(x->0, CharClass::Space)
    } else if c == '/' && char_at(a, 1) == Some('/') {
        x is None || x == Some('\n')
    } else if in_class(c, CharClass::Digit) {
        x is None || !in_class(x->0, CharClass::Digit)
    } else if in_class(c, CharClass::Word) {
        x is None || !in_class(x->0, CharClass::Word)
    } else if c == '"' {
        true
    } else {
        first_lexeme(a).1 == 2 || (symbol(c, x) == symbol(c, char_at(a, 1)) && !(c == '/' && x
            == Some('/')))
    }
}

/// The first lexeme of `a` is one that the grammar knows, of length `n`.
pub open spec fn starts_with_lexeme(a: Seq<char>, n: int) -> bool {
    &&& a.len() > 0
    &&& first_lexeme(a).1 == n
    &&& 0 < n <= a.len()
    &&& !(first_lexeme(a).0 is Invalid)
}

proof fn lemma_string_close_bounds(s: Seq<char>, i: int)
    requires
        0 <= i,
        string_close(s, i) is Some,
    ensures
        i < string_close(s, i)->0 <= s.len(),
    decreases s.len() - i,
{
    if i < s.len() {
        if s[i] == '"' {
        } else if s[i] == '\\' {
            lemma_string_close_bounds(s, i + 2);
        } else {
            lemma_string_close_bounds(s, i + 1);
        }
    }
}

proof fn lemma_string_close_prefix(a: Seq<char>, b: Seq<char>, i: int, e: int)
    requires
        0 <= i,
        string_close(a, i) == Some(e),
        e <= b.len(),
        forall|k: int| 0 <= k < e ==> a[k] == b[k],
    ensures
        string_close(b, i) == Some(e),
    decreases a.len() - i,
{
    lemma_string_close_bounds(a, i);
    if a[i] == '"' {
    } else if a[i] == '\\' {
        lemma_string_close_bounds(a, i + 2);
        lemma_string_close_prefix(a, b, i + 2, e);
    } else {
        lemma_string_close_prefix(a, b, i + 1, e);
    }
}

/// The first lexeme of a text ends where it does for what follows it there.
pub proof fn lemma_closes_itself(a: Seq<char>)
    requires
        a.len() > 0,
    ensures
        closes(a, char_at(a, first_lexeme(a).1)),
{
    lemma_run_len(a, CharClass::Space);
    lemma_run_len(a, CharClass::CommentBody);
    lemma_run_len(a, CharClass::Digit);
    lemma_run_len(a, CharClass::Word);
}

/// A lexeme is decided by its own characters and the one that follows: a
/// text `b` that starts with the first lexeme of `a`, and goes on with a
/// character at which that lexeme ends, has the same first lexeme.
pub proof fn lemma_same_first_lexeme(a: Seq<char>, b: Seq<char>, n: int)
    requires
        starts_with_lexeme(a, n),
        n <= b.len(),
        forall|k: int| 0 <= k < n ==> a[k] == b[k],
        closes(a, char_at(b, n)),
    ensures
        first_lexeme(b) == first_lexeme(a),
{
    let c = a[0];
    assert(b[0] == c);
    lemma_run_len(a, CharClass::Space);
    lemma_run_len(a, CharClass::CommentBody);
    lemma_run_len(a, CharClass::Digit);
    lemma_run_len(a, CharClass::Word);
    if in_class(c, CharClass::Space) {
        assert(is_run(b, n, CharClass::Space));
        lemma_run_unique(b, n, CharClass::Space);
    } else if c == '/' && char_at(a, 1) == Some('/') {
        if n == 1 {
            assert(!in_class(a[1], CharClass::CommentBody));
        }
        assert(b[1] == a[1]);
        assert(is_run(b, n, CharClass::CommentBody));
        lemma_run_unique(b, n, CharClass::CommentBody);
    } else if in_class(c, CharClass::Digit) {
        assert(is_run(b, n, CharClass::Digit));
        lemma_run_unique(b, n, CharClass::Digit);
        assert(b.take(n) =~= a.take(n));
    } else if in_class(c, CharClass::Word) {
        assert(is_run(b, n, CharClass::Word));
        lemma_run_unique(b, n, CharClass::Word);
        assert(b.take(n) =~= a.take(n));
    } else if c == '"' {
        lemma_string_close_bounds(a, 1);
        lemma_string_close_prefix(a, b, 1, n);
        assert(b.subrange(1, n - 1) =~= a.subrange(1, n - 1));
    } else {
        if n == 2 {
            assert(b[1] == a[1]);
        }
    }
}

/// The outcome `r` of lexing a text, seen from `k` characters further left:
/// the same tokens, and a failure `k` places further on.
pub open spec fn shifted(r: Result<Seq<TokenModel>, nat>, k: int) -> Result<Seq<TokenModel>, nat> {
    match r {
        Ok(tokens) => Ok(tokens),
        Err(p) => Err((p + k) as nat),
    }
}

/// Every character of `w` is white space.
pub open spec fn all_space(w: Seq<char>) -> bool {
    forall|k: int| 0 <= k < w.len() ==> in_class(#[trigger] w[k], CharClass::Space)
}

/// The text `s` with `w` put in before index `p`.
pub open spec fn insert(s: Seq<char>, p: int, w: Seq<char>) -> Seq<char> {
    s.take(p) + w + s.skip(p)
}

/// Index `p` of `s` lies between two lexemes: lexing `s` from its start gets
/// to `p` without a failure, and no lexeme reaches across `p`.
pub open spec fn boundary(s: Seq<char>, p: int) -> bool
    decreases s.len(),
{
    p == 0 || (0 < p <= s.len() && {
        let n = first_lexeme(s).1;
        &&& starts_with_lexeme(s, n)
        &&& n <= p
        &&& boundary(s.skip(n), p - n)
    })
}

/// White space at the start of a text is skipped.
pub proof fn lemma_leading_space(u: Seq<char>, rest: Seq<char>)
    requires
        all_space(u),
    ensures
        scan(u + rest) == shifted(scan(rest), u.len() as int),
{
    let t = u + rest;
    if u.len() == 0 {
        assert(t =~= rest);
    } else {
        lemma_run_len(rest, CharClass::Space);
        let k = run_len(rest, CharClass::Space);
        let n = u.len() + k;
        assert forall|j: int| 0 <= j < n implies in_class(#[trigger] t[j], CharClass::Space) by {
            if j >= u.len() {
                assert(t[j] == rest[j - u.len()]);
            }
        }
        if n < t.len() {
            assert(t[n] == rest[k]);
        }
        assert(is_run(t, n, CharClass::Space));
        lemma_run_unique(t, n, CharClass::Space);
        assert(t[0] == u[0]);
        assert(first_lexeme(t) == (Lexeme::Trivia, n));
        assert(t.skip(n) =~= rest.skip(k));
        if k > 0 {
            assert(in_class(rest[0], CharClass::Space));
            assert(first_lexeme(rest) == (Lexeme::Trivia, k));
        } else {
            assert(rest.skip(0) =~= rest);
        }
    }
}

/// White space put in between two lexemes changes no token: the text lexes to
/// the same tokens, or fails as before, only further on by what was put in.
pub proof fn lemma_space_between_lexemes(s: Seq<char>, p: int, w: Seq<char>)
    requires
        boundary(s, p),
        all_space(w),
    ensures
        scan(insert(s, p, w)) == shifted(scan(s), w.len() as int),
        lex_tokens(insert(s, p, w)) == lex_tokens(s),
    decreases s.len(),
{
    let t = insert(s, p, w);
    if w.len() == 0 {
        assert(t =~= s);
    } else if p == 0 {
        assert(t =~= w + s);
        lemma_leading_space(w, s);
    } else {
        let n = first_lexeme(s).1;
        let rest = s.skip(p);
        lemma_closes_itself(s);
        lemma_run_len(s, CharClass::Space);
        lemma_run_len(s, CharClass::CommentBody);
        if n < p {
            assert(char_at(t, n) == char_at(s, n));
            lemma_same_first_lexeme(s, t, n);
            assert(t.skip(n) =~= insert(s.skip(n), p - n, w));
            lemma_space_between_lexemes(s.skip(n), p - n, w);
        } else if in_class(s[0], CharClass::Space) {
            let m = p + w.len();
            assert forall|j: int| 0 <= j < m implies in_class(
                #[trigger] t[j],
                CharClass::Space,
            ) by {
                if j >= p {
                    assert(t[j] == w[j - p]);
                } else {
                    assert(t[j] == s[j]);
                }
            }
            if m < t.len() {
                assert(t[m] == s[p]);
            }
            assert(is_run(t, m, CharClass::Space));
            lemma_run_unique(t, m, CharClass::Space);
            assert(t[0] == s[0]);
            assert(first_lexeme(t) == (Lexeme::Trivia, m));
            assert(t.skip(m) =~= rest);
        } else if s[0] == '/' && char_at(s, 1) == Some('/') {
            lemma_run_len(w, CharClass::CommentBody);
            let j = run_len(w, CharClass::CommentBody);
            let m = p + j;
            if p == 1 {
                assert(!in_class(s[1], CharClass::CommentBody));
            }
            assert forall|i: int| 0 <= i < m implies in_class(
                #[trigger] t[i],
                CharClass::CommentBody,
            ) by {
                if i >= p {
                    assert(t[i] == w[i - p]);
                } else {
                    assert(t[i] == s[i]);
                }
            }
            if m < t.len() {
                if j < w.len() {
                    assert(t[m] == w[j]);
                } else {
                    assert(t[m] == s[p]);
                }
            }
            assert(is_run(t, m, CharClass::CommentBody));
            lemma_run_unique(t, m, CharClass::CommentBody);
            assert(t[0] == s[0] && t[1] == s[1]);
            assert(first_lexeme(t) == (Lexeme::Trivia, m));
            assert(t.skip(m) =~= w.skip(j) + rest);
            assert(all_space(w.skip(j)));
            lemma_leading_space(w.skip(j), rest);
        } else {
            assert(char_at(t, p) == Some(w[0]));
            assert(in_class(w[0], CharClass::Space));
            lemma_same_first_lexeme(s, t, p);
            assert(t.skip(p) =~= w + rest);
            lemma_leading_space(w, rest);
        }
    }
}

/// `c` is a line comment without its end of line: `//` and what follows it on
/// the line.
pub open spec fn comment_text(c: Seq<char>) -> bool {
    &&& c.len() >= 2
    &&& c[0] == '/'
    &&& c[1] == '/'
    &&& forall|k: int| 0 <= k < c.len() ==> in_class(#[trigger] c[k], CharClass::CommentBody)
}

/// `c` is a whole line comment: `//`, the rest of the line, and the line feed
/// that ends it.
pub open spec fn comment_line(c: Seq<char>) -> bool {
    &&& c.len() >= 3
    &&& c.last() == '\n'
    &&& comment_text(c.drop_last())
}

/// The lexeme of `s` that ends at index `p` is the operator `/`.
pub open spec fn slash_before(s: Seq<char>, p: int) -> bool
    decreases s.len(),
{
    0 < p <= s.len() && {
        let n = first_lexeme(s).1;
        &&& starts_with_lexeme(s, n)
        &&& n <= p
        &&& if n == p {
            first_lexeme(s).0 == Lexeme::Emit(TokenModel::Slash)
        } else {
            slash_before(s.skip(n), p - n)
        }
    }
}

/// `c` may stand in front of `rest` as a comment of its own: it is a whole
/// line comment, or a comment without its end of line where no text follows.
pub open spec fn comment_before(c: Seq<char>, rest: Seq<char>) -> bool {
    comment_line(c) || (comment_text(c) && rest.len() == 0)
}

/// The number of characters of the comment `c` that lie on its line.
pub open spec fn comment_width(c: Seq<char>) -> int {
    if comment_line(c) {
        c.len() - 1
    } else {
        c.len() as int
    }
}

proof fn lemma_comment_tail(c: Seq<char>, rest: Seq<char>)
    requires
        comment_before(c, rest),
    ensures
        scan(c.skip(comment_width(c)) + rest) == shifted(
            scan(rest),
            c.len() - comment_width(c),
        ),
        forall|k: int|
            0 <= k < comment_width(c) ==> in_class(#[trigger] c[k], CharClass::CommentBody),
        comment_width(c) < c.len() ==> c[comment_width(c)] == '\n',
        comment_width(c) >= 2,
        c[0] == '/',
        c[1] == '/',
{
    let b = comment_width(c);
    if comment_line(c) {
        let line = c.drop_last();
        assert forall|k: int| 0 <= k < b implies in_class(
            #[trigger] c[k],
            CharClass::CommentBody,
        ) by {
            assert(c[k] == line[k]);
        }
        assert(c[0] == line[0] && c[1] == line[1]);
        assert(all_space(c.skip(b)));
        lemma_leading_space(c.skip(b), rest);
    } else {
        assert(c.skip(b) + rest =~= rest);
    }
}

/// A comment at the start of a text is skipped.
pub proof fn lemma_leading_comment(c: Seq<char>, rest: Seq<char>)
    requires
        comment_before(c, rest),
    ensures
        scan(c + rest) == shifted(scan(rest), c.len() as int),
{
    let t = c + rest;
    let b = comment_width(c);
    lemma_comment_tail(c, rest);
    assert forall|k: int| 0 <= k < b implies in_class(#[trigger] t[k], CharClass::CommentBody) by {
        assert(t[k] == c[k]);
    }
    if b < t.len() {
        assert(t[b] == c[b]);
    }
    assert(is_run(t, b, CharClass::CommentBody));
    lemma_run_unique(t, b, CharClass::CommentBody);
    assert(t[0] == c[0] && t[1] == c[1]);
    assert(first_lexeme(t) == (Lexeme::Trivia, b));
    assert(t.skip(b) =~= c.skip(b) + rest);
}

/// A line comment put in between two lexemes changes no token, unless it is
/// put directly behind the operator `/`, with which it would run together.
/// The text lexes to the same tokens, or fails as before, only further on by
/// what was put in. At the end of the text the comment needs no line feed.
pub proof fn lemma_comment_between_lexemes(s: Seq<char>, p: int, c: Seq<char>)
    requires
        boundary(s, p),
        !slash_before(s, p),
        comment_before(c, s.skip(p)),
    ensures
        scan(insert(s, p, c)) == shifted(scan(s), c.len() as int),
        lex_tokens(insert(s, p, c)) == lex_tokens(s),
    decreases s.len(),
{
    let t = insert(s, p, c);
    let rest = s.skip(p);
    if p == 0 {
        assert(t =~= c + s);
        assert(rest =~= s);
        lemma_leading_comment(c, s);
    } else {
        let n = first_lexeme(s).1;
        lemma_closes_itself(s);
        lemma_run_len(s, CharClass::CommentBody);
        lemma_comment_tail(c, rest);
        if n < p {
            assert(char_at(t, n) == char_at(s, n));
            lemma_same_first_lexeme(s, t, n);
            assert(t.skip(n) =~= insert(s.skip(n), p - n, c));
            assert(s.skip(n).skip(p - n) =~= rest);
            lemma_comment_between_lexemes(s.skip(n), p - n, c);
        } else if !in_class(s[0], CharClass::Space) && s[0] == '/' && char_at(s, 1) == Some('/') {
            let b = comment_width(c);
            let m = p + b;
            if p == 1 {
                assert(!in_class(s[1], CharClass::CommentBody));
            }
            assert forall|i: int| 0 <= i < m implies in_class(
                #[trigger] t[i],
                CharClass::CommentBody,
            ) by {
                if i >= p {
                    assert(t[i] == c[i - p]);
                } else {
                    assert(t[i] == s[i]);
                }
            }
            if m < t.len() {
                if b < c.len() {
                    assert(t[m] == c[b]);
                }
            }
            assert(is_run(t, m, CharClass::CommentBody));
            lemma_run_unique(t, m, CharClass::CommentBody);
            assert(t[0] == s[0] && t[1] == s[1]);
            assert(first_lexeme(t) == (Lexeme::Trivia, m));
            assert(t.skip(m) =~= c.skip(b) + rest);
        } else {
            assert(char_at(t, p) == Some(c[0]));
            lemma_same_first_lexeme(s, t, p);
            assert(t.skip(p) =~= c + rest);
            lemma_leading_comment(c, rest);
        }
    }
}

/// No token is a comment.
pub open spec fn comment_free(tokens: Seq<TokenModel>) -> bool {
    forall|i: int| 0 <= i < tokens.len() ==> tokens[i] != TokenModel::LineComment
}

/// Trivia is never handed on: whatever the text, no token that the lexer
/// emits for it is a comment.
pub proof fn lemma_no_comment_tokens(s: Seq<char>)
    ensures
        comment_free(lex_tokens(s)),
    decreases s.len(),
{
    if s.len() > 0 {
        let n = first_lexeme(s).1;
        if 0 < n <= s.len() {
            lemma_no_comment_tokens(s.skip(n));
            match first_lexeme(s).0 {
                Lexeme::Emit(t) => {
                    assert(t != TokenModel::LineComment);
                    match scan(s.skip(n)) {
                        Ok(rest) => {
                            let tokens = seq![t] + rest;
                            assert forall|i: int| 0 <= i < tokens.len() implies tokens[i]
                                != TokenModel::LineComment by {
                                if i > 0 {
                                    assert(tokens[i] == rest[i - 1]);
                                }
                            }
                        },
                        Err(_) => {},
                    }
                },
                _ => {},
            }
        }
    }
}

} // verus!
