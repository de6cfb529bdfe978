//! The filter expression language.
//!
//! An expression is a chain of terms joined by `AND` / `&&` or `OR` /
//! `||`, combined left to right. A term is `NOT term` (or `!term`), a
//! parenthesized expression, or a test on a field:
//!
//! - `field = value` (also `!=`, `>`, `>=`, `<`, `<=`);
//! - `field ~ text` (contains; also the word `contains`), `^` (starts
//!   with), `$` (ends with), `=~` (regular expression), where the text is
//!   a quoted string or a bare word;
//! - `field EXISTS`, `field EMPTY`, `field NULL`;
//! - `field IN (value, value, ...)`.
//!
//! A value is a quoted string (single or double quotes), a hexadecimal
//! number `0x...`, a decimal number (an integer, or a decimal fraction
//! kept as its text), `true` or `false` in any case, or a bare word that
//! starts with a letter or `_`, taken as a string. A word is a run of
//! letters, digits, `_`, `.`, `[`, `]` and `-`; a field is a word that
//! starts with a letter or `_`. Blanks between tokens are ignored.

use vstd::prelude::*;
use vstd::string::StrSliceExecFns;
use crate::error::GhidraError;
use crate::filter::{CompareOp, ExistenceCheck, LogicalOp, StringOp};
use crate::text::str_eq;

verus! {

// ============================================================================
// Expressions
// ============================================================================

/// A literal in a filter expression.
pub enum Value {
    String(String),
    /// A decimal fraction, by its text.
    Number(String),
    Integer(i64),
    Boolean(bool),
    Hex(u64),
}

/// A filter expression.
pub enum FilterExpr {
    Compare { field: String, op: CompareOp, value: Value },
    StringOp { field: String, op: StringOp, value: String },
    /// Two expressions combined by `op`.
    Logical { op: LogicalOp, left: Box<FilterExpr>, right: Box<FilterExpr> },
    Not(Box<FilterExpr>),
    Exists { field: String, check: ExistenceCheck },
    In { field: String, values: Vec<Value> },
}

impl Value {
    /// The text of a string literal.
    pub fn as_str(&self) -> (r: Option<&str>)
        ensures
            match self {
                Value::String(s) => r matches Some(t) && t@ == s@,
                _ => r is None,
            },
    {
        match self {
            Value::String(s) => Some(s.as_str()),
            _ => None,
        }
    }

    /// The value of a boolean literal.
    pub fn as_bool(&self) -> (r: Option<bool>)
        ensures
            match self {
                Value::Boolean(b) => r == Some(*b),
                _ => r is None,
            },
    {
        match self {
            Value::Boolean(b) => Some(*b),
            _ => None,
        }
    }
}

/// A parsed filter.
pub struct Filter {
    pub expr: FilterExpr,
}

/// A literal taken by its text.
pub enum ValueView {
    Text(Seq<char>),
    Number(Seq<char>),
    Integer(int),
    Boolean(bool),
    Hex(nat),
}

/// An expression taken by its text.
pub enum ExprView {
    Compare(Seq<char>, CompareOp, ValueView),
    StringOp(Seq<char>, StringOp, Seq<char>),
    Logical(LogicalOp, Box<ExprView>, Box<ExprView>),
    Not(Box<ExprView>),
    Exists(Seq<char>, ExistenceCheck),
    In(Seq<char>, Seq<ValueView>),
}

impl View for Value {
    type V = ValueView;

    open spec fn view(&self) -> ValueView {
        match self {
            Value::String(s) => ValueView::Text(s@),
            Value::Number(s) => ValueView::Number(s@),
            Value::Integer(i) => ValueView::Integer(*i as int),
            Value::Boolean(b) => ValueView::Boolean(*b),
            Value::Hex(h) => ValueView::Hex(*h as nat),
        }
    }
}

/// The views of a list of values.
pub open spec fn values_view(v: Seq<Value>) -> Seq<ValueView> {
    v.map_values(|x: Value| x@)
}

/// The view of an expression.
pub open spec fn expr_view(e: FilterExpr) -> ExprView
    decreases e,
{
    match e {
        FilterExpr::Compare { field, op, value } => ExprView::Compare(field@, op, value@),
        FilterExpr::StringOp { field, op, value } => ExprView::StringOp(field@, op, value@),
        FilterExpr::Logical { op, left, right } => ExprView::Logical(
            op,
            Box::new(expr_view(*left)),
            Box::new(expr_view(*right)),
        ),
        FilterExpr::Not(inner) => ExprView::Not(Box::new(expr_view(*inner))),
        FilterExpr::Exists { field, check } => ExprView::Exists(field@, check),
        FilterExpr::In { field, values } => ExprView::In(field@, values_view(values@)),
    }
}

impl View for FilterExpr {
    type V = ExprView;

    open spec fn view(&self) -> ExprView {
        expr_view(*self)
    }
}

// ============================================================================
// Tokens
// ============================================================================

/// A token of the expression language.
pub enum Token {
    LParen,
    RParen,
    Comma,
    And,
    Or,
    Not,
    Cmp(CompareOp),
    Str(StringOp),
    /// A quoted string's contents.
    Quoted(String),
    /// A run of word characters.
    Word(String),
}

/// A token taken by its text.
pub enum Tok {
    LParen,
    RParen,
    Comma,
    And,
    Or,
    Not,
    Cmp(CompareOp),
    Str(StringOp),
    Quoted(Seq<char>),
    Word(Seq<char>),
}

impl View for Token {
    type V = Tok;

    open spec fn view(&self) -> Tok {
        match self {
            Token::LParen => Tok::LParen,
            Token::RParen => Tok::RParen,
            Token::Comma => Tok::Comma,
            Token::And => Tok::And,
            Token::Or => Tok::Or,
            Token::Not => Tok::Not,
            Token::Cmp(o) => Tok::Cmp(*o),
            Token::Str(o) => Tok::Str(*o),
            Token::Quoted(s) => Tok::Quoted(s@),
            Token::Word(s) => Tok::Word(s@),
        }
    }
}

/// The views of a list of tokens.
pub open spec fn toks_view(v: Seq<Token>) -> Seq<Tok> {
    v.map_values(|t: Token| t@)
}

/// A blank between tokens.
pub open spec fn is_space(c: char) -> bool {
    c == ' ' || c == '\t' || c == '\n' || c == '\r'
}

/// An ASCII letter.
pub open spec fn is_letter(c: char) -> bool {
    (0x41 <= c as u32 <= 0x5a) || (0x61 <= c as u32 <= 0x7a)
}

/// An ASCII decimal digit.
pub open spec fn is_digit(c: char) -> bool {
    0x30 <= c as u32 <= 0x39
}

/// A character of a word: a letter, a digit, `_`, `.`, `[`, `]` or `-`.
pub open spec fn is_word_char(c: char) -> bool {
    is_letter(c) || is_digit(c) || c == '_' || c == '.' || c == '[' || c == ']' || c == '-'
}

/// A quote character.
pub open spec fn is_quote(c: char) -> bool {
    c == '"' || c == '\''
}

/// The end of the word starting at `i`.
pub open spec fn word_end(s: Seq<char>, i: int) -> int
    decreases s.len() - i,
{
    if 0 <= i < s.len() && is_word_char(s[i]) {
        word_end(s, i + 1)
    } else {
        i
    }
}

/// The first index at or after `i` holding `q` (`s.len()` when none).
pub open spec fn quote_end(s: Seq<char>, i: int, q: char) -> int
    decreases s.len() - i,
{
    if i >= s.len() {
        s.len() as int
    } else if s[i] == q {
        i
    } else {
        quote_end(s, i + 1, q)
    }
}

pub proof fn lemma_word_end(s: Seq<char>, i: int)
    requires
        0 <= i <= s.len(),
    ensures
        i <= word_end(s, i) <= s.len(),
        forall|k: int| i <= k < word_end(s, i) ==> is_word_char(#[trigger] s[k]),
        word_end(s, i) < s.len() ==> !is_word_char(s[word_end(s, i)]),
    decreases s.len() - i,
{
    if i < s.len() && is_word_char(s[i]) {
        lemma_word_end(s, i + 1);
    }
}

pub proof fn lemma_quote_end(s: Seq<char>, i: int, q: char)
    requires
        0 <= i <= s.len(),
    ensures
        i <= quote_end(s, i, q) <= s.len(),
        quote_end(s, i, q) < s.len() ==> s[quote_end(s, i, q)] == q,
    decreases s.len() - i,
{
    if i < s.len() && s[i] != q {
        lemma_quote_end(s, i + 1, q);
    }
}

/// `t` without quote characters at its start.
pub open spec fn strip_front(t: Seq<char>) -> Seq<char>
    decreases t.len(),
{
    if t.len() > 0 && is_quote(t[0]) {
        strip_front(t.drop_first())
    } else {
        t
    }
}

/// `t` without quote characters at its end.
pub open spec fn strip_back(t: Seq<char>) -> Seq<char>
    decreases t.len(),
{
    if t.len() > 0 && is_quote(t.last()) {
        strip_back(t.drop_last())
    } else {
        t
    }
}

/// The contents of a quoted string: the text between the quotes, with
/// quote characters stripped from both its ends.
pub open spec fn quoted_text(t: Seq<char>) -> Seq<char> {
    strip_back(strip_front(t))
}

/// `t` followed by the tokens of `rest`, when `rest` lexes.
pub open spec fn cons(t: Tok, rest: Option<Seq<Tok>>) -> Option<Seq<Tok>> {
    match rest {
        Some(r) => Some(seq![t] + r),
        None => None,
    }
}

/// The tokens of `s` from `i` on, or `None` when a character fits no
/// token (or a quote is not closed).
pub open spec fn lex_from(s: Seq<char>, i: int) -> Option<Seq<Tok>>
    decreases s.len() - i,
{
    if i < 0 || i >= s.len() {
        Some(Seq::empty())
    } else {
        let c = s[i];
        let two = i + 1 < s.len();
        if is_space(c) {
            lex_from(s, i + 1)
        } else if c == '(' {
            cons(Tok::LParen, lex_from(s, i + 1))
        } else if c == ')' {
            cons(Tok::RParen, lex_from(s, i + 1))
        } else if c == ',' {
            cons(Tok::Comma, lex_from(s, i + 1))
        } else if c == '&' {
            if two && s[i + 1] == '&' {
                cons(Tok::And, lex_from(s, i + 2))
            } else {
                None
            }
        } else if c == '|' {
            if two && s[i + 1] == '|' {
                cons(Tok::Or, lex_from(s, i + 2))
            } else {
                None
            }
        } else if c == '!' {
            if two && s[i + 1] == '=' {
                cons(Tok::Cmp(CompareOp::NotEqual), lex_from(s, i + 2))
            } else {
                cons(Tok::Not, lex_from(s, i + 1))
            }
        } else if c == '=' {
            if two && s[i + 1] == '~' {
                cons(Tok::Str(StringOp::Regex), lex_from(s, i + 2))
            } else {
                cons(Tok::Cmp(CompareOp::Equal), lex_from(s, i + 1))
            }
        } else if c == '>' {
            if two && s[i + 1] == '=' {
                cons(Tok::Cmp(CompareOp::GreaterEqual), lex_from(s, i + 2))
            } else {
                cons(Tok::Cmp(CompareOp::Greater), lex_from(s, i + 1))
            }
        } else if c == '<' {
            if two && s[i + 1] == '=' {
                cons(Tok::Cmp(CompareOp::LessEqual), lex_from(s, i + 2))
            } else {
                cons(Tok::Cmp(CompareOp::Less), lex_from(s, i + 1))
            }
        } else if c == '~' {
            cons(Tok::Str(StringOp::Contains), lex_from(s, i + 1))
        } else if c == '^' {
            cons(Tok::Str(StringOp::StartsWith), lex_from(s, i + 1))
        } else if c == '$' {
            cons(Tok::Str(StringOp::EndsWith), lex_from(s, i + 1))
        } else if is_quote(c) {
            let j = quote_end(s, i + 1, c);
            proof {
                lemma_quote_end(s, i + 1, c);
            }
            if j >= s.len() {
                None
            } else {
                cons(Tok::Quoted(quoted_text(s.subrange(i + 1, j))), lex_from(s, j + 1))
            }
        } else if is_word_char(c) {
            let j = word_end(s, i);
            proof {
                lemma_word_end(s, i);
            }
            cons(Tok::Word(s.subrange(i, j)), lex_from(s, j))
        } else {
            None
        }
    }
}

// ============================================================================
// Lexing
// ============================================================================

/// `p` followed by the tokens of `rest`, when `rest` lexes.
pub open spec fn prepend(p: Seq<Tok>, rest: Option<Seq<Tok>>) -> Option<Seq<Tok>> {
    match rest {
        Some(r) => Some(p + r),
        None => None,
    }
}

proof fn lemma_prepend_cons(p: Seq<Tok>, t: Tok, rest: Option<Seq<Tok>>)
    ensures
        prepend(p, cons(t, rest)) == prepend(p.push(t), rest),
{
    if let Some(r) = rest {
        assert(p + (seq![t] + r) =~= p.push(t) + r);
    }
}

/// The characters of `s`, one by one.
fn chars_of(s: &str) -> (r: Vec<char>)
    ensures
        r@ == s@,
{
    let n = s.unicode_len();
    let mut v: Vec<char> = Vec::new();
    let mut i: usize = 0;
    while i < n
        invariant
            n == s@.len(),
            i <= n,
            v@ == s@.subrange(0, i as int),
        decreases n - i,
    {
        let c = s.get_char(i);
        assert(s@.subrange(0, i + 1) =~= s@.subrange(0, i as int).push(c));
        v.push(c);
        i += 1;
    }
    assert(s@.subrange(0, n as int) =~= s@);
    v
}

fn space_char(c: char) -> (b: bool)
    ensures
        b == is_space(c),
{
    c == ' ' || c == '\t' || c == '\n' || c == '\r'
}

fn quote_char(c: char) -> (b: bool)
    ensures
        b == is_quote(c),
{
    c == '"' || c == '\''
}

fn digit_char(c: char) -> (b: bool)
    ensures
        b == is_digit(c),
{
    let x = c as u32;
    0x30 <= x && x <= 0x39
}

fn letter_char(c: char) -> (b: bool)
    ensures
        b == is_letter(c),
{
    let x = c as u32;
    (0x41 <= x && x <= 0x5a) || (0x61 <= x && x <= 0x7a)
}

fn word_char(c: char) -> (b: bool)
    ensures
        b == is_word_char(c),
{
    letter_char(c) || digit_char(c) || c == '_' || c == '.' || c == '[' || c == ']' || c == '-'
}

/// The contents of the quoted string whose quotes stand at `i` and `j`:
/// the text between them, without quote characters at its ends.
fn quoted_contents(s: &str, cs: &Vec<char>, i: usize, j: usize) -> (r: String)
    requires
        cs@ == s@,
        i < j < cs@.len(),
    ensures
        r@ == quoted_text(s@.subrange(i + 1, j as int)),
{
    let mut a = i + 1;
    while a < j && quote_char(cs[a])
        invariant
            cs@ == s@,
            i < j < cs@.len(),
            i + 1 <= a <= j,
            strip_front(s@.subrange(i + 1, j as int)) == strip_front(s@.subrange(a as int, j as int)),
        decreases j - a,
    {
        assert(s@.subrange(a as int, j as int).drop_first() =~= s@.subrange(a + 1, j as int));
        a += 1;
    }
    assert(strip_front(s@.subrange(a as int, j as int)) == s@.subrange(a as int, j as int));
    let mut b = j;
    while b > a && quote_char(cs[b - 1])
        invariant
            cs@ == s@,
            i < j < cs@.len(),
            a <= b <= j,
            strip_back(s@.subrange(a as int, j as int)) == strip_back(s@.subrange(a as int, b as int)),
        decreases b - a,
    {
        assert(s@.subrange(a as int, b as int).drop_last() =~= s@.subrange(a as int, b - 1));
        b -= 1;
    }
    assert(strip_back(s@.subrange(a as int, b as int)) == s@.subrange(a as int, b as int));
    String::from_str(s.substring_char(a, b))
}

/// The tokens of `s`, or `None` when it holds a character that fits no
/// token or a quote that is not closed.
pub fn lex(s: &str) -> (r: Option<Vec<Token>>)
    ensures
        match lex_from(s@, 0) {
            Some(t) => r matches Some(v) && toks_view(v@) == t,
            None => r is None,
        },
{
    let cs = chars_of(s);
    let n = cs.len();
    let mut out: Vec<Token> = Vec::new();
    let mut i: usize = 0;
    assert(toks_view(out@) =~= Seq::<Tok>::empty());
    assert(prepend(Seq::<Tok>::empty(), lex_from(s@, 0)) == lex_from(s@, 0)) by {
        if let Some(r) = lex_from(s@, 0) {
            assert(Seq::<Tok>::empty() + r =~= r);
        }
    }
    while i < n
        invariant
            n == cs@.len(),
            cs@ == s@,
            i <= n,
            lex_from(s@, 0) == prepend(toks_view(out@), lex_from(s@, i as int)),
        decreases n - i,
    {
        let c = cs[i];
        let two = i + 1 < n;
        if space_char(c) {
            i += 1;
        } else {
            let tok: Token;
            let next: usize;
            if c == '(' {
                tok = Token::LParen;
                next = i + 1;
            } else if c == ')' {
                tok = Token::RParen;
                next = i + 1;
            } else if c == ',' {
                tok = Token::Comma;
                next = i + 1;
            } else if c == '&' {
                if two && cs[i + 1] == '&' {
                    tok = Token::And;
                    next = i + 2;
                } else {
                    return None;
                }
            } else if c == '|' {
                if two && cs[i + 1] == '|' {
                    tok = Token::Or;
                    next = i + 2;
                } else {
                    return None;
                }
            } else if c == '!' {
                if two && cs[i + 1] == '=' {
                    tok = Token::Cmp(CompareOp::NotEqual);
                    next = i + 2;
                } else {
                    tok = Token::Not;
                    next = i + 1;
                }
            } else if c == '=' {
                if two && cs[i + 1] == '~' {
                    tok = Token::Str(StringOp::Regex);
                    next = i + 2;
                } else {
                    tok = Token::Cmp(CompareOp::Equal);
                    next = i + 1;
                }
            } else if c == '>' {
                if two && cs[i + 1] == '=' {
                    tok = Token::Cmp(CompareOp::GreaterEqual);
                    next = i + 2;
                } else {
                    tok = Token::Cmp(CompareOp::Greater);
                    next = i + 1;
                }
            } else if c == '<' {
                if two && cs[i + 1] == '=' {
                    tok = Token::Cmp(CompareOp::LessEqual);
                    next = i + 2;
                } else {
                    tok = Token::Cmp(CompareOp::Less);
                    next = i + 1;
                }
            } else if c == '~' {
                tok = Token::Str(StringOp::Contains);
                next = i + 1;
            } else if c == '^' {
                tok = Token::Str(StringOp::StartsWith);
                next = i + 1;
            } else if c == '$' {
                tok = Token::Str(StringOp::EndsWith);
                next = i + 1;
            } else if quote_char(c) {
                let mut j = i + 1;
                while j < n && cs[j] != c
                    invariant
                        n == cs@.len(),
                        cs@ == s@,
                        i < j <= n,
                        quote_end(s@, i + 1, c) == quote_end(s@, j as int, c),
                    decreases n - j,
                {
                    j += 1;
                }
                if j >= n {
                    return None;
                }
                tok = Token::Quoted(quoted_contents(s, &cs, i, j));
                next = j + 1;
            } else if word_char(c) {
                let mut j = i;
                while j < n && word_char(cs[j])
                    invariant
                        n == cs@.len(),
                        cs@ == s@,
                        i <= j <= n,
                        word_end(s@, i as int) == word_end(s@, j as int),
                    decreases n - j,
                {
                    j += 1;
                }
                tok = Token::Word(String::from_str(s.substring_char(i, j)));
                next = j;
            } else {
                return None;
            }
            assert(lex_from(s@, i as int) == cons(tok@, lex_from(s@, next as int)));
            proof {
                lemma_prepend_cons(toks_view(out@), tok@, lex_from(s@, next as int));
            }
            let ghost before = out@;
            out.push(tok);
            assert(toks_view(out@) =~= toks_view(before).push(tok@));
            i = next;
        }
    }
    assert(toks_view(out@) + Seq::<Tok>::empty() =~= toks_view(out@));
    Some(out)
}

// ============================================================================
// Literals
// ============================================================================

/// The value of a digit.
pub open spec fn digit_value(c: char) -> nat {
    (c as u32 - 0x30) as nat
}

/// A hexadecimal digit, in either case.
pub open spec fn is_hex_digit(c: char) -> bool {
    is_digit(c) || (0x41 <= c as u32 <= 0x46) || (0x61 <= c as u32 <= 0x66)
}

/// The value of a hexadecimal digit.
pub open spec fn hex_digit_value(c: char) -> nat {
    if is_digit(c) {
        digit_value(c)
    } else if 0x41 <= c as u32 <= 0x46 {
        (c as u32 - 0x41 + 10) as nat
    } else {
        (c as u32 - 0x61 + 10) as nat
    }
}

/// The number a run of decimal digits spells.
pub open spec fn decimal_value(d: Seq<char>) -> nat
    decreases d.len(),
{
    if d.len() == 0 {
        0
    } else {
        decimal_value(d.drop_last()) * 10 + digit_value(d.last())
    }
}

/// The number a run of hexadecimal digits spells.
pub open spec fn hex_value(d: Seq<char>) -> nat
    decreases d.len(),
{
    if d.len() == 0 {
        0
    } else {
        hex_value(d.drop_last()) * 16 + hex_digit_value(d.last())
    }
}

/// Every character of `d` is a decimal digit.
pub open spec fn all_digits(d: Seq<char>) -> bool {
    forall|k: int| 0 <= k < d.len() ==> is_digit(#[trigger] d[k])
}

/// Every character of `d` is a hexadecimal digit.
pub open spec fn all_hex(d: Seq<char>) -> bool {
    forall|k: int| 0 <= k < d.len() ==> is_hex_digit(#[trigger] d[k])
}

/// `w` equals the lowercase ASCII word `lower`, ignoring ASCII case.
pub open spec fn same_ignoring_case(w: Seq<char>, lower: Seq<char>) -> bool {
    w.len() == lower.len() && forall|k: int|
        0 <= k < w.len() ==> (w[k] == lower[k] || w[k] as u32 + 0x20 == #[trigger] lower[k] as u32)
}

/// A word that can name a field or stand for a string: it starts with a
/// letter or `_`.
pub open spec fn is_ident(w: Seq<char>) -> bool {
    w.len() > 0 && (is_letter(w[0]) || w[0] == '_')
}

/// The digits of a number's text, without its sign.
pub open spec fn unsigned_part(w: Seq<char>) -> Seq<char> {
    if w.len() > 0 && w[0] == '-' {
        w.drop_first()
    } else {
        w
    }
}

/// Where the first non-digit of `d` at or after `i` is.
pub open spec fn digits_end(d: Seq<char>, i: int) -> int
    decreases d.len() - i,
{
    if 0 <= i < d.len() && is_digit(d[i]) {
        digits_end(d, i + 1)
    } else {
        i
    }
}

/// A decimal integer's text: an optional `-` and digits.
pub open spec fn is_integer_text(w: Seq<char>) -> bool {
    let b = unsigned_part(w);
    b.len() > 0 && all_digits(b)
}

/// A decimal fraction's text: an optional `-`, digits, `.` and digits.
pub open spec fn is_fraction_text(w: Seq<char>) -> bool {
    let b = unsigned_part(w);
    let k = digits_end(b, 0);
    0 < k < b.len() - 1 && b[k] == '.' && digits_end(b, k + 1) == b.len()
}

/// The value a word stands for, or `None` when it is no literal (or an
/// integer out of `i64`, a hexadecimal number out of `u64`).
pub open spec fn word_value(w: Seq<char>) -> Option<ValueView> {
    if same_ignoring_case(w, "true"@) {
        Some(ValueView::Boolean(true))
    } else if same_ignoring_case(w, "false"@) {
        Some(ValueView::Boolean(false))
    } else if w.len() >= 2 && w[0] == '0' && w[1] == 'x' {
        let d = w.subrange(2, w.len() as int);
        if d.len() > 0 && all_hex(d) && hex_value(d) <= u64::MAX {
            Some(ValueView::Hex(hex_value(d)))
        } else {
            None
        }
    } else if is_integer_text(w) {
        let v: int = if w[0] == '-' {
            -(decimal_value(unsigned_part(w)) as int)
        } else {
            decimal_value(w) as int
        };
        if i64::MIN <= v <= i64::MAX {
            Some(ValueView::Integer(v))
        } else {
            None
        }
    } else if is_fraction_text(w) {
        Some(ValueView::Number(w))
    } else if is_ident(w) {
        Some(ValueView::Text(w))
    } else {
        None
    }
}

/// The value a token stands for.
pub open spec fn token_value(t: Tok) -> Option<ValueView> {
    match t {
        Tok::Quoted(q) => Some(ValueView::Text(q)),
        Tok::Word(w) => word_value(w),
        _ => None,
    }
}

/// The text a token gives a string operator.
pub open spec fn token_text(t: Tok) -> Option<Seq<char>> {
    match t {
        Tok::Quoted(q) => Some(q),
        Tok::Word(w) => if is_ident(w) {
            Some(w)
        } else {
            None
        },
        _ => None,
    }
}

proof fn lemma_decimal_prefix(d: Seq<char>, m: int)
    requires
        0 <= m <= d.len(),
    ensures
        decimal_value(d.subrange(0, m)) <= decimal_value(d),
    decreases d.len(),
{
    if m == d.len() {
        assert(d.subrange(0, m) =~= d);
    } else {
        assert(d.drop_last().subrange(0, m) =~= d.subrange(0, m));
        lemma_decimal_prefix(d.drop_last(), m);
    }
}

proof fn lemma_hex_prefix(d: Seq<char>, m: int)
    requires
        0 <= m <= d.len(),
    ensures
        hex_value(d.subrange(0, m)) <= hex_value(d),
    decreases d.len(),
{
    if m == d.len() {
        assert(d.subrange(0, m) =~= d);
    } else {
        assert(d.drop_last().subrange(0, m) =~= d.subrange(0, m));
        lemma_hex_prefix(d.drop_last(), m);
    }
}

/// `cs` from `start` on.
fn tail_from(cs: &Vec<char>, start: usize) -> (r: Vec<char>)
    requires
        start <= cs@.len(),
    ensures
        r@ == cs@.subrange(start as int, cs@.len() as int),
{
    let mut v: Vec<char> = Vec::new();
    let mut k = start;
    while k < cs.len()
        invariant
            start <= k <= cs@.len(),
            v@ == cs@.subrange(start as int, k as int),
        decreases cs.len() - k,
    {
        assert(cs@.subrange(start as int, k + 1) =~= cs@.subrange(start as int, k as int).push(cs@[k as int]));
        v.push(cs[k]);
        k += 1;
    }
    v
}

/// Whether `w` equals the lowercase word `lower`, ignoring ASCII case.
fn same_ignoring_case_of(w: &Vec<char>, lower: &str) -> (r: bool)
    ensures
        r == same_ignoring_case(w@, lower@),
{
    let n = lower.unicode_len();
    if w.len() != n {
        return false;
    }
    let mut k: usize = 0;
    while k < n
        invariant
            n == lower@.len(),
            n == w@.len(),
            k <= n,
            forall|m: int|
                0 <= m < k ==> (w@[m] == lower@[m] || w@[m] as u32 + 0x20 == #[trigger] lower@[m] as u32),
        decreases n - k,
    {
        let a = w[k];
        let b = lower.get_char(k);
        if !(a == b || a as u32 as u64 + 0x20 == b as u32 as u64) {
            return false;
        }
        k += 1;
    }
    true
}

/// Whether every character of `d` is a decimal digit.
fn all_digits_of(d: &Vec<char>) -> (r: bool)
    ensures
        r == all_digits(d@),
{
    let mut k: usize = 0;
    while k < d.len()
        invariant
            k <= d@.len(),
            forall|m: int| 0 <= m < k ==> is_digit(#[trigger] d@[m]),
        decreases d.len() - k,
    {
        if !digit_char(d[k]) {
            return false;
        }
        k += 1;
    }
    true
}

/// Where the first non-digit of `d` at or after `i` is.
fn digits_end_of(d: &Vec<char>, i: usize) -> (r: usize)
    requires
        i <= d@.len(),
    ensures
        r == digits_end(d@, i as int),
        i <= r <= d@.len(),
{
    let mut j = i;
    while j < d.len() && digit_char(d[j])
        invariant
            i <= j <= d@.len(),
            digits_end(d@, i as int) == digits_end(d@, j as int),
        decreases d.len() - j,
    {
        j += 1;
    }
    j
}

/// The number the decimal digits `d` spell, or `None` when it exceeds
/// `u64`.
fn decimal_of(d: &Vec<char>) -> (r: Option<u64>)
    requires
        all_digits(d@),
    ensures
        match r {
            Some(v) => v == decimal_value(d@),
            None => decimal_value(d@) > u64::MAX,
        },
{
    let mut v: u64 = 0;
    let mut k: usize = 0;
    assert(d@.subrange(0, 0) =~= Seq::<char>::empty());
    while k < d.len()
        invariant
            k <= d@.len(),
            all_digits(d@),
            v == decimal_value(d@.subrange(0, k as int)),
        decreases d.len() - k,
    {
        let c = d[k];
        assert(is_digit(d@[k as int]));
        assert(d@.subrange(0, k + 1).drop_last() =~= d@.subrange(0, k as int));
        let dv: u64 = (c as u32 - 0x30) as u64;
        assert(decimal_value(d@.subrange(0, k + 1)) == v * 10 + dv);
        match v.checked_mul(10) {
            Some(m) => match m.checked_add(dv) {
                Some(x) => {
                    v = x;
                },
                None => {
                    proof {
                        lemma_decimal_prefix(d@, k + 1);
                    }
                    return None;
                },
            },
            None => {
                proof {
                    lemma_decimal_prefix(d@, k + 1);
                }
                return None;
            },
        }
        k += 1;
    }
    assert(d@.subrange(0, d@.len() as int) =~= d@);
    Some(v)
}

/// The value of a hexadecimal digit, or `None` for another character.
fn hex_digit_of(c: char) -> (r: Option<u64>)
    ensures
        match r {
            Some(v) => is_hex_digit(c) && v == hex_digit_value(c),
            None => !is_hex_digit(c),
        },
{
    let x = c as u32;
    if 0x30 <= x && x <= 0x39 {
        Some((x - 0x30) as u64)
    } else if 0x41 <= x && x <= 0x46 {
        Some((x - 0x41 + 10) as u64)
    } else if 0x61 <= x && x <= 0x66 {
        Some((x - 0x61 + 10) as u64)
    } else {
        None
    }
}

/// The number the hexadecimal digits `d` spell, or `None` when `d`
/// holds another character or the number exceeds `u64`.
fn hex_of(d: &Vec<char>) -> (r: Option<u64>)
    ensures
        match r {
            Some(v) => all_hex(d@) && v == hex_value(d@),
            None => !all_hex(d@) || hex_value(d@) > u64::MAX,
        },
{
    let mut v: u64 = 0;
    let mut k: usize = 0;
    assert(d@.subrange(0, 0) =~= Seq::<char>::empty());
    while k < d.len()
        invariant
            k <= d@.len(),
            forall|m: int| 0 <= m < k ==> is_hex_digit(#[trigger] d@[m]),
            v == hex_value(d@.subrange(0, k as int)),
        decreases d.len() - k,
    {
        let dv = match hex_digit_of(d[k]) {
            Some(x) => x,
            None => {
                return None;
            },
        };
        assert(d@.subrange(0, k + 1).drop_last() =~= d@.subrange(0, k as int));
        assert(hex_value(d@.subrange(0, k + 1)) == v * 16 + dv);
        match v.checked_mul(16) {
            Some(m) => match m.checked_add(dv) {
                Some(x) => {
                    v = x;
                },
                None => {
                    proof {
                        lemma_hex_prefix(d@, k + 1);
                    }
                    return None;
                },
            },
            None => {
                proof {
                    lemma_hex_prefix(d@, k + 1);
                }
                return None;
            },
        }
        k += 1;
    }
    assert(d@.subrange(0, d@.len() as int) =~= d@);
    Some(v)
}

/// Whether `w` can name a field or stand for a string.
fn is_ident_word(w: &String) -> (r: bool)
    ensures
        r == is_ident(w@),
{
    let cs = chars_of(w.as_str());
    cs.len() > 0 && (letter_char(cs[0]) || cs[0] == '_')
}

/// The value a word stands for.
fn word_value_of(w: &String) -> (r: Option<Value>)
    ensures
        match word_value(w@) {
            Some(v) => r matches Some(x) && x@ == v,
            None => r is None,
        },
{
    let cs = chars_of(w.as_str());
    if same_ignoring_case_of(&cs, "true") {
        return Some(Value::Boolean(true));
    }
    if same_ignoring_case_of(&cs, "false") {
        return Some(Value::Boolean(false));
    }
    if cs.len() >= 2 && cs[0] == '0' && cs[1] == 'x' {
        let d = tail_from(&cs, 2);
        if d.len() == 0 {
            return None;
        }
        return match hex_of(&d) {
            Some(v) => Some(Value::Hex(v)),
            None => None,
        };
    }
    let neg = cs.len() > 0 && cs[0] == '-';
    let b = if neg {
        tail_from(&cs, 1)
    } else {
        tail_from(&cs, 0)
    };
    assert(b@ == unsigned_part(w@)) by {
        if !neg {
            assert(cs@.subrange(0, cs@.len() as int) =~= cs@);
        }
    }
    if b.len() > 0 && all_digits_of(&b) {
        return match decimal_of(&b) {
            None => None,
            Some(v) => if neg {
                if v < 0x8000_0000_0000_0000u64 {
                    Some(Value::Integer(0i64 - v as i64))
                } else if v == 0x8000_0000_0000_0000u64 {
                    Some(Value::Integer(i64::MIN))
                } else {
                    None
                }
            } else if v <= 0x7fff_ffff_ffff_ffffu64 {
                Some(Value::Integer(v as i64))
            } else {
                None
            },
        };
    }
    let k = digits_end_of(&b, 0);
    if 0 < k && k < b.len() && k + 1 < b.len() && b[k] == '.' && digits_end_of(&b, k + 1) == b.len() {
        return Some(Value::Number(w.clone()));
    }
    if cs.len() > 0 && (letter_char(cs[0]) || cs[0] == '_') {
        return Some(Value::String(w.clone()));
    }
    None
}

/// The value a token stands for.
fn token_value_of(t: &Token) -> (r: Option<Value>)
    ensures
        match token_value(t@) {
            Some(v) => r matches Some(x) && x@ == v,
            None => r is None,
        },
{
    match t {
        Token::Quoted(q) => Some(Value::String(q.clone())),
        Token::Word(w) => word_value_of(w),
        _ => None,
    }
}

/// The text a token gives a string operator.
fn token_text_of(t: &Token) -> (r: Option<String>)
    ensures
        match token_text(t@) {
            Some(x) => r matches Some(y) && y@ == x,
            None => r is None,
        },
{
    match t {
        Token::Quoted(q) => Some(q.clone()),
        Token::Word(w) => if is_ident_word(w) {
            Some(w.clone())
        } else {
            None
        },
        _ => None,
    }
}

// ============================================================================
// Grammar
// ============================================================================

/// The logical operator a token stands for.
pub open spec fn logical_op(t: Tok) -> Option<LogicalOp> {
    match t {
        Tok::And => Some(LogicalOp::And),
        Tok::Or => Some(LogicalOp::Or),
        Tok::Word(w) => if w == "AND"@ {
            Some(LogicalOp::And)
        } else if w == "OR"@ {
            Some(LogicalOp::Or)
        } else {
            None
        },
        _ => None,
    }
}

/// A negation token: `!` or `NOT`.
pub open spec fn is_not(t: Tok) -> bool {
    match t {
        Tok::Not => true,
        Tok::Word(w) => w == "NOT"@,
        _ => false,
    }
}

/// An expression at `pos`: a term, then any further terms with their
/// operators.
pub open spec fn p_expr(t: Seq<Tok>, pos: int) -> Option<(ExprView, int)>
    decreases t.len() - pos, 2nat,
{
    match p_term(t, pos) {
        None => None,
        Some((e, p)) => if pos < p <= t.len() {
            p_rest(t, p, e)
        } else {
            None
        },
    }
}

/// The operator-term pairs after `acc`, combined with it left to right.
pub open spec fn p_rest(t: Seq<Tok>, pos: int, acc: ExprView) -> Option<(ExprView, int)>
    decreases t.len() - pos, 1nat,
{
    if 0 <= pos < t.len() && logical_op(t[pos]) is Some {
        match p_term(t, pos + 1) {
            None => None,
            Some((e, p)) => if pos < p <= t.len() {
                p_rest(t, p, ExprView::Logical(logical_op(t[pos])->0, Box::new(acc), Box::new(e)))
            } else {
                None
            },
        }
    } else {
        Some((acc, pos))
    }
}

/// A term at `pos`: a negation, a parenthesized expression, or a test.
pub open spec fn p_term(t: Seq<Tok>, pos: int) -> Option<(ExprView, int)>
    decreases t.len() - pos, 0nat,
{
    if pos < 0 || pos >= t.len() {
        None
    } else if is_not(t[pos]) {
        match p_term(t, pos + 1) {
            None => None,
            Some((e, p)) => Some((ExprView::Not(Box::new(e)), p)),
        }
    } else if t[pos] is LParen {
        match p_expr(t, pos + 1) {
            None => None,
            Some((e, p)) => if 0 <= p < t.len() && t[p] is RParen {
                Some((e, p + 1))
            } else {
                None
            },
        }
    } else {
        p_test(t, pos)
    }
}

/// The values of an `IN` list from `pos`, after `acc`, up to its `)`.
pub open spec fn p_values(t: Seq<Tok>, pos: int, acc: Seq<ValueView>) -> Option<(Seq<ValueView>, int)>
    decreases t.len() - pos,
{
    if pos < 0 || pos + 1 >= t.len() {
        None
    } else {
        match token_value(t[pos]) {
            None => None,
            Some(v) => if t[pos + 1] is RParen {
                Some((acc.push(v), pos + 2))
            } else if t[pos + 1] is Comma {
                p_values(t, pos + 2, acc.push(v))
            } else {
                None
            },
        }
    }
}

/// A test on a field at `pos`.
pub open spec fn p_test(t: Seq<Tok>, pos: int) -> Option<(ExprView, int)> {
    if pos < 0 || pos + 1 >= t.len() {
        None
    } else {
        match t[pos] {
            Tok::Word(f) => if !is_ident(f) {
                None
            } else {
                match t[pos + 1] {
                    Tok::Word(k) => if k == "EXISTS"@ {
                        Some((ExprView::Exists(f, ExistenceCheck::Exists), pos + 2))
                    } else if k == "EMPTY"@ {
                        Some((ExprView::Exists(f, ExistenceCheck::Empty), pos + 2))
                    } else if k == "NULL"@ {
                        Some((ExprView::Exists(f, ExistenceCheck::Null), pos + 2))
                    } else if k == "IN"@ {
                        if pos + 2 < t.len() && t[pos + 2] is LParen {
                            match p_values(t, pos + 3, Seq::empty()) {
                                None => None,
                                Some((vs, p)) => Some((ExprView::In(f, vs), p)),
                            }
                        } else {
                            None
                        }
                    } else if k == "contains"@ {
                        p_string_test(t, pos, f, StringOp::Contains)
                    } else {
                        None
                    },
                    Tok::Str(op) => p_string_test(t, pos, f, op),
                    Tok::Cmp(op) => if pos + 2 < t.len() {
                        match token_value(t[pos + 2]) {
                            None => None,
                            Some(v) => Some((ExprView::Compare(f, op, v), pos + 3)),
                        }
                    } else {
                        None
                    },
                    _ => None,
                }
            },
            _ => None,
        }
    }
}

/// A string test on `f` whose operator is at `pos + 1`.
pub open spec fn p_string_test(t: Seq<Tok>, pos: int, f: Seq<char>, op: StringOp) -> Option<(ExprView, int)> {
    if 0 <= pos && pos + 2 < t.len() {
        match token_text(t[pos + 2]) {
            None => None,
            Some(x) => Some((ExprView::StringOp(f, op, x), pos + 3)),
        }
    } else {
        None
    }
}

/// The expression `s` spells, or `None` when it spells none.
pub open spec fn spec_filter(s: Seq<char>) -> Option<ExprView> {
    match lex_from(s, 0) {
        None => None,
        Some(t) => match p_expr(t, 0) {
            Some((e, p)) => if p == t.len() {
                Some(e)
            } else {
                None
            },
            None => None,
        },
    }
}

// ============================================================================
// Parsing
// ============================================================================

fn logical_op_of(t: &Token) -> (r: Option<LogicalOp>)
    ensures
        r == logical_op(t@),
{
    match t {
        Token::And => Some(LogicalOp::And),
        Token::Or => Some(LogicalOp::Or),
        Token::Word(w) => if str_eq(w.as_str(), "AND") {
            Some(LogicalOp::And)
        } else if str_eq(w.as_str(), "OR") {
            Some(LogicalOp::Or)
        } else {
            None
        },
        _ => None,
    }
}

fn is_not_token(t: &Token) -> (r: bool)
    ensures
        r == is_not(t@),
{
    match t {
        Token::Not => true,
        Token::Word(w) => str_eq(w.as_str(), "NOT"),
        _ => false,
    }
}

fn parse_expr(t: &Vec<Token>, pos: usize) -> (r: Option<(FilterExpr, usize)>)
    requires
        pos <= t@.len(),
    ensures
        match p_expr(toks_view(t@), pos as int) {
            Some((e, p)) => r matches Some((x, q)) && x@ == e && q == p,
            None => r is None,
        },
    decreases t@.len() - pos, 2nat,
{
    match parse_term(t, pos) {
        None => None,
        Some((e, p)) => if pos < p && p <= t.len() {
            parse_rest(t, p, e)
        } else {
            None
        },
    }
}

fn parse_rest(t: &Vec<Token>, pos: usize, acc: FilterExpr) -> (r: Option<(FilterExpr, usize)>)
    requires
        pos <= t@.len(),
    ensures
        match p_rest(toks_view(t@), pos as int, acc@) {
            Some((e, p)) => r matches Some((x, q)) && x@ == e && q == p,
            None => r is None,
        },
    decreases t@.len() - pos, 1nat,
{
    if pos < t.len() {
        assert(toks_view(t@)[pos as int] == t@[pos as int]@);
        match logical_op_of(&t[pos]) {
            Some(op) => match parse_term(t, pos + 1) {
                None => None,
                Some((e, p)) => if pos < p && p <= t.len() {
                    let ghost joined = ExprView::Logical(op, Box::new(acc@), Box::new(e@));
                    let combined = FilterExpr::Logical { op, left: Box::new(acc), right: Box::new(e) };
                    assert(combined@ == joined);
                    parse_rest(t, p, combined)
                } else {
                    None
                },
            },
            None => Some((acc, pos)),
        }
    } else {
        Some((acc, pos))
    }
}

fn parse_term(t: &Vec<Token>, pos: usize) -> (r: Option<(FilterExpr, usize)>)
    requires
        pos <= t@.len(),
    ensures
        match p_term(toks_view(t@), pos as int) {
            Some((e, p)) => r matches Some((x, q)) && x@ == e && q == p,
            None => r is None,
        },
    decreases t@.len() - pos, 0nat,
{
    if pos >= t.len() {
        return None;
    }
    assert(toks_view(t@)[pos as int] == t@[pos as int]@);
    if is_not_token(&t[pos]) {
        match parse_term(t, pos + 1) {
            None => None,
            Some((e, p)) => {
                let ghost inner = e@;
                let negated = FilterExpr::Not(Box::new(e));
                assert(negated@ == ExprView::Not(Box::new(inner)));
                Some((negated, p))
            },
        }
    } else {
        match &t[pos] {
            Token::LParen => match parse_expr(t, pos + 1) {
                None => None,
                Some((e, p)) => if p < t.len() {
                    assert(toks_view(t@)[p as int] == t@[p as int]@);
                    match &t[p] {
                        Token::RParen => Some((e, p + 1)),
                        _ => None,
                    }
                } else {
                    None
                },
            },
            _ => parse_test(t, pos),
        }
    }
}

fn parse_values(t: &Vec<Token>, pos: usize, acc: Vec<Value>) -> (r: Option<(Vec<Value>, usize)>)
    requires
        pos <= t@.len(),
    ensures
        match p_values(toks_view(t@), pos as int, values_view(acc@)) {
            Some((vs, p)) => r matches Some((x, q)) && values_view(x@) == vs && q == p,
            None => r is None,
        },
    decreases t@.len() - pos,
{
    if pos >= t.len() || pos + 1 >= t.len() {
        return None;
    }
    assert(toks_view(t@)[pos as int] == t@[pos as int]@);
    assert(toks_view(t@)[pos + 1] == t@[pos + 1]@);
    match token_value_of(&t[pos]) {
        None => None,
        Some(v) => {
            let mut acc = acc;
            let ghost before = acc@;
            let ghost vv = v@;
            acc.push(v);
            assert(values_view(acc@) =~= values_view(before).push(vv));
            match &t[pos + 1] {
                Token::RParen => Some((acc, pos + 2)),
                Token::Comma => parse_values(t, pos + 2, acc),
                _ => None,
            }
        },
    }
}

fn parse_string_test(t: &Vec<Token>, pos: usize, f: &String, op: StringOp) -> (r: Option<(FilterExpr, usize)>)
    requires
        pos <= t@.len(),
    ensures
        match p_string_test(toks_view(t@), pos as int, f@, op) {
            Some((e, p)) => r matches Some((x, q)) && x@ == e && q == p,
            None => r is None,
        },
{
    if pos < t.len() && pos + 1 < t.len() && pos + 2 < t.len() {
        assert(toks_view(t@)[pos + 2] == t@[pos + 2]@);
        match token_text_of(&t[pos + 2]) {
            None => None,
            Some(x) => Some((FilterExpr::StringOp { field: f.clone(), op, value: x }, pos + 3)),
        }
    } else {
        None
    }
}

fn parse_test(t: &Vec<Token>, pos: usize) -> (r: Option<(FilterExpr, usize)>)
    requires
        pos <= t@.len(),
    ensures
        match p_test(toks_view(t@), pos as int) {
            Some((e, p)) => r matches Some((x, q)) && x@ == e && q == p,
            None => r is None,
        },
{
    if pos >= t.len() || pos + 1 >= t.len() {
        return None;
    }
    assert(toks_view(t@)[pos as int] == t@[pos as int]@);
    assert(toks_view(t@)[pos + 1] == t@[pos + 1]@);
    match &t[pos] {
        Token::Word(f) => {
            if !is_ident_word(f) {
                return None;
            }
            match &t[pos + 1] {
                Token::Word(k) => {
                    let ks = k.as_str();
                    if str_eq(ks, "EXISTS") {
                        Some((FilterExpr::Exists { field: f.clone(), check: ExistenceCheck::Exists }, pos + 2))
                    } else if str_eq(ks, "EMPTY") {
                        Some((FilterExpr::Exists { field: f.clone(), check: ExistenceCheck::Empty }, pos + 2))
                    } else if str_eq(ks, "NULL") {
                        Some((FilterExpr::Exists { field: f.clone(), check: ExistenceCheck::Null }, pos + 2))
                    } else if str_eq(ks, "IN") {
                        if pos + 2 < t.len() {
                            assert(toks_view(t@)[pos + 2] == t@[pos + 2]@);
                            match &t[pos + 2] {
                                Token::LParen => {
                                    let empty: Vec<Value> = Vec::new();
                                    assert(values_view(empty@) =~= Seq::<ValueView>::empty());
                                    match parse_values(t, pos + 3, empty) {
                                        None => None,
                                        Some((vs, p)) => Some((FilterExpr::In { field: f.clone(), values: vs }, p)),
                                    }
                                },
                                _ => None,
                            }
                        } else {
                            None
                        }
                    } else if str_eq(ks, "contains") {
                        parse_string_test(t, pos, f, StringOp::Contains)
                    } else {
                        None
                    }
                },
                Token::Str(op) => parse_string_test(t, pos, f, *op),
                Token::Cmp(op) => if pos + 2 < t.len() {
                    assert(toks_view(t@)[pos + 2] == t@[pos + 2]@);
                    match token_value_of(&t[pos + 2]) {
                        None => None,
                        Some(v) => Some((FilterExpr::Compare { field: f.clone(), op: *op, value: v }, pos + 3)),
                    }
                } else {
                    None
                },
                _ => None,
            }
        },
        _ => None,
    }
}

/// Parses a filter expression. Input that spells no expression is
/// refused with a parse error that quotes it.
pub fn parse_filter(input: &str) -> (r: Result<Filter, GhidraError>)
    ensures
        match spec_filter(input@) {
            Some(e) => r matches Ok(f) && f.expr@ == e,
            None => r matches Err(GhidraError::FilterParseError(m)) && m@ == input@,
        },
{
    let toks = match lex(input) {
        Some(t) => t,
        None => {
            return Err(GhidraError::FilterParseError(String::from_str(input)));
        },
    };
    match parse_expr(&toks, 0) {
        Some((e, p)) => if p == toks.len() {
            Ok(Filter { expr: e })
        } else {
            Err(GhidraError::FilterParseError(String::from_str(input)))
        },
        None => Err(GhidraError::FilterParseError(String::from_str(input))),
    }
}

impl Filter {
    /// Parses a filter expression, as [`parse_filter`] does.
    pub fn parse(input: &str) -> (r: Result<Filter, GhidraError>)
        ensures
            match spec_filter(input@) {
                Some(e) => r matches Ok(f) && f.expr@ == e,
                None => r matches Err(GhidraError::FilterParseError(m)) && m@ == input@,
            },
    {
        parse_filter(input)
    }
}

} // verus!
