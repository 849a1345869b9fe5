//! Plain-text utilities the session core is built on: whitespace
//! tokenization, decimal rendering and parsing, trimming, and joining a
//! relative path onto a base directory.

use vstd::prelude::*;

verus! {

use vstd::string::StrSliceExecFns;
use vstd::string::StringExecFns;

// ---------------------------------------------------------------------------
// Character classes
// ---------------------------------------------------------------------------

/// ASCII whitespace: the characters on which input is split into tokens and
/// which trimming removes.
pub open spec fn is_space_char(c: char) -> bool {
    c == ' ' || c == '\t' || c == '\n' || c == '\r' || c == '\u{b}' || c == '\u{c}'
}

pub fn is_space(c: char) -> (b: bool)
    ensures
        b == is_space_char(c),
{
    c == ' ' || c == '\t' || c == '\n' || c == '\r' || c == '\u{b}' || c == '\u{c}'
}

pub open spec fn is_digit_char(c: char) -> bool {
    48 <= c as u32 && c as u32 <= 57
}

/// The numeric value of a decimal digit character.
pub open spec fn digit_val(c: char) -> nat {
    (c as u32 - 48) as nat
}

// ---------------------------------------------------------------------------
// The views of a sequence of strings
// ---------------------------------------------------------------------------

pub open spec fn views_of(v: Seq<String>) -> Seq<Seq<char>> {
    v.map_values(|s: String| s@)
}

pub proof fn lemma_views_of_push(v: Seq<String>, s: String)
    ensures
        views_of(v.push(s)) == views_of(v).push(s@),
{
    assert(views_of(v.push(s)) =~= views_of(v).push(s@));
}

// ---------------------------------------------------------------------------
// Tokenization on runs of whitespace
// ---------------------------------------------------------------------------

/// The length of the maximal non-whitespace prefix.
pub open spec fn token_len(s: Seq<char>) -> nat
    decreases s.len(),
{
    if s.len() == 0 || is_space_char(s[0]) {
        0
    } else {
        1 + token_len(s.drop_first())
    }
}

pub proof fn lemma_token_len_le(s: Seq<char>)
    ensures
        token_len(s) <= s.len(),
    decreases s.len(),
{
    if s.len() == 0 || is_space_char(s[0]) {
    } else {
        lemma_token_len_le(s.drop_first());
    }
}

pub proof fn lemma_token_len_at(s: Seq<char>, i: int)
    requires
        0 <= i <= s.len(),
        forall|l: int| 0 <= l < i ==> !is_space_char(s[l]),
        i == s.len() || is_space_char(s[i]),
    ensures
        token_len(s) == i,
    decreases i,
{
    if i == 0 {
    } else {
        lemma_token_len_at(s.drop_first(), i - 1);
    }
}

/// The tokens of an input line: maximal runs of non-whitespace characters,
/// in order.
pub open spec fn tokens_of(s: Seq<char>) -> Seq<Seq<char>>
    decreases s.len(),
    via tokens_of_decreases
{
    if s.len() == 0 {
        Seq::empty()
    } else if is_space_char(s[0]) {
        tokens_of(s.drop_first())
    } else {
        seq![s.take(token_len(s) as int)] + tokens_of(s.skip(token_len(s) as int))
    }
}

#[via_fn]
proof fn tokens_of_decreases(s: Seq<char>) {
    if s.len() > 0 && !is_space_char(s[0]) {
        lemma_token_len_le(s);
    }
}

/// Splits a line into its whitespace-separated tokens.
pub fn tokenize(line: &str) -> (r: Vec<String>)
    ensures
        views_of(r@) == tokens_of(line@),
{
    let n = line.unicode_len();
    let mut out: Vec<String> = Vec::new();
    proof {
        assert(views_of(out@) =~= Seq::<Seq<char>>::empty());
        assert(line@.skip(0) =~= line@);
    }
    let mut i: usize = 0;
    while i < n
        invariant
            i <= n,
            n == line@.len(),
            views_of(out@) + tokens_of(line@.skip(i as int)) == tokens_of(line@),
        decreases n - i,
    {
        if is_space(line.get_char(i)) {
            proof {
                assert(line@.skip(i as int).drop_first() =~= line@.skip(i + 1));
            }
            i += 1;
        } else {
            let start = i;
            let mut j = i + 1;
            while j < n && !is_space(line.get_char(j))
                invariant
                    start < j <= n,
                    n == line@.len(),
                    forall|l: int| start <= l < j ==> !is_space_char(line@[l]),
                decreases n - j,
            {
                j += 1;
            }
            let tok = line.substring_char(start, j).to_owned();
            proof {
                let rest = line@.skip(start as int);
                lemma_token_len_at(rest, j - start);
                assert(rest.take(j - start) =~= line@.subrange(start as int, j as int));
                assert(rest.skip(j - start) =~= line@.skip(j as int));
                lemma_views_of_push(out@, tok);
                assert(views_of(out@.push(tok)) + tokens_of(line@.skip(j as int)) =~= views_of(
                    out@,
                ) + tokens_of(line@.skip(start as int)));
            }
            out.push(tok);
            i = j;
        }
    }
    proof {
        assert(tokens_of(line@.skip(n as int)) == Seq::<Seq<char>>::empty());
        assert(views_of(out@) =~= tokens_of(line@));
    }
    out
}

// ---------------------------------------------------------------------------
// Decimal rendering
// ---------------------------------------------------------------------------

pub open spec fn digit_char(d: nat) -> char {
    if d == 0 {
        '0'
    } else if d == 1 {
        '1'
    } else if d == 2 {
        '2'
    } else if d == 3 {
        '3'
    } else if d == 4 {
        '4'
    } else if d == 5 {
        '5'
    } else if d == 6 {
        '6'
    } else if d == 7 {
        '7'
    } else if d == 8 {
        '8'
    } else {
        '9'
    }
}

/// The usual decimal rendering of a number, most significant digit first,
/// with no leading zeros (and `0` rendered as `"0"`).
pub open spec fn dec_rep(n: nat) -> Seq<char>
    decreases n,
    via dec_rep_decreases
{
    if n < 10 {
        seq![digit_char(n)]
    } else {
        dec_rep(n / 10).push(digit_char(n % 10))
    }
}

#[via_fn]
proof fn dec_rep_decreases(n: nat) {
    if n >= 10 {
        assert(n / 10 < n) by (nonlinear_arith)
            requires
                n >= 10,
        ;
    }
}

fn digit_str(d: usize) -> (r: &'static str)
    requires
        d < 10,
    ensures
        r@ == seq![digit_char(d as nat)],
{
    if d == 0 {
        proof {
            reveal_strlit("0");
            assert("0"@ =~= seq![digit_char(0)]);
        }
        "0"
    } else if d == 1 {
        proof {
            reveal_strlit("1");
            assert("1"@ =~= seq![digit_char(1)]);
        }
        "1"
    } else if d == 2 {
        proof {
            reveal_strlit("2");
            assert("2"@ =~= seq![digit_char(2)]);
        }
        "2"
    } else if d == 3 {
        proof {
            reveal_strlit("3");
            assert("3"@ =~= seq![digit_char(3)]);
        }
        "3"
    } else if d == 4 {
        proof {
            reveal_strlit("4");
            assert("4"@ =~= seq![digit_char(4)]);
        }
        "4"
    } else if d == 5 {
        proof {
            reveal_strlit("5");
            assert("5"@ =~= seq![digit_char(5)]);
        }
        "5"
    } else if d == 6 {
        proof {
            reveal_strlit("6");
            assert("6"@ =~= seq![digit_char(6)]);
        }
        "6"
    } else if d == 7 {
        proof {
            reveal_strlit("7");
            assert("7"@ =~= seq![digit_char(7)]);
        }
        "7"
    } else if d == 8 {
        proof {
            reveal_strlit("8");
            assert("8"@ =~= seq![digit_char(8)]);
        }
        "8"
    } else {
        proof {
            reveal_strlit("9");
            assert("9"@ =~= seq![digit_char(9)]);
        }
        "9"
    }
}

/// Renders a number in decimal.
pub fn usize_to_string(n: usize) -> (r: String)
    ensures
        r@ == dec_rep(n as nat),
    decreases n,
{
    if n < 10 {
        let r = digit_str(n).to_owned();
        proof {
            assert(r@ =~= dec_rep(n as nat));
        }
        r
    } else {
        let mut r = usize_to_string(n / 10);
        let d = digit_str(n % 10);
        r.append(d);
        proof {
            assert(r@ =~= dec_rep(n as nat));
        }
        r
    }
}

// ---------------------------------------------------------------------------
// Decimal parsing
// ---------------------------------------------------------------------------

pub open spec fn all_digit_chars(s: Seq<char>) -> bool {
    forall|i: int| 0 <= i < s.len() ==> is_digit_char(s[i])
}

pub open spec fn dec_val(s: Seq<char>) -> nat
    decreases s.len(),
{
    if s.len() == 0 {
        0
    } else {
        dec_val(s.drop_last()) * 10 + digit_val(s.last())
    }
}

proof fn lemma_dec_val_prefix(s: Seq<char>, i: int)
    requires
        0 <= i <= s.len(),
    ensures
        dec_val(s.take(i)) <= dec_val(s),
    decreases s.len(),
{
    if i == s.len() {
        assert(s.take(i) =~= s);
    } else {
        assert(s.drop_last().take(i) =~= s.take(i));
        lemma_dec_val_prefix(s.drop_last(), i);
    }
}

/// What a position argument parses to: an optional leading `'+'`, then at
/// least one decimal digit, with a value that fits in `usize`; anything else
/// is rejected.
pub open spec fn parsed_index(s: Seq<char>) -> Option<nat> {
    let body = if s.len() > 0 && s[0] == '+' {
        s.drop_first()
    } else {
        s
    };
    if body.len() > 0 && all_digit_chars(body) && dec_val(body) <= usize::MAX as nat {
        Some(dec_val(body))
    } else {
        None
    }
}

/// Parses a position argument as a non-negative decimal number.
pub fn parse_index(s: &str) -> (r: Option<usize>)
    ensures
        match r {
            Some(v) => parsed_index(s@) == Some(v as nat),
            None => parsed_index(s@) is None,
        },
{
    let n = s.unicode_len();
    let start: usize = if n > 0 && s.get_char(0) == '+' {
        1
    } else {
        0
    };
    let ghost body: Seq<char> = if start == 1 {
        s@.drop_first()
    } else {
        s@
    };
    proof {
        assert(s@.skip(start as int) =~= body);
    }
    if start == n {
        return None;
    }
    let mut acc: usize = 0;
    let mut i: usize = start;
    while i < n
        invariant
            start <= i <= n,
            n == s@.len(),
            start <= 1,
            start == 1 <==> s@.len() > 0 && s@[0] == '+',
            body == (if s@.len() > 0 && s@[0] == '+' {
                s@.drop_first()
            } else {
                s@
            }),
            body.len() == n - start,
            forall|l: int| 0 <= l < i - start ==> is_digit_char(#[trigger] body[l]),
            acc as nat == dec_val(body.take(i - start)),
        decreases n - i,
    {
        let c = s.get_char(i);
        let cu = c as u32;
        proof {
            assert(body[i - start] == s@[i as int]);
        }
        if cu < 48 || cu > 57 {
            proof {
                assert(!is_digit_char(body[i - start]));
            }
            return None;
        }
        let d = (cu - 48) as usize;
        let limit = (usize::MAX - d) / 10;
        proof {
            vstd::arithmetic::div_mod::lemma_fundamental_div_mod((usize::MAX - d) as int, 10);
            vstd::arithmetic::div_mod::lemma_mod_bound((usize::MAX - d) as int, 10);
            assert(body.take(i - start + 1).drop_last() =~= body.take(i - start));
            assert(body.take(i - start + 1).last() == body[i - start]);
            assert(digit_val(body[i - start]) == d);
            assert(dec_val(body.take(i - start + 1)) == acc as nat * 10 + d);
        }
        if acc > limit {
            proof {
                assert(acc as nat * 10 + d > usize::MAX as nat);
                lemma_dec_val_prefix(body, i - start + 1);
                assert(dec_val(body) > usize::MAX as nat);
            }
            return None;
        }
        acc = acc * 10 + d;
        i += 1;
    }
    proof {
        assert(body.take(n - start) =~= body);
    }
    Some(acc)
}

// ---------------------------------------------------------------------------
// Trimming
// ---------------------------------------------------------------------------

pub open spec fn lead_ws(s: Seq<char>) -> nat
    decreases s.len(),
{
    if s.len() == 0 || !is_space_char(s[0]) {
        0
    } else {
        1 + lead_ws(s.drop_first())
    }
}

pub open spec fn trail_ws(s: Seq<char>) -> nat
    decreases s.len(),
{
    if s.len() == 0 || !is_space_char(s.last()) {
        0
    } else {
        1 + trail_ws(s.drop_last())
    }
}

proof fn lemma_lead_ws_at(s: Seq<char>, i: int)
    requires
        0 <= i <= s.len(),
        forall|l: int| 0 <= l < i ==> is_space_char(s[l]),
        i == s.len() || !is_space_char(s[i]),
    ensures
        lead_ws(s) == i,
    decreases i,
{
    if i == 0 {
    } else {
        lemma_lead_ws_at(s.drop_first(), i - 1);
    }
}

proof fn lemma_trail_ws_at(s: Seq<char>, k: int)
    requires
        0 <= k <= s.len(),
        forall|l: int| s.len() - k <= l < s.len() ==> is_space_char(s[l]),
        k == s.len() || !is_space_char(s[s.len() - k - 1]),
    ensures
        trail_ws(s) == k,
    decreases k,
{
    if k == 0 {
    } else {
        lemma_trail_ws_at(s.drop_last(), k - 1);
    }
}

/// A string with its leading and trailing whitespace removed.
pub open spec fn trimmed(s: Seq<char>) -> Seq<char> {
    let a = s.skip(lead_ws(s) as int);
    a.take(a.len() - trail_ws(a))
}

/// Removes leading and trailing whitespace.
pub fn trim(s: &str) -> (r: String)
    ensures
        r@ == trimmed(s@),
{
    let n = s.unicode_len();
    let mut i: usize = 0;
    while i < n && is_space(s.get_char(i))
        invariant
            i <= n,
            n == s@.len(),
            forall|l: int| 0 <= l < i ==> is_space_char(s@[l]),
        decreases n - i,
    {
        i += 1;
    }
    proof {
        lemma_lead_ws_at(s@, i as int);
    }
    let mut j: usize = n;
    while j > i && is_space(s.get_char(j - 1))
        invariant
            i <= j <= n,
            n == s@.len(),
            forall|l: int| j <= l < n ==> is_space_char(s@[l]),
        decreases j,
    {
        j -= 1;
    }
    proof {
        let a = s@.skip(i as int);
        assert(forall|l: int| j - i <= l < a.len() ==> is_space_char(#[trigger] a[l]));
        lemma_trail_ws_at(a, n - j);
    }
    let r = s.substring_char(i, j).to_owned();
    proof {
        assert(r@ =~= trimmed(s@));
    }
    r
}

// ---------------------------------------------------------------------------
// Scanning for a separator
// ---------------------------------------------------------------------------

/// The length of the maximal prefix free of line breaks.
pub open spec fn line_len(s: Seq<char>) -> nat
    decreases s.len(),
{
    if s.len() == 0 || s[0] == '\n' {
        0
    } else {
        1 + line_len(s.drop_first())
    }
}

pub proof fn lemma_line_len_at(s: Seq<char>, i: int)
    requires
        0 <= i <= s.len(),
        forall|l: int| 0 <= l < i ==> s[l] != '\n',
        i == s.len() || s[i] == '\n',
    ensures
        line_len(s) == i,
    decreases i,
{
    if i == 0 {
    } else {
        lemma_line_len_at(s.drop_first(), i - 1);
    }
}

/// The length of the maximal prefix free of `'='`.
pub open spec fn key_len(s: Seq<char>) -> nat
    decreases s.len(),
{
    if s.len() == 0 || s[0] == '=' {
        0
    } else {
        1 + key_len(s.drop_first())
    }
}

pub proof fn lemma_key_len_at(s: Seq<char>, i: int)
    requires
        0 <= i <= s.len(),
        forall|l: int| 0 <= l < i ==> s[l] != '=',
        i == s.len() || s[i] == '=',
    ensures
        key_len(s) == i,
    decreases i,
{
    if i == 0 {
    } else {
        lemma_key_len_at(s.drop_first(), i - 1);
    }
}

// ---------------------------------------------------------------------------
// Path joining
// ---------------------------------------------------------------------------

/// A relative argument joined onto a base directory: an argument that is
/// already absolute stands alone; otherwise the two are glued with a single
/// separator.
pub open spec fn joined(base: Seq<char>, arg: Seq<char>) -> Seq<char> {
    if arg.len() > 0 && arg[0] == '/' {
        arg
    } else if base.len() == 0 {
        arg
    } else if base[base.len() - 1] == '/' {
        base + arg
    } else {
        base + seq!['/'] + arg
    }
}

/// Joins a path argument onto a base directory.
pub fn join_path(base: &str, arg: &str) -> (r: String)
    ensures
        r@ == joined(base@, arg@),
{
    let bn = base.unicode_len();
    let an = arg.unicode_len();
    if an > 0 && arg.get_char(0) == '/' {
        arg.to_owned()
    } else if bn == 0 {
        arg.to_owned()
    } else if base.get_char(bn - 1) == '/' {
        let mut r = base.to_owned();
        r.append(arg);
        r
    } else {
        let mut r = base.to_owned();
        r.append("/");
        r.append(arg);
        proof {
            reveal_strlit("/");
            assert("/"@ =~= seq!['/']);
            assert(r@ =~= joined(base@, arg@));
        }
        r
    }
}

} // verus!
