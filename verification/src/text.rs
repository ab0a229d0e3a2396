//! Verified text helpers: decimal rendering with zero padding, derivation of
//! run-directory paths, line and token splitting, decimal parsing, and
//! character-wise string comparison.

use vstd::prelude::*;

use crate::data::SentryParameters;

verus! {

/// The character for one decimal digit.
pub open spec fn digit_char(d: nat) -> char {
    if d == 0 {
        '0'
    } else if d == 1 {
        '1'
    } else if d == 2 {
        '2'
    } else if d == 3 {
        '3'
    } else if d == 4 {
        '4'
    } else if d == 5 {
        '5'
    } else if d == 6 {
        '6'
    } else if d == 7 {
        '7'
    } else if d == 8 {
        '8'
    } else {
        '9'
    }
}

/// The decimal rendering of `n`, most significant digit first, no sign and no
/// leading zeros (a single `'0'` for zero).
pub open spec fn dec_digits(n: nat) -> Seq<char>
    decreases n,
{
    if n < 10 {
        seq![digit_char(n)]
    } else {
        dec_digits(n / 10) + seq![digit_char(n % 10)]
    }
}

/// `k` copies of `'0'`.
pub open spec fn zeros(k: nat) -> Seq<char> {
    Seq::new(k, |i: int| '0')
}

/// `s` left-padded with zeros to at least `w` characters.
pub open spec fn pad_left(s: Seq<char>, w: nat) -> Seq<char> {
    if s.len() >= w {
        s
    } else {
        zeros((w - s.len()) as nat) + s
    }
}

/// A run number rendered as in `run_0007`: zero-padded to four characters,
/// the sign of a negative number counting toward the width.
pub open spec fn run_number_text(n: int) -> Seq<char> {
    if n >= 0 {
        pad_left(dec_digits(n as nat), 4)
    } else {
        seq!['-'] + pad_left(dec_digits((-n) as nat), 3)
    }
}

/// The run directory relative to a data root: `experiment/run_NNNN`.
pub open spec fn run_dir_text(experiment: Seq<char>, n: int) -> Seq<char> {
    experiment + seq!['/', 'r', 'u', 'n', '_'] + run_number_text(n)
}

/// The full run directory path under `root`.
pub open spec fn run_dir_path(root: Seq<char>, experiment: Seq<char>, n: int) -> Seq<char> {
    root + seq!['/'] + run_dir_text(experiment, n)
}

/// One decimal digit as a one-character string.
fn digit_str(d: u8) -> (r: String)
    requires
        d < 10,
    ensures
        r@ == seq![digit_char(d as nat)],
{
    let s: &str = if d == 0 {
        "0"
    } else if d == 1 {
        "1"
    } else if d == 2 {
        "2"
    } else if d == 3 {
        "3"
    } else if d == 4 {
        "4"
    } else if d == 5 {
        "5"
    } else if d == 6 {
        "6"
    } else if d == 7 {
        "7"
    } else if d == 8 {
        "8"
    } else {
        "9"
    };
    proof {
        reveal_strlit("0");
        reveal_strlit("1");
        reveal_strlit("2");
        reveal_strlit("3");
        reveal_strlit("4");
        reveal_strlit("5");
        reveal_strlit("6");
        reveal_strlit("7");
        reveal_strlit("8");
        reveal_strlit("9");
        assert(s@ =~= seq![digit_char(d as nat)]);
    }
    String::from_str(s)
}

/// Renders `n` in decimal.
pub fn u64_dec(n: u64) -> (r: String)
    ensures
        r@ == dec_digits(n as nat),
    decreases n,
{
    if n < 10 {
        digit_str(n as u8)
    } else {
        let mut s = u64_dec(n / 10);
        let d = digit_str((n % 10) as u8);
        s.append(d.as_str());
        s
    }
}

/// Left-pads `s` with zeros to at least `width` characters.
fn pad_digits(s: String, width: usize) -> (r: String)
    ensures
        r@ == pad_left(s@, width as nat),
{
    let n = s.as_str().unicode_len();
    if n >= width {
        return s;
    }
    let mut p = String::new();
    let mut k: usize = 0;
    while k < width - n
        invariant
            n == s@.len(),
            n < width,
            k <= width - n,
            p@ =~= zeros(k as nat),
        decreases width - n - k,
    {
        p.append("0");
        proof {
            reveal_strlit("0");
            assert(p@ =~= zeros((k + 1) as nat));
        }
        k += 1;
    }
    let r = p.concat(s.as_str());
    proof {
        assert(r@ =~= pad_left(s@, width as nat));
    }
    r
}

/// Renders a run number as the four-wide, zero-padded field of a run
/// directory name.
pub fn run_number_string(n: i32) -> (r: String)
    ensures
        r@ == run_number_text(n as int),
{
    if n >= 0 {
        pad_digits(u64_dec(n as u64), 4)
    } else {
        let m: u64 = (-(n as i64)) as u64;
        let mut s = String::from_str("-");
        let d = pad_digits(u64_dec(m), 3);
        s.append(d.as_str());
        proof {
            reveal_strlit("-");
            assert(s@ =~= run_number_text(n as int));
        }
        s
    }
}

/// Derives the run directory path `root/experiment/run_NNNN` shared by the
/// cataloger and the configuration archiver.
pub fn run_directory(root: &str, params: &SentryParameters) -> (r: String)
    ensures
        r@ == run_dir_path(root@, params.experiment@, params.run_number as int),
{
    let mut r = String::from_str(root);
    r.append("/");
    r.append(params.experiment.as_str());
    r.append("/run_");
    let num = run_number_string(params.run_number);
    r.append(num.as_str());
    proof {
        reveal_strlit("/");
        reveal_strlit("/run_");
        assert(r@ =~= run_dir_path(root@, params.experiment@, params.run_number as int));
    }
    r
}

/// The index of the first character of `s` satisfying `pred`, or `s.len()`
/// when none does.
pub open spec fn first_sep(s: Seq<char>, pred: spec_fn(char) -> bool) -> nat
    decreases s.len(),
{
    if s.len() == 0 {
        0
    } else if pred(s[0]) {
        0
    } else {
        1 + first_sep(s.drop_first(), pred)
    }
}

/// The first separator index never passes the end.
pub proof fn lemma_first_sep_le(s: Seq<char>, pred: spec_fn(char) -> bool)
    ensures
        first_sep(s, pred) <= s.len(),
    decreases s.len(),
{
    if s.len() > 0 && !pred(s[0]) {
        lemma_first_sep_le(s.drop_first(), pred);
    }
}

/// A forward scan that stopped at `i` found the first separator: nothing
/// before `i` satisfies `pred`, and either `i` does or the end was reached.
pub proof fn lemma_first_sep_scan(s: Seq<char>, pred: spec_fn(char) -> bool, i: int)
    requires
        0 <= i <= s.len(),
        forall|j: int| 0 <= j < i ==> !pred(s[j]),
        i == s.len() || pred(s[i]),
    ensures
        first_sep(s, pred) == i,
    decreases i,
{
    if i > 0 {
        lemma_first_sep_scan(s.drop_first(), pred, i - 1);
    }
}

/// `s` split at every character satisfying `pred`, separators dropped,
/// empty pieces kept: splitting never yields an empty sequence of pieces.
pub open spec fn split_when(s: Seq<char>, pred: spec_fn(char) -> bool) -> Seq<Seq<char>>
    decreases s.len(),
    via split_when_decreases
{
    let i = first_sep(s, pred);
    if i == s.len() {
        seq![s]
    } else {
        seq![s.take(i as int)] + split_when(s.skip(i as int + 1), pred)
    }
}

#[via_fn]
proof fn split_when_decreases(s: Seq<char>, pred: spec_fn(char) -> bool) {
    lemma_first_sep_le(s, pred);
}

/// A line separator.
pub open spec fn is_line_sep(c: char) -> bool {
    c == '\n'
}

/// A blank within a line: the whitespace that separates the columns of
/// tabular command output.
pub open spec fn is_blank(c: char) -> bool {
    c == ' ' || c == '\t' || c == '\r'
}

/// The lines of `s`, split on newlines.
pub open spec fn split_lines_of(s: Seq<char>) -> Seq<Seq<char>> {
    split_when(s, |c: char| is_line_sep(c))
}

/// `s` split on blanks, empty pieces still present.
pub open spec fn raw_tokens(s: Seq<char>) -> Seq<Seq<char>> {
    split_when(s, |c: char| is_blank(c))
}

/// The non-empty pieces of `ts`, in order.
pub open spec fn non_empty(ts: Seq<Seq<char>>) -> Seq<Seq<char>>
    decreases ts.len(),
{
    if ts.len() == 0 {
        Seq::empty()
    } else {
        let rest = non_empty(ts.drop_last());
        if ts.last().len() > 0 {
            rest.push(ts.last())
        } else {
            rest
        }
    }
}

/// The blank-separated tokens of one line, as `split_whitespace` yields
/// them: maximal non-empty runs between blanks, in order.
pub open spec fn tokens_of(s: Seq<char>) -> Seq<Seq<char>> {
    non_empty(raw_tokens(s))
}

/// Splits `s` into its lines.
pub fn split_lines(s: &str) -> (r: Vec<String>)
    ensures
        r@.map_values(|t: String| t@) == split_lines_of(s@),
    decreases s@.len(),
{
    let n = s.unicode_len();
    let mut i: usize = 0;
    while i < n && s.get_char(i) != '\n'
        invariant
            n == s@.len(),
            i <= n,
            forall|j: int| 0 <= j < i ==> !is_line_sep(#[trigger] s@[j]),
        decreases n - i,
    {
        i += 1;
    }
    proof {
        lemma_first_sep_scan(s@, |c: char| is_line_sep(c), i as int);
    }
    if i == n {
        let mut r: Vec<String> = Vec::new();
        r.push(String::from_str(s));
        proof {
            assert(r@.map_values(|t: String| t@) =~= split_lines_of(s@));
        }
        r
    } else {
        let head = s.substring_char(0, i);
        let tail = s.substring_char(i + 1, n);
        proof {
            assert(head@ =~= s@.take(i as int));
            assert(tail@ =~= s@.skip(i as int + 1));
        }
        let mut rest = split_lines(tail);
        let mut r: Vec<String> = Vec::new();
        r.push(String::from_str(head));
        r.append(&mut rest);
        proof {
            assert(r@.map_values(|t: String| t@) =~= split_lines_of(s@));
        }
        r
    }
}

/// Whether the character at `i` is a blank.
fn blank_at(s: &str, i: usize) -> (r: bool)
    requires
        i < s@.len(),
    ensures
        r == is_blank(s@[i as int]),
{
    let c = s.get_char(i);
    c == ' ' || c == '\t' || c == '\r'
}

/// Splits `s` on blanks, keeping empty pieces.
fn split_blanks(s: &str) -> (r: Vec<String>)
    ensures
        r@.map_values(|t: String| t@) == raw_tokens(s@),
    decreases s@.len(),
{
    let n = s.unicode_len();
    let mut i: usize = 0;
    while i < n && !blank_at(s, i)
        invariant
            n == s@.len(),
            i <= n,
            forall|j: int| 0 <= j < i ==> !is_blank(#[trigger] s@[j]),
        decreases n - i,
    {
        i += 1;
    }
    proof {
        lemma_first_sep_scan(s@, |c: char| is_blank(c), i as int);
    }
    if i == n {
        let mut r: Vec<String> = Vec::new();
        r.push(String::from_str(s));
        proof {
            assert(r@.map_values(|t: String| t@) =~= raw_tokens(s@));
        }
        r
    } else {
        let head = s.substring_char(0, i);
        let tail = s.substring_char(i + 1, n);
        proof {
            assert(head@ =~= s@.take(i as int));
            assert(tail@ =~= s@.skip(i as int + 1));
        }
        let mut rest = split_blanks(tail);
        let mut r: Vec<String> = Vec::new();
        r.push(String::from_str(head));
        r.append(&mut rest);
        proof {
            assert(r@.map_values(|t: String| t@) =~= raw_tokens(s@));
        }
        r
    }
}

/// Splits one line into its blank-separated tokens.
pub fn tokens(s: &str) -> (r: Vec<String>)
    ensures
        r@.map_values(|t: String| t@) == tokens_of(s@),
{
    let parts = split_blanks(s);
    let ghost raw = parts@.map_values(|t: String| t@);
    let mut kept: Vec<String> = Vec::new();
    let mut i: usize = 0;
    while i < parts.len()
        invariant
            i <= parts@.len(),
            raw == parts@.map_values(|t: String| t@),
            raw.len() == parts@.len(),
            kept@.map_values(|t: String| t@) =~= non_empty(raw.take(i as int)),
        decreases parts@.len() - i,
    {
        proof {
            assert(raw.take(i as int + 1).drop_last() =~= raw.take(i as int));
            assert(raw.take(i as int + 1).last() == raw[i as int]);
            assert(raw[i as int] == parts@[i as int]@);
        }
        if !parts[i].as_str().is_empty() {
            kept.push(parts[i].clone());
        }
        proof {
            assert(kept@.map_values(|t: String| t@) =~= non_empty(raw.take(i as int + 1)));
        }
        i += 1;
    }
    proof {
        assert(raw.take(raw.len() as int) =~= raw);
    }
    kept
}

/// A decimal digit.
pub open spec fn is_digit(c: char) -> bool {
    c == '0' || c == '1' || c == '2' || c == '3' || c == '4' || c == '5' || c == '6' || c == '7'
        || c == '8' || c == '9'
}

/// The value of a decimal digit.
pub open spec fn digit_val(c: char) -> nat {
    if c == '0' {
        0
    } else if c == '1' {
        1
    } else if c == '2' {
        2
    } else if c == '3' {
        3
    } else if c == '4' {
        4
    } else if c == '5' {
        5
    } else if c == '6' {
        6
    } else if c == '7' {
        7
    } else if c == '8' {
        8
    } else {
        9
    }
}

/// Whether `t` is a non-empty, all-digit decimal numeral.
pub open spec fn all_digits(t: Seq<char>) -> bool {
    t.len() > 0 && forall|i: int| 0 <= i < t.len() ==> is_digit(#[trigger] t[i])
}

/// The value of a decimal numeral, most significant digit first.
pub open spec fn dec_value(t: Seq<char>) -> nat
    decreases t.len(),
{
    if t.len() == 0 {
        0
    } else {
        dec_value(t.drop_last()) * 10 + digit_val(t.last())
    }
}

/// A numeral is worth at least any of its prefixes: appending digits never
/// shrinks the value.
pub proof fn lemma_dec_value_prefix(t: Seq<char>, k: int)
    requires
        0 <= k <= t.len(),
    ensures
        dec_value(t) >= dec_value(t.take(k)),
    decreases t.len() - k,
{
    if k == t.len() {
        assert(t.take(k) =~= t);
    } else {
        lemma_dec_value_prefix(t, k + 1);
        assert(t.take(k + 1).drop_last() =~= t.take(k));
        assert(t.take(k + 1).last() == t[k]);
    }
}

/// Parses a non-empty, all-digit decimal numeral that fits in a `u64`;
/// anything else is rejected.
pub fn parse_u64(t: &str) -> (r: Option<u64>)
    ensures
        match r {
            Some(v) => all_digits(t@) && dec_value(t@) == v as nat,
            None => !all_digits(t@) || dec_value(t@) > u64::MAX,
        },
{
    let n = t.unicode_len();
    if n == 0 {
        return None;
    }
    let mut acc: u64 = 0;
    let mut i: usize = 0;
    while i < n
        invariant
            n == t@.len(),
            0 < n,
            i <= n,
            forall|j: int| 0 <= j < i ==> is_digit(#[trigger] t@[j]),
            acc as nat == dec_value(t@.take(i as int)),
        decreases n - i,
    {
        let c = t.get_char(i);
        let d: u64 = if c == '0' {
            0
        } else if c == '1' {
            1
        } else if c == '2' {
            2
        } else if c == '3' {
            3
        } else if c == '4' {
            4
        } else if c == '5' {
            5
        } else if c == '6' {
            6
        } else if c == '7' {
            7
        } else if c == '8' {
            8
        } else if c == '9' {
            9
        } else {
            return None;
        };
        proof {
            assert(t@.take(i as int + 1).drop_last() =~= t@.take(i as int));
            assert(t@.take(i as int + 1).last() == t@[i as int]);
        }
        let next = match acc.checked_mul(10) {
            Some(x) => x.checked_add(d),
            None => None,
        };
        acc = match next {
            Some(y) => y,
            None => {
                proof {
                    lemma_dec_value_prefix(t@, i as int + 1);
                }
                return None;
            },
        };
        i += 1;
    }
    proof {
        assert(t@.take(n as int) =~= t@);
    }
    Some(acc)
}

/// Character-wise string equality, usable on any two string slices.
pub fn str_eq(a: &str, b: &str) -> (r: bool)
    ensures
        r == (a@ == b@),
{
    let an = a.unicode_len();
    let bn = b.unicode_len();
    if an != bn {
        return false;
    }
    let mut i: usize = 0;
    while i < an
        invariant
            an == a@.len(),
            an == b@.len(),
            i <= an,
            forall|j: int| 0 <= j < i ==> a@[j] == b@[j],
        decreases an - i,
    {
        if a.get_char(i) != b.get_char(i) {
            return false;
        }
        i += 1;
    }
    proof {
        assert(a@ =~= b@);
    }
    true
}

} // verus!
