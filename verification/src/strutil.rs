//! Character-level string helpers: line editing primitives, whitespace
//! tokenization, decimal parsing and digit counting.

use vstd::prelude::*;
use vstd::string::StrSliceExecFns;
use vstd::string::StringExecFns;

verus! {

/// Views of a sequence of owned strings, character by character.
pub open spec fn views_of(ts: Seq<String>) -> Seq<Seq<char>> {
    ts.map_values(|t: String| t@)
}

/// Relies on `String::push`: appends exactly one character.
#[verifier::external_body]
pub(crate) fn push_char(s: &mut String, c: char)
    ensures
        final(s)@ == old(s)@.push(c),
{
    s.push(c);
}

/// A fresh copy of a borrowed string slice.
pub fn copy_str(s: &str) -> (r: String)
    ensures
        r@ == s@,
{
    String::from_str(s)
}

/// A fresh copy of the tokens from position `start` on.
pub fn tokens_from(v: &Vec<String>, start: usize) -> (r: Vec<String>)
    requires
        start <= v@.len(),
    ensures
        views_of(r@) == views_of(v@).subrange(start as int, v@.len() as int),
{
    let mut r: Vec<String> = Vec::new();
    let mut i: usize = start;
    while i < v.len()
        invariant
            start <= i <= v@.len(),
            views_of(r@) == views_of(v@).subrange(start as int, i as int),
        decreases v@.len() - i,
    {
        let ghost prev = r@;
        let tok = copy_str(v[i].as_str());
        r.push(tok);
        proof {
            assert(views_of(prev).len() == prev.len());
            assert(prev.len() == i - start);
            assert forall|j: int| 0 <= j < i + 1 - start implies views_of(r@)[j] == views_of(
                v@,
            ).subrange(start as int, i + 1)[j] by {
                assert(views_of(r@)[j] == r@[j]@);
                assert(views_of(v@).subrange(start as int, i + 1)[j] == views_of(v@)[start + j]);
                assert(views_of(v@)[start + j] == v@[start + j]@);
                if j < prev.len() {
                    assert(r@[j] == prev[j]);
                    assert(views_of(prev)[j] == prev[j]@);
                    assert(views_of(prev)[j] == views_of(v@).subrange(start as int, i as int)[j]);
                } else {
                    assert(r@[j]@ == v@[i as int]@);
                }
            }
            assert(views_of(r@) =~= views_of(v@).subrange(start as int, i + 1));
        }
        i = i + 1;
    }
    r
}

/// Character-wise string equality.
pub fn str_eq(a: &str, b: &str) -> (r: bool)
    ensures
        r == (a@ == b@),
{
    let na = a.unicode_len();
    let nb = b.unicode_len();
    if na != nb {
        return false;
    }
    let mut i: usize = 0;
    while i < na
        invariant
            i <= na,
            na == a@.len(),
            na == b@.len(),
            forall|j: int| 0 <= j < i ==> a@[j] == b@[j],
        decreases na - i,
    {
        if a.get_char(i) != b.get_char(i) {
            return false;
        }
        i = i + 1;
    }
    proof {
        assert(a@ =~= b@);
    }
    true
}

/// A fresh copy of a line sequence, character for character.
pub fn copy_lines(v: &Vec<String>) -> (r: Vec<String>)
    ensures
        views_of(r@) == views_of(v@),
{
    let mut r: Vec<String> = Vec::new();
    let mut i: usize = 0;
    while i < v.len()
        invariant
            i <= v@.len(),
            views_of(r@) == views_of(v@).subrange(0, i as int),
        decreases v@.len() - i,
    {
        let ghost prev = r@;
        let line = copy_str(v[i].as_str());
        r.push(line);
        proof {
            assert(r@ == prev.push(r@[prev.len() as int]));
            assert(views_of(prev).len() == prev.len());
            assert(prev.len() == i);
            assert forall|j: int| 0 <= j < i + 1 implies views_of(r@)[j] == views_of(
                v@,
            ).subrange(0, i + 1)[j] by {
                assert(views_of(r@)[j] == r@[j]@);
                assert(views_of(v@).subrange(0, i + 1)[j] == views_of(v@)[j]);
                assert(views_of(v@)[j] == v@[j]@);
                if j < i {
                    assert(r@[j] == prev[j]);
                    assert(views_of(prev)[j] == prev[j]@);
                    assert(views_of(prev)[j] == views_of(v@).subrange(0, i as int)[j]);
                } else {
                    assert(r@[j]@ == v@[i as int]@);
                }
            }
            assert(views_of(r@) =~= views_of(v@).subrange(0, i + 1));
        }
        i = i + 1;
    }
    proof {
        assert(views_of(v@).subrange(0, v@.len() as int) =~= views_of(v@));
    }
    r
}

/// Inserts `c` before the character at position `at` (a character index, so a
/// multi-byte character is never split).
pub fn insert_char_at(line: &String, at: usize, c: char) -> (r: String)
    requires
        at <= line@.len(),
    ensures
        r@ == line@.subrange(0, at as int) + seq![c] + line@.subrange(
            at as int,
            line@.len() as int,
        ),
{
    let n = line.as_str().unicode_len();
    let mut r = copy_str(line.as_str().substring_char(0, at));
    push_char(&mut r, c);
    r.append(line.as_str().substring_char(at, n));
    proof {
        assert(r@ =~= line@.subrange(0, at as int) + seq![c] + line@.subrange(
            at as int,
            line@.len() as int,
        ));
    }
    r
}

/// Removes the character at position `at` (a character index).
pub fn remove_char_at(line: &String, at: usize) -> (r: String)
    requires
        at < line@.len(),
    ensures
        r@ == line@.subrange(0, at as int) + line@.subrange(at as int + 1, line@.len() as int),
{
    let n = line.as_str().unicode_len();
    let mut r = copy_str(line.as_str().substring_char(0, at));
    r.append(line.as_str().substring_char(at + 1, n));
    r
}

/// Splits `line` at character position `at` into the part before and the part
/// from `at` on.
pub fn split_at_char(line: &String, at: usize) -> (r: (String, String))
    requires
        at <= line@.len(),
    ensures
        r.0@ == line@.subrange(0, at as int),
        r.1@ == line@.subrange(at as int, line@.len() as int),
{
    let n = line.as_str().unicode_len();
    let left = copy_str(line.as_str().substring_char(0, at));
    let right = copy_str(line.as_str().substring_char(at, n));
    (left, right)
}

/// Concatenation of two lines, as on merging them with backspace.
pub fn concat_lines(a: &String, b: &String) -> (r: String)
    ensures
        r@ == a@ + b@,
{
    let mut r = copy_str(a.as_str());
    r.append(b.as_str());
    r
}

/// The characters the command line treats as token separators.
pub open spec fn is_space(c: char) -> bool {
    c == ' ' || c == '\t' || c == '\n' || c == '\r'
}

/// Executable test matching `is_space`.
pub fn is_space_char(c: char) -> (r: bool)
    ensures
        r == is_space(c),
{
    c == ' ' || c == '\t' || c == '\n' || c == '\r'
}

/// One step of the whitespace scan: `acc.0` holds the finished tokens,
/// `acc.1` the token being gathered.
pub open spec fn tok_step(acc: (Seq<Seq<char>>, Seq<char>), c: char) -> (Seq<Seq<char>>, Seq<char>) {
    if is_space(c) {
        if acc.1.len() == 0 {
            acc
        } else {
            (acc.0.push(acc.1), Seq::empty())
        }
    } else {
        (acc.0, acc.1.push(c))
    }
}

/// The whitespace scan over a whole character sequence.
pub open spec fn tok_scan(s: Seq<char>) -> (Seq<Seq<char>>, Seq<char>)
    decreases s.len(),
{
    if s.len() == 0 {
        (Seq::<Seq<char>>::empty(), Seq::<char>::empty())
    } else {
        tok_step(tok_scan(s.drop_last()), s.last())
    }
}

/// The whitespace-delimited tokens of `s`, in order, each non-empty.
pub open spec fn tokens_of(s: Seq<char>) -> Seq<Seq<char>> {
    let acc = tok_scan(s);
    if acc.1.len() == 0 {
        acc.0
    } else {
        acc.0.push(acc.1)
    }
}

/// Splits `s` into its whitespace-delimited tokens.
pub fn tokenize(s: &str) -> (tokens: Vec<String>)
    ensures
        views_of(tokens@) == tokens_of(s@),
{
    let n = s.unicode_len();
    let mut tokens: Vec<String> = Vec::new();
    let mut cur: String = String::new();
    let mut i: usize = 0;
    while i < n
        invariant
            i <= n,
            n == s@.len(),
            views_of(tokens@) == tok_scan(s@.subrange(0, i as int)).0,
            cur@ == tok_scan(s@.subrange(0, i as int)).1,
        decreases n - i,
    {
        let c = s.get_char(i);
        proof {
            assert(s@.subrange(0, i + 1).drop_last() =~= s@.subrange(0, i as int));
            assert(s@.subrange(0, i + 1).last() == s@[i as int]);
        }
        if is_space_char(c) {
            if cur.as_str().unicode_len() > 0 {
                tokens.push(cur);
                cur = String::new();
                proof {
                    assert(views_of(tokens@) =~= tok_scan(s@.subrange(0, i + 1)).0);
                }
            }
        } else {
            push_char(&mut cur, c);
        }
        i = i + 1;
    }
    proof {
        assert(s@.subrange(0, n as int) =~= s@);
    }
    if cur.as_str().unicode_len() > 0 {
        tokens.push(cur);
        proof {
            assert(views_of(tokens@) =~= tokens_of(s@));
        }
    }
    tokens
}

/// The tokens joined back into one line with single spaces between them.
pub open spec fn joined_tokens(ts: Seq<Seq<char>>) -> Seq<char>
    decreases ts.len(),
{
    if ts.len() == 0 {
        Seq::<char>::empty()
    } else if ts.len() == 1 {
        ts[0]
    } else {
        joined_tokens(ts.drop_last()) + seq![' '] + ts.last()
    }
}

/// Joins `tokens` with single spaces, as when a past submission is recalled
/// into the input line.
pub fn join_tokens(tokens: &Vec<String>) -> (r: String)
    ensures
        r@ == joined_tokens(views_of(tokens@)),
{
    let mut r = String::new();
    let mut i: usize = 0;
    while i < tokens.len()
        invariant
            i <= tokens@.len(),
            r@ == joined_tokens(views_of(tokens@).subrange(0, i as int)),
        decreases tokens@.len() - i,
    {
        if i > 0 {
            push_char(&mut r, ' ');
        }
        r.append(tokens[i].as_str());
        proof {
            assert(views_of(tokens@).subrange(0, i + 1).drop_last() =~= views_of(
                tokens@,
            ).subrange(0, i as int));
            assert(views_of(tokens@).subrange(0, i + 1).last() == tokens@[i as int]@);
            if i > 0 {
                assert(r@ =~= joined_tokens(views_of(tokens@).subrange(0, i + 1)));
            } else {
                assert(r@ =~= joined_tokens(views_of(tokens@).subrange(0, 1)));
            }
        }
        i = i + 1;
    }
    proof {
        assert(views_of(tokens@).subrange(0, tokens@.len() as int) =~= views_of(tokens@));
    }
    r
}

/// A line with one trailing carriage return removed, so that both newline
/// conventions read alike: line terminators are stripped whole.
pub open spec fn strip_cr(l: Seq<char>) -> Seq<char> {
    if l.len() > 0 && l.last() == '\r' {
        l.drop_last()
    } else {
        l
    }
}

/// One step of the line scan: a newline finishes the gathered line (less a
/// carriage return directly before it), any other character extends it.
pub open spec fn line_step(acc: (Seq<Seq<char>>, Seq<char>), c: char) -> (Seq<Seq<char>>, Seq<char>) {
    if c == '\n' {
        (acc.0.push(strip_cr(acc.1)), Seq::<char>::empty())
    } else {
        (acc.0, acc.1.push(c))
    }
}

/// The line scan over a whole character sequence.
pub open spec fn line_scan(s: Seq<char>) -> (Seq<Seq<char>>, Seq<char>)
    decreases s.len(),
{
    if s.len() == 0 {
        (Seq::<Seq<char>>::empty(), Seq::<char>::empty())
    } else {
        line_step(line_scan(s.drop_last()), s.last())
    }
}

/// The lines of a text: newline-terminated pieces, plus a final unterminated
/// piece when it is non-empty; an empty text still has one (empty) line, so a
/// buffer read from any text satisfies the never-empty invariant.
pub open spec fn lines_of(s: Seq<char>) -> Seq<Seq<char>> {
    let acc = line_scan(s);
    if acc.0.len() == 0 || acc.1.len() > 0 {
        acc.0.push(acc.1)
    } else {
        acc.0
    }
}

/// The text denoted by a line sequence: every line followed by a newline.
pub open spec fn text_of(lines: Seq<Seq<char>>) -> Seq<char>
    decreases lines.len(),
{
    if lines.len() == 0 {
        Seq::<char>::empty()
    } else {
        text_of(lines.drop_last()) + lines.last() + seq!['\n']
    }
}

/// Whether no line of `lines` holds a newline character.
pub open spec fn line_has_no_newline(line: Seq<char>) -> bool {
    forall|j: int| 0 <= j < line.len() ==> #[trigger] line[j] != '\n'
}

/// Whether no line of `lines` holds a newline character.
pub open spec fn no_newlines(lines: Seq<Seq<char>>) -> bool {
    forall|i: int| 0 <= i < lines.len() ==> line_has_no_newline(#[trigger] lines[i])
}

/// Whether no line of `lines` ends in a carriage return. A trailing
/// carriage return would be read back as part of a line terminator.
pub open spec fn no_cr_line_ends(lines: Seq<Seq<char>>) -> bool {
    forall|i: int|
        0 <= i < lines.len() ==> (#[trigger] lines[i]).len() == 0 || lines[i].last() != '\r'
}

/// Splits a text into its lines, never yielding an empty line sequence.
pub fn split_lines(s: &str) -> (lines: Vec<String>)
    ensures
        views_of(lines@) == lines_of(s@),
        lines@.len() >= 1,
{
    let n = s.unicode_len();
    let mut lines: Vec<String> = Vec::new();
    let mut cur: String = String::new();
    let mut i: usize = 0;
    while i < n
        invariant
            i <= n,
            n == s@.len(),
            views_of(lines@) == line_scan(s@.subrange(0, i as int)).0,
            cur@ == line_scan(s@.subrange(0, i as int)).1,
        decreases n - i,
    {
        let c = s.get_char(i);
        proof {
            assert(s@.subrange(0, i + 1).drop_last() =~= s@.subrange(0, i as int));
            assert(s@.subrange(0, i + 1).last() == s@[i as int]);
        }
        if c == '\n' {
            let n_cur = cur.as_str().unicode_len();
            let finished = if n_cur > 0 && cur.as_str().get_char(n_cur - 1) == '\r' {
                copy_str(cur.as_str().substring_char(0, n_cur - 1))
            } else {
                cur
            };
            proof {
                assert(finished@ =~= strip_cr(line_scan(s@.subrange(0, i as int)).1));
            }
            lines.push(finished);
            cur = String::new();
            proof {
                assert(views_of(lines@) =~= line_scan(s@.subrange(0, i + 1)).0);
            }
        } else {
            push_char(&mut cur, c);
        }
        i = i + 1;
    }
    proof {
        assert(s@.subrange(0, n as int) =~= s@);
    }
    if lines.len() == 0 || cur.as_str().unicode_len() > 0 {
        lines.push(cur);
        proof {
            assert(views_of(lines@) =~= lines_of(s@));
        }
    }
    lines
}

/// Serializes a line sequence into one text, each line newline-terminated,
/// as the save command writes a buffer out.
pub fn join_lines(lines: &Vec<String>) -> (r: String)
    ensures
        r@ == text_of(views_of(lines@)),
{
    let mut r = String::new();
    let mut i: usize = 0;
    while i < lines.len()
        invariant
            i <= lines@.len(),
            r@ == text_of(views_of(lines@).subrange(0, i as int)),
        decreases lines@.len() - i,
    {
        r.append(lines[i].as_str());
        push_char(&mut r, '\n');
        proof {
            assert(views_of(lines@).subrange(0, i + 1).drop_last() =~= views_of(
                lines@,
            ).subrange(0, i as int));
            assert(views_of(lines@).subrange(0, i + 1).last() == lines@[i as int]@);
            assert(r@ =~= text_of(views_of(lines@).subrange(0, i + 1)));
        }
        i = i + 1;
    }
    proof {
        assert(views_of(lines@).subrange(0, lines@.len() as int) =~= views_of(lines@));
    }
    r
}

proof fn lemma_line_scan_no_newline_extend(s: Seq<char>, t: Seq<char>)
    requires
        line_has_no_newline(t),
    ensures
        line_scan(s + t) == (line_scan(s).0, line_scan(s).1 + t),
    decreases t.len(),
{
    if t.len() == 0 {
        assert(s + t =~= s);
        assert(line_scan(s).1 + t =~= line_scan(s).1);
    } else {
        let t0 = t.drop_last();
        assert(line_has_no_newline(t0));
        lemma_line_scan_no_newline_extend(s, t0);
        assert((s + t).drop_last() =~= s + t0);
        assert((s + t).last() == t.last());
        assert(line_scan(s).1 + t0 + seq![t.last()] =~= line_scan(s).1 + t);
    }
}

/// Writing a buffer out and reading the text back yields the original
/// lines: the round trip is exact for every non-empty, newline-free line
/// sequence whose lines do not end in a carriage return (one that does has
/// that carriage return read back as part of the line terminator).
pub proof fn lemma_lines_round_trip(lines: Seq<Seq<char>>)
    requires
        lines.len() >= 1,
        no_newlines(lines),
        no_cr_line_ends(lines),
    ensures
        lines_of(text_of(lines)) == lines,
{
    lemma_line_scan_of_text(lines);
    assert(lines_of(text_of(lines)) =~= lines);
}

proof fn lemma_line_scan_of_text(lines: Seq<Seq<char>>)
    requires
        no_newlines(lines),
        no_cr_line_ends(lines),
    ensures
        line_scan(text_of(lines)) == (lines, Seq::<char>::empty()),
    decreases lines.len(),
{
    if lines.len() == 0 {
        assert(text_of(lines) =~= Seq::<char>::empty());
        assert(line_scan(text_of(lines)).0 =~= lines);
    } else {
        let l0 = lines.drop_last();
        assert(no_newlines(l0));
        assert(no_cr_line_ends(l0));
        lemma_line_scan_of_text(l0);
        let body = text_of(l0) + lines.last();
        assert(line_has_no_newline(lines[lines.len() - 1]));
        lemma_line_scan_no_newline_extend(text_of(l0), lines.last());
        assert(line_scan(body) == (l0, Seq::<char>::empty() + lines.last()));
        assert(Seq::<char>::empty() + lines.last() =~= lines.last());
        let full = text_of(lines);
        assert(full =~= body + seq!['\n']);
        assert(full.drop_last() =~= body);
        assert(full.last() == '\n');
        assert(lines[lines.len() - 1].len() == 0 || lines[lines.len() - 1].last() != '\r');
        assert(strip_cr(lines.last()) == lines.last());
        assert(l0.push(lines.last()) =~= lines);
    }
}

proof fn lemma_line_scan_no_newlines(s: Seq<char>)
    ensures
        no_newlines(line_scan(s).0),
        line_has_no_newline(line_scan(s).1),
    decreases s.len(),
{
    if s.len() == 0 {
    } else {
        lemma_line_scan_no_newlines(s.drop_last());
        let acc = line_scan(s.drop_last());
        let c = s.last();
        if c == '\n' {
            assert(line_has_no_newline(strip_cr(acc.1)));
            assert forall|i: int|
                0 <= i < acc.0.push(strip_cr(acc.1)).len() implies line_has_no_newline(
                #[trigger] acc.0.push(strip_cr(acc.1))[i],
            ) by {
                if i < acc.0.len() {
                    assert(acc.0.push(strip_cr(acc.1))[i] == acc.0[i]);
                }
            }
        } else {
            assert(line_has_no_newline(acc.1.push(c)));
        }
    }
}

/// The lines of any text are newline-free, and there is at least one of them.
pub proof fn lemma_lines_of_no_newlines(s: Seq<char>)
    ensures
        no_newlines(lines_of(s)),
        lines_of(s).len() >= 1,
{
    lemma_line_scan_no_newlines(s);
    let acc = line_scan(s);
    if acc.0.len() == 0 || acc.1.len() > 0 {
        assert forall|i: int| 0 <= i < acc.0.push(acc.1).len() implies line_has_no_newline(
            #[trigger] acc.0.push(acc.1)[i],
        ) by {
            if i < acc.0.len() {
                assert(acc.0.push(acc.1)[i] == acc.0[i]);
            }
        }
    }
}

/// Whether `c` is a decimal digit.
pub open spec fn is_digit(c: char) -> bool {
    '0' as int <= c as int && c as int <= '9' as int
}

/// The value of the digit `c`.
pub open spec fn digit_of(c: char) -> int {
    c as int - '0' as int
}

/// Whether every character of `s` is a decimal digit.
pub open spec fn all_digits(s: Seq<char>) -> bool {
    forall|i: int| 0 <= i < s.len() ==> is_digit(s[i])
}

/// The number denoted by the digit sequence `s`.
pub open spec fn digits_val(s: Seq<char>) -> int
    decreases s.len(),
{
    if s.len() == 0 {
        0
    } else {
        digits_val(s.drop_last()) * 10 + digit_of(s.last())
    }
}

proof fn lemma_digits_val_nonneg(s: Seq<char>)
    requires
        all_digits(s),
    ensures
        digits_val(s) >= 0,
    decreases s.len(),
{
    if s.len() > 0 {
        assert(all_digits(s.drop_last()));
        lemma_digits_val_nonneg(s.drop_last());
    }
}

proof fn lemma_digits_val_prefix_le(s: Seq<char>, k: int)
    requires
        all_digits(s),
        0 <= k <= s.len(),
    ensures
        digits_val(s.subrange(0, k)) <= digits_val(s),
    decreases s.len() - k,
{
    if k < s.len() {
        lemma_digits_val_prefix_le(s, k + 1);
        let p = s.subrange(0, k + 1);
        assert(p.drop_last() =~= s.subrange(0, k));
        assert(all_digits(s.subrange(0, k)));
        lemma_digits_val_nonneg(s.subrange(0, k));
        assert(digits_val(p) == digits_val(s.subrange(0, k)) * 10 + digit_of(p.last()));
    } else {
        assert(s.subrange(0, k) =~= s);
    }
}

/// Parses `s` as a decimal number. Returns the value exactly when `s` is a
/// non-empty, all-digit string whose value fits in `usize`.
pub fn parse_usize(s: &str) -> (r: Option<usize>)
    ensures
        match r {
            Some(v) => s@.len() > 0 && all_digits(s@) && digits_val(s@) == v as int,
            None => s@.len() == 0 || !all_digits(s@) || digits_val(s@) > usize::MAX as int,
        },
{
    let n = s.unicode_len();
    if n == 0 {
        return None;
    }
    let mut acc: usize = 0;
    let mut i: usize = 0;
    while i < n
        invariant
            i <= n,
            n == s@.len(),
            all_digits(s@.subrange(0, i as int)),
            acc as int == digits_val(s@.subrange(0, i as int)),
        decreases n - i,
    {
        let c = s.get_char(i);
        let code = c as u32;
        proof {
            assert(s@.subrange(0, i + 1).drop_last() =~= s@.subrange(0, i as int));
            assert(s@.subrange(0, i + 1).last() == s@[i as int]);
        }
        if code < 48 || code > 57 {
            assert(!is_digit(s@[i as int]));
            return None;
        }
        let d = (code - 48) as usize;
        if acc > (usize::MAX - d) / 10 {
            proof {
                assert(all_digits(s@.subrange(0, i + 1)));
                assert(digits_val(s@.subrange(0, i + 1)) == acc * 10 + d);
                if all_digits(s@) {
                    lemma_digits_val_prefix_le(s@, i + 1);
                }
            }
            return None;
        }
        acc = acc * 10 + d;
        i = i + 1;
    }
    proof {
        assert(s@.subrange(0, n as int) =~= s@);
    }
    Some(acc)
}

/// The character for the digit `d`.
pub open spec fn digit_char(d: int) -> char {
    (48 + d) as char
}

/// The decimal notation of `n`.
pub open spec fn decimal_repr(n: nat) -> Seq<char>
    decreases n,
{
    if n < 10 {
        seq![digit_char(n as int)]
    } else {
        decimal_repr(n / 10).push(digit_char((n % 10) as int))
    }
}

/// Writes `n` in decimal notation.
pub fn usize_to_string(n: usize) -> (r: String)
    ensures
        r@ == decimal_repr(n as nat),
    decreases n,
{
    let d = ((n % 10) as u8 + 48) as char;
    if n < 10 {
        let mut s = String::new();
        push_char(&mut s, d);
        proof {
            assert(s@ =~= decimal_repr(n as nat));
        }
        s
    } else {
        let mut s = usize_to_string(n / 10);
        push_char(&mut s, d);
        s
    }
}

/// Number of digits in the decimal notation of `n`.
pub open spec fn spec_decimal_digits(n: nat) -> nat
    decreases n,
{
    if n < 10 {
        1
    } else {
        1 + spec_decimal_digits(n / 10)
    }
}

proof fn lemma_decimal_digits_le(n: nat)
    ensures
        n >= 1 ==> spec_decimal_digits(n) <= n,
    decreases n,
{
    if n >= 10 {
        lemma_decimal_digits_le(n / 10);
    }
}

/// Counts the decimal digits of `n`; the line-number gutter is this wide.
pub fn num_decimal_digits(n: usize) -> (d: usize)
    ensures
        d == spec_decimal_digits(n as nat),
{
    let mut d: usize = 1;
    let mut m: usize = n;
    while m >= 10
        invariant
            d >= 1,
            d - 1 + spec_decimal_digits(m as nat) == spec_decimal_digits(n as nat),
            m <= n,
        decreases m,
    {
        proof {
            lemma_decimal_digits_le(n as nat);
            assert(spec_decimal_digits(m as nat) == 1 + spec_decimal_digits(m as nat / 10));
        }
        d = d + 1;
        m = m / 10;
    }
    d
}

} // verus!
