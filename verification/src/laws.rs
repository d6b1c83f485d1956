//! The library's general laws, each proved once and for all inputs: cursor
//! placement under insertion, the save/read round trip, split/merge
//! restoration, one-level alias resolution, and the history recall cycle.

use vstd::prelude::*;

use crate::app::{resolved_args, resolved_com};
use crate::strutil::views_of;

verus! {

/// Typing puts each character exactly at the cursor: after an insertion at
/// column `x` the text before the new cursor position is the old prefix
/// followed by the typed character, so the cursor column always equals the
/// number of characters preceding it. The inserted character extends the
/// line by exactly one, at a character boundary by construction.
///
/// The line after the insertion is written as `Tab::insert_char` writes it.
pub proof fn lemma_insert_at_cursor(l: Seq<char>, x: int, c: char)
    requires
        0 <= x <= l.len(),
    ensures
        ({
            let nl = l.subrange(0, x) + seq![c] + l.subrange(x, l.len() as int);
            &&& nl.len() == l.len() + 1
            &&& nl.subrange(0, x + 1) == l.subrange(0, x) + seq![c]
            &&& nl.subrange(x + 1, nl.len() as int) == l.subrange(x, l.len() as int)
        }),
{
    let nl = l.subrange(0, x) + seq![c] + l.subrange(x, l.len() as int);
    assert(nl.subrange(0, x + 1) =~= l.subrange(0, x) + seq![c]);
    assert(nl.subrange(x + 1, nl.len() as int) =~= l.subrange(x, l.len() as int));
}

/// Splitting a line at the cursor and then backspacing at the start of the
/// new line restores the original buffer, and the merge puts the cursor
/// back at the split column: the column equals the length of the line the
/// cursor returns to.
///
/// The split buffer is written as `Tab::split_line` writes it, and the
/// merged buffer as `Tab::backspace` writes it for a cursor at column zero
/// of line `y + 1`.
pub proof fn lemma_split_then_merge(lines: Seq<Seq<char>>, y: int, x: int)
    requires
        0 <= y < lines.len(),
        0 <= x <= lines[y].len(),
    ensures
        ({
            let l = lines[y];
            let split = lines.update(y, l.subrange(0, x)).insert(
                y + 1,
                l.subrange(x, l.len() as int),
            );
            let merged = split.update(y, split[y] + split[y + 1]).remove(y + 1);
            &&& merged == lines
            &&& split[y].len() == x
        }),
{
    let l = lines[y];
    let split = lines.update(y, l.subrange(0, x)).insert(y + 1, l.subrange(x, l.len() as int));
    let merged = split.update(y, split[y] + split[y + 1]).remove(y + 1);
    assert(split[y] + split[y + 1] =~= l);
    assert(merged =~= lines);
}

/// Alias resolution is exactly one level deep: where the submitted name is
/// bound to a non-empty expansion, the dispatched command is the expansion's
/// first word as it stands — even if that word is itself an alias — and the
/// arguments are the expansion's tail followed by the submission's own
/// trailing tokens.
pub proof fn lemma_alias_single_level(
    al: Map<Seq<char>, Vec<String>>,
    toks: Seq<Seq<char>>,
    expansion: Vec<String>,
)
    requires
        toks.len() > 0,
        al.contains_key(toks[0]),
        al[toks[0]] == expansion,
        expansion@.len() > 0,
    ensures
        resolved_com(al, toks) == expansion@[0]@,
        resolved_args(al, toks) == views_of(expansion@).subrange(1, expansion@.len() as int)
            + toks.subrange(1, toks.len() as int),
        al.contains_key(expansion@[0]@) ==> resolved_com(al, toks) == expansion@[0]@,
{
}

/// The recall counter after `k` presses of "recall previous", starting from
/// `ctr`: each press moves one entry older, saturating at the oldest.
pub open spec fn recall_prev_steps(ctr: int, k: nat) -> int
    decreases k,
{
    if k == 0 {
        ctr
    } else {
        let p = recall_prev_steps(ctr, (k - 1) as nat);
        if p > 0 {
            p - 1
        } else {
            0
        }
    }
}

/// The recall counter after `k` presses of "recall next": each press moves
/// one entry newer, saturating one past the newest.
pub open spec fn recall_next_steps(ctr: int, len: int, k: nat) -> int
    decreases k,
{
    if k == 0 {
        ctr
    } else {
        let p = recall_next_steps(ctr, len, (k - 1) as nat);
        if p < len {
            p + 1
        } else {
            p
        }
    }
}

proof fn lemma_prev_steps_linear(ctr: int, k: nat)
    requires
        k <= ctr,
    ensures
        recall_prev_steps(ctr, k) == ctr - k,
    decreases k,
{
    if k > 0 {
        lemma_prev_steps_linear(ctr, (k - 1) as nat);
    }
}

proof fn lemma_next_steps_linear(len: int, k: nat)
    requires
        k <= len,
    ensures
        recall_next_steps(0, len, k) == k,
    decreases k,
{
    if k > 0 {
        lemma_next_steps_linear(len, (k - 1) as nat);
    }
}

/// After `n` submissions the recall counter stands at `n`, one past the
/// newest entry. Pressing "recall previous" `n` times walks it down to the
/// oldest entry, and pressing "recall next" `n` times walks it back to one
/// past the newest — where `App::history_recall_next` leaves the input line
/// empty. The counter steps here are exactly the ones those functions'
/// contracts state.
pub proof fn lemma_recall_round_trip(n: nat)
    ensures
        recall_prev_steps(n as int, n) == 0,
        recall_next_steps(0, n as int, n) == n as int,
{
    lemma_prev_steps_linear(n as int, n);
    lemma_next_steps_linear(n as int, n);
}

} // verus!
