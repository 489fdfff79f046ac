//! Laws of the resolver and the sequencer, stated and proved once for all
//! inputs: how the fixed ranges resolve whatever the host lookup would
//! say, when the fallback table decides, and how many commit keystrokes a
//! plan holds.

use vstd::prelude::*;

use crate::keys::VK_RETURN;
use crate::keys::VK_SPACE;
use crate::keys::VK_TAB;
use crate::plan::SETTLE_DELAY_MS;
use crate::plan::Step;
use crate::plan::body_steps_spec;
use crate::plan::char_steps_spec;
use crate::plan::commit_steps_spec;
use crate::plan::has_chars;
use crate::plan::lead_steps_spec;
use crate::plan::line_steps_spec;
use crate::plan::plan_spec;
use crate::plan::press;
use crate::plan::release;
use crate::plan::split_lines_spec;
use crate::resolver::ResolvedKey;
use crate::resolver::direct_key_spec;
use crate::resolver::fallback_key_spec;
use crate::resolver::resolve_spec;

verus! {

/// A lowercase ASCII letter always resolves to the code of its uppercase
/// form, unshifted, whatever the host lookup would have answered.
pub proof fn lemma_resolve_lowercase(c: char, scan: u16)
    requires
        0x61 <= c as u32 <= 0x7A,
    ensures
        resolve_spec(c, scan) == (ResolvedKey { code: ((c as u32) - 0x20) as u8, shift: false }),
{
}

/// An uppercase ASCII letter always resolves to its own code, shifted.
pub proof fn lemma_resolve_uppercase(c: char, scan: u16)
    requires
        0x41 <= c as u32 <= 0x5A,
    ensures
        resolve_spec(c, scan) == (ResolvedKey { code: c as u8, shift: true }),
{
}

/// An ASCII digit always resolves to its own code, unshifted.
pub proof fn lemma_resolve_digit(c: char, scan: u16)
    requires
        0x30 <= c as u32 <= 0x39,
    ensures
        resolve_spec(c, scan) == (ResolvedKey { code: c as u8, shift: false }),
{
}

/// Space, newline and tab always resolve to their fixed codes, unshifted.
pub proof fn lemma_resolve_whitespace(scan: u16)
    ensures
        resolve_spec(' ', scan) == (ResolvedKey { code: VK_SPACE, shift: false }),
        resolve_spec('\n', scan) == (ResolvedKey { code: VK_RETURN, shift: false }),
        resolve_spec('\t', scan) == (ResolvedKey { code: VK_TAB, shift: false }),
{
}

/// When the host lookup resolves nothing (the low byte of its answer is
/// zero), a character outside the direct ranges resolves exactly as the
/// fixed fallback table says.
pub proof fn lemma_resolve_fallback(c: char, scan: u16)
    requires
        scan & 0xFF == 0,
        direct_key_spec(c).is_none(),
    ensures
        resolve_spec(c, scan) == fallback_key_spec(c),
{
}

/// Whether a step is a press of the commit key.
pub open spec fn is_commit_press(s: Step) -> bool {
    s == press(VK_RETURN)
}

/// How many steps of `s` press the commit key.
pub open spec fn commit_press_count(s: Seq<Step>) -> nat
    decreases s.len(),
{
    if s.len() == 0 {
        0
    } else {
        commit_press_count(s.drop_last()) + (if is_commit_press(s.last()) {
            1nat
        } else {
            0nat
        })
    }
}

/// Commit presses add up over concatenation.
pub proof fn lemma_commit_press_count_concat(a: Seq<Step>, b: Seq<Step>)
    ensures
        commit_press_count(a + b) == commit_press_count(a) + commit_press_count(b),
    decreases b.len(),
{
    if b.len() == 0 {
        assert(a + b =~= a);
    } else {
        lemma_commit_press_count_concat(a, b.drop_last());
        assert((a + b).drop_last() =~= a + b.drop_last());
        assert((a + b).last() == b.last());
    }
}

/// A sequence with no commit press has a count of zero.
pub proof fn lemma_commit_press_count_zero(s: Seq<Step>)
    requires
        forall|i: int| 0 <= i < s.len() ==> !is_commit_press(s[i]),
    ensures
        commit_press_count(s) == 0,
    decreases s.len(),
{
    if s.len() > 0 {
        lemma_commit_press_count_zero(s.drop_last());
        assert(!is_commit_press(s.last()));
    }
}

/// The steps of one character press the commit key never, as long as the
/// character did not resolve to the commit key itself.
pub proof fn lemma_char_steps_no_commit(k: ResolvedKey)
    requires
        k.code != VK_RETURN,
    ensures
        commit_press_count(char_steps_spec(k)) == 0,
{
    let s = char_steps_spec(k);
    assert(forall|i: int| 0 <= i < s.len() ==> !is_commit_press(s[i]));
    lemma_commit_press_count_zero(s);
}

/// True when no key of the line is the commit key.
pub open spec fn line_avoids_commit_key(keys: Seq<ResolvedKey>) -> bool {
    forall|j: int| 0 <= j < keys.len() ==> keys[j].code != VK_RETURN
}

/// True when no key of any line is the commit key.
pub open spec fn lines_avoid_commit_key(lines: Seq<Seq<ResolvedKey>>) -> bool {
    forall|i: int| 0 <= i < lines.len() ==> line_avoids_commit_key(lines[i])
}

/// The steps of a whole line press the commit key never, as long as none
/// of its keys is the commit key.
pub proof fn lemma_line_steps_no_commit(keys: Seq<ResolvedKey>)
    requires
        line_avoids_commit_key(keys),
    ensures
        commit_press_count(line_steps_spec(keys)) == 0,
    decreases keys.len(),
{
    if keys.len() > 0 {
        lemma_line_steps_no_commit(keys.drop_last());
        lemma_char_steps_no_commit(keys.last());
        lemma_commit_press_count_concat(
            line_steps_spec(keys.drop_last()),
            char_steps_spec(keys.last()),
        );
    }
}

/// The commit keystroke presses the commit key exactly once.
pub proof fn lemma_commit_steps_count()
    ensures
        commit_press_count(commit_steps_spec()) == 1,
{
    reveal_with_fuel(commit_press_count, 4);
    let s = commit_steps_spec();
    assert(s.drop_last() =~= seq![press(VK_RETURN), release(VK_RETURN)]);
    assert(s.drop_last().drop_last() =~= seq![press(VK_RETURN)]);
    assert(s.drop_last().drop_last().drop_last() =~= Seq::<Step>::empty());
}

/// The steps of `n` lines each followed by a commit keystroke press the
/// commit key exactly `n` times.
pub proof fn lemma_lead_steps_count(lines: Seq<Seq<ResolvedKey>>)
    requires
        lines_avoid_commit_key(lines),
    ensures
        commit_press_count(lead_steps_spec(lines)) == lines.len(),
    decreases lines.len(),
{
    if lines.len() > 0 {
        assert(lines_avoid_commit_key(lines.drop_last()));
        lemma_lead_steps_count(lines.drop_last());
        assert(line_avoids_commit_key(lines.last()));
        lemma_line_steps_no_commit(lines.last());
        lemma_commit_steps_count();
        lemma_commit_press_count_concat(
            lead_steps_spec(lines.drop_last()),
            line_steps_spec(lines.last()),
        );
        lemma_commit_press_count_concat(
            lead_steps_spec(lines.drop_last()) + line_steps_spec(lines.last()),
            commit_steps_spec(),
        );
    }
}

/// Joining `n` line segments produces exactly `n - 1` commit keystrokes:
/// none for a single segment, one between each consecutive pair. Holds
/// whenever no character of the text resolved to the commit key itself
/// (a newline is split away and never resolved, but the host lookup could
/// map some other character, such as a carriage return, onto that key).
pub proof fn lemma_plan_commit_count(lines: Seq<Seq<ResolvedKey>>)
    requires
        lines.len() >= 1,
        lines_avoid_commit_key(lines),
    ensures
        commit_press_count(plan_spec(lines)) == lines.len() - 1,
{
    assert(lines_avoid_commit_key(lines.drop_last()));
    lemma_lead_steps_count(lines.drop_last());
    assert(line_avoids_commit_key(lines.last()));
    lemma_line_steps_no_commit(lines.last());
    lemma_commit_press_count_concat(
        lead_steps_spec(lines.drop_last()),
        line_steps_spec(lines.last()),
    );
    if has_chars(lines) {
        lemma_commit_press_count_concat(
            seq![Step::Wait(SETTLE_DELAY_MS)],
            body_steps_spec(lines),
        );
        lemma_commit_press_count_zero(seq![Step::Wait(SETTLE_DELAY_MS)]);
    }
}

/// How many characters of `t` are newlines.
pub open spec fn newline_count(t: Seq<char>) -> nat
    decreases t.len(),
{
    if t.len() == 0 {
        0
    } else {
        newline_count(t.drop_last()) + (if t.last() == '\n' {
            1nat
        } else {
            0nat
        })
    }
}

/// Splitting on newlines yields one segment more than the text has
/// newline characters: one segment for a text without any, three for a
/// text with two.
pub proof fn lemma_split_segment_count(t: Seq<char>)
    ensures
        split_lines_spec(t).len() == newline_count(t) + 1,
    decreases t.len(),
{
    if t.len() > 0 {
        lemma_split_segment_count(t.drop_last());
    }
}

/// An empty text splits into a single empty line, and a text of empty
/// lines only plans to its commit keystrokes alone; in particular the
/// empty text itself plans to no steps at all.
pub proof fn lemma_empty_text_plan()
    ensures
        split_lines_spec(Seq::<char>::empty()) == seq![Seq::<char>::empty()],
        plan_spec(seq![Seq::<ResolvedKey>::empty()]) == Seq::<Step>::empty(),
{
    let lines = seq![Seq::<ResolvedKey>::empty()];
    assert(forall|i: int| 0 <= i < lines.len() ==> lines[i].len() == 0);
    assert(!has_chars(lines));
    assert(lines.drop_last() =~= Seq::<Seq<ResolvedKey>>::empty());
    assert(lines.last().len() == 0);
    assert(plan_spec(lines) =~= Seq::<Step>::empty());
}

} // verus!
