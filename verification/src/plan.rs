//! Event sequencer: turns resolved text into the exact stream of key
//! events and delays that reproduces it as typing.
//!
//! The plan for a text is: one settle delay if any character is to be
//! typed; then each line's characters, a shifted character bracketed by a
//! press and release of the shift key, every character followed by a short
//! delay; and between consecutive lines (never after the last) a tap of
//! the commit key followed by its own delay. The caller replays the steps
//! in order against the host's injection primitive.

use vstd::prelude::*;

use crate::keys::VK_RETURN;
use crate::keys::VK_SHIFT;
use crate::resolver::ResolvedKey;

verus! {

/// Whether a key event pushes the key down or lets it up.
#[derive(Clone, Copy, PartialEq, Eq, Structural, Debug)]
pub enum Phase {
    Press,
    Release,
}

/// One hardware-level key event: a key, pressed or released.
#[derive(Clone, Copy, PartialEq, Eq, Structural, Debug)]
pub struct KeyEvent {
    pub code: u8,
    pub phase: Phase,
}

/// One step of a replay plan: emit a key event, or wait the given number
/// of milliseconds.
#[derive(Clone, Copy, PartialEq, Eq, Structural, Debug)]
pub enum Step {
    Key(KeyEvent),
    Wait(u64),
}

/// Delay before the first character of the text, letting the host route
/// input to the intended foreground target.
pub const SETTLE_DELAY_MS: u64 = 50;

/// Delay after each character, avoiding event coalescing in the receiver.
pub const INTER_CHAR_DELAY_MS: u64 = 1;

/// Delay after the commit keystroke between lines.
pub const INTER_LINE_DELAY_MS: u64 = 10;

/// The event pressing `code`.
pub open spec fn press(code: u8) -> Step {
    Step::Key(KeyEvent { code, phase: Phase::Press })
}

/// The event releasing `code`.
pub open spec fn release(code: u8) -> Step {
    Step::Key(KeyEvent { code, phase: Phase::Release })
}

/// The steps for one character: its key pressed then released, bracketed
/// by a press and release of shift when required, then the inter-character
/// delay.
pub open spec fn char_steps_spec(k: ResolvedKey) -> Seq<Step> {
    if k.shift {
        seq![
            press(VK_SHIFT),
            press(k.code),
            release(k.code),
            release(VK_SHIFT),
            Step::Wait(INTER_CHAR_DELAY_MS),
        ]
    } else {
        seq![press(k.code), release(k.code), Step::Wait(INTER_CHAR_DELAY_MS)]
    }
}

/// The steps for one line: its characters in order. An empty line
/// produces no steps.
pub open spec fn line_steps_spec(keys: Seq<ResolvedKey>) -> Seq<Step>
    decreases keys.len(),
{
    if keys.len() == 0 {
        Seq::empty()
    } else {
        line_steps_spec(keys.drop_last()) + char_steps_spec(keys.last())
    }
}

/// The commit keystroke separating two lines: the commit key tapped, then
/// the inter-line delay.
pub open spec fn commit_steps_spec() -> Seq<Step> {
    seq![press(VK_RETURN), release(VK_RETURN), Step::Wait(INTER_LINE_DELAY_MS)]
}

/// The steps for every line of `lines`, each line followed by a commit
/// keystroke.
pub open spec fn lead_steps_spec(lines: Seq<Seq<ResolvedKey>>) -> Seq<Step>
    decreases lines.len(),
{
    if lines.len() == 0 {
        Seq::empty()
    } else {
        lead_steps_spec(lines.drop_last()) + line_steps_spec(lines.last()) + commit_steps_spec()
    }
}

/// The steps for all lines in order, a commit keystroke between
/// consecutive lines and none after the last.
pub open spec fn body_steps_spec(lines: Seq<Seq<ResolvedKey>>) -> Seq<Step>
    decreases lines.len(),
{
    if lines.len() == 0 {
        Seq::empty()
    } else {
        lead_steps_spec(lines.drop_last()) + line_steps_spec(lines.last())
    }
}

/// True when some line has a character, so the plan types something.
pub open spec fn has_chars(lines: Seq<Seq<ResolvedKey>>) -> bool {
    exists|i: int| 0 <= i < lines.len() && lines[i].len() > 0
}

/// The whole plan for a text resolved into `lines`: the settle delay
/// before the first character when there is one, then the lines with
/// commit keystrokes between them.
pub open spec fn plan_spec(lines: Seq<Seq<ResolvedKey>>) -> Seq<Step> {
    if has_chars(lines) {
        seq![Step::Wait(SETTLE_DELAY_MS)] + body_steps_spec(lines)
    } else {
        body_steps_spec(lines)
    }
}

/// The view of a vector of lines as a sequence of sequences.
pub open spec fn lines_view(lines: Seq<Vec<ResolvedKey>>) -> Seq<Seq<ResolvedKey>> {
    lines.map_values(|l: Vec<ResolvedKey>| l@)
}

/// The segments of `t` between newline characters, in order: always at
/// least one, an empty text being one empty segment, and a newline at
/// either end or two in a row contributing an empty segment.
pub open spec fn split_lines_spec(t: Seq<char>) -> Seq<Seq<char>>
    decreases t.len(),
{
    if t.len() == 0 {
        seq![Seq::<char>::empty()]
    } else if t.last() == '\n' {
        split_lines_spec(t.drop_last()).push(Seq::empty())
    } else {
        let s = split_lines_spec(t.drop_last());
        s.update(s.len() - 1, s.last().push(t.last()))
    }
}

/// The view of a vector of character lines as a sequence of sequences.
pub open spec fn char_lines_view(lines: Seq<Vec<char>>) -> Seq<Seq<char>> {
    lines.map_values(|l: Vec<char>| l@)
}

/// Splits a text into its lines on the newline character.
pub fn split_lines(text: &Vec<char>) -> (r: Vec<Vec<char>>)
    ensures
        char_lines_view(r@) == split_lines_spec(text@),
        r@.len() >= 1,
{
    let mut out: Vec<Vec<char>> = Vec::new();
    let mut cur: Vec<char> = Vec::new();
    let mut i: usize = 0;
    while i < text.len()
        invariant
            i <= text@.len(),
            split_lines_spec(text@.take(i as int)) == char_lines_view(out@).push(cur@),
        decreases text@.len() - i,
    {
        proof {
            assert(text@.take(i + 1 as int).drop_last() =~= text@.take(i as int));
            assert(text@.take(i + 1 as int).last() == text@[i as int]);
        }
        let c = text[i];
        if c == '\n' {
            let ghost prev_out = out@;
            let ghost prev_cur = cur@;
            out.push(cur);
            cur = Vec::new();
            proof {
                assert(char_lines_view(out@).push(cur@) =~= char_lines_view(prev_out).push(
                    prev_cur,
                ).push(Seq::<char>::empty()));
            }
        } else {
            let ghost s = char_lines_view(out@).push(cur@);
            cur.push(c);
            proof {
                assert(char_lines_view(out@).push(cur@) =~= s.update(
                    s.len() - 1,
                    s.last().push(c),
                ));
            }
        }
        i += 1;
    }
    proof {
        assert(text@.take(text@.len() as int) =~= text@);
    }
    let ghost fin_out = out@;
    let ghost fin_cur = cur@;
    out.push(cur);
    proof {
        assert(char_lines_view(out@) =~= char_lines_view(fin_out).push(fin_cur));
    }
    out
}

/// Appends the steps for one character.
fn push_char_steps(steps: &mut Vec<Step>, k: ResolvedKey)
    ensures
        final(steps)@ == old(steps)@ + char_steps_spec(k),
{
    if k.shift {
        steps.push(press_step(VK_SHIFT));
        steps.push(press_step(k.code));
        steps.push(release_step(k.code));
        steps.push(release_step(VK_SHIFT));
        steps.push(Step::Wait(INTER_CHAR_DELAY_MS));
    } else {
        steps.push(press_step(k.code));
        steps.push(release_step(k.code));
        steps.push(Step::Wait(INTER_CHAR_DELAY_MS));
    }
    proof {
        assert(steps@ =~= old(steps)@ + char_steps_spec(k));
    }
}

/// The event pressing `code`, as a value.
fn press_step(code: u8) -> (r: Step)
    ensures
        r == press(code),
{
    Step::Key(KeyEvent { code, phase: Phase::Press })
}

/// The event releasing `code`, as a value.
fn release_step(code: u8) -> (r: Step)
    ensures
        r == release(code),
{
    Step::Key(KeyEvent { code, phase: Phase::Release })
}

/// Appends the steps of one line: each character in order.
fn push_line_steps(steps: &mut Vec<Step>, keys: &Vec<ResolvedKey>)
    ensures
        final(steps)@ == old(steps)@ + line_steps_spec(keys@),
{
    let mut j: usize = 0;
    while j < keys.len()
        invariant
            j <= keys@.len(),
            steps@ == old(steps)@ + line_steps_spec(keys@.take(j as int)),
        decreases keys@.len() - j,
    {
        push_char_steps(steps, keys[j]);
        proof {
            assert(keys@.take(j + 1 as int).drop_last() =~= keys@.take(j as int));
            assert(keys@.take(j + 1 as int).last() == keys@[j as int]);
        }
        j += 1;
    }
    proof {
        assert(keys@.take(keys@.len() as int) =~= keys@);
    }
}

/// Appends the commit keystroke and its delay.
fn push_commit_steps(steps: &mut Vec<Step>)
    ensures
        final(steps)@ == old(steps)@ + commit_steps_spec(),
{
    steps.push(press_step(VK_RETURN));
    steps.push(release_step(VK_RETURN));
    steps.push(Step::Wait(INTER_LINE_DELAY_MS));
    proof {
        assert(steps@ =~= old(steps)@ + commit_steps_spec());
    }
}

/// True when some line of `lines` is nonempty.
fn any_line_nonempty(lines: &Vec<Vec<ResolvedKey>>) -> (b: bool)
    ensures
        b == has_chars(lines_view(lines@)),
{
    let mut i: usize = 0;
    while i < lines.len()
        invariant
            i <= lines@.len(),
            forall|j: int| 0 <= j < i ==> lines_view(lines@)[j].len() == 0,
        decreases lines@.len() - i,
    {
        if lines[i].len() > 0 {
            proof {
                assert(lines_view(lines@)[i as int].len() > 0);
            }
            return true;
        }
        i += 1;
    }
    false
}

/// Builds the whole replay plan for a text resolved into `lines`.
pub fn plan_keys(lines: &Vec<Vec<ResolvedKey>>) -> (r: Vec<Step>)
    ensures
        r@ == plan_spec(lines_view(lines@)),
{
    let ghost view = lines_view(lines@);
    let mut steps: Vec<Step> = Vec::new();
    if any_line_nonempty(lines) {
        steps.push(Step::Wait(SETTLE_DELAY_MS));
    }
    let ghost prefix = steps@;
    let n = lines.len();
    let mut i: usize = 0;
    while i < n
        invariant
            n == lines@.len(),
            i <= n,
            n == 0 ==> steps@ == prefix,
            i < n ==> steps@ == prefix + lead_steps_spec(view.take(i as int)),
            i == n && n > 0 ==> steps@ == prefix + body_steps_spec(view),
            view == lines_view(lines@),
            prefix == if has_chars(view) { seq![Step::Wait(SETTLE_DELAY_MS)] } else {
                Seq::<Step>::empty()
            },
        decreases n - i,
    {
        push_line_steps(&mut steps, &lines[i]);
        proof {
            assert(view[i as int] == lines@[i as int]@);
        }
        if i + 1 < n {
            push_commit_steps(&mut steps);
            proof {
                assert(view.take(i + 1 as int).drop_last() =~= view.take(i as int));
                assert(view.take(i + 1 as int).last() == view[i as int]);
            }
        } else {
            proof {
                assert(view.take(i as int) =~= view.drop_last());
                assert(view.last() == view[i as int]);
            }
        }
        i += 1;
    }
    proof {
        if n == 0 {
            assert(steps@ =~= prefix);
            assert(body_steps_spec(view) =~= Seq::<Step>::empty());
        }
        assert(steps@ =~= plan_spec(view));
    }
    steps
}

} // verus!
