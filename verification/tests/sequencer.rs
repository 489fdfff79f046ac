use keyboard_inject::plan::KeyEvent;
use keyboard_inject::plan::Phase;
use keyboard_inject::plan::Step;
use keyboard_inject::plan::plan_keys;
use keyboard_inject::plan::split_lines;
use keyboard_inject::resolver::ResolvedKey;
use keyboard_inject::resolver::resolve_line;

fn press(code: u8) -> Step {
    Step::Key(KeyEvent { code, phase: Phase::Press })
}

fn release(code: u8) -> Step {
    Step::Key(KeyEvent { code, phase: Phase::Release })
}

/// Splits `text` and resolves every character, answering `0` for the host
/// lookup, as a test double without a host: the direct ranges ignore the
/// answer and everything else lands in the fallback table.
fn resolve_text(text: &str) -> Vec<Vec<ResolvedKey>> {
    let chars: Vec<char> = text.chars().collect();
    let mut lines = Vec::new();
    for line in split_lines(&chars) {
        let scans: Vec<u16> = line.iter().map(|_| 0).collect();
        lines.push(resolve_line(&line, &scans));
    }
    lines
}

fn commit_presses(plan: &[Step]) -> usize {
    plan.iter()
        .filter(|s| matches!(s, Step::Key(KeyEvent { code: 0x0D, phase: Phase::Press })))
        .count()
}

#[test]
fn split_keeps_empty_segments() {
    let chars: Vec<char> = "a\nb".chars().collect();
    assert_eq!(split_lines(&chars), vec![vec!['a'], vec!['b']]);

    let chars: Vec<char> = "\n".chars().collect();
    assert_eq!(split_lines(&chars), vec![Vec::new(), Vec::new()]);

    let chars: Vec<char> = "a\n".chars().collect();
    assert_eq!(split_lines(&chars), vec![vec!['a'], Vec::new()]);

    let chars: Vec<char> = Vec::new();
    assert_eq!(split_lines(&chars), vec![Vec::<char>::new()]);
}

#[test]
fn hi_bang_plans_to_the_exact_event_stream() {
    let plan = plan_keys(&resolve_text("Hi!"));
    assert_eq!(
        plan,
        vec![
            Step::Wait(50),
            // 'H': uppercase, shifted.
            press(0x10),
            press(0x48),
            release(0x48),
            release(0x10),
            Step::Wait(1),
            // 'i': lowercase, the uppercase code unshifted.
            press(0x49),
            release(0x49),
            Step::Wait(1),
            // '!': the digit-one key, shifted.
            press(0x10),
            press(0x31),
            release(0x31),
            release(0x10),
            Step::Wait(1),
        ]
    );
    // Three characters, no commit keystroke for a single line.
    assert_eq!(commit_presses(&plan), 0);
}

#[test]
fn empty_text_plans_to_no_steps() {
    let plan = plan_keys(&resolve_text(""));
    assert_eq!(plan, Vec::new());
    assert_eq!(commit_presses(&plan), 0);
}

#[test]
fn commit_count_is_segments_minus_one() {
    assert_eq!(commit_presses(&plan_keys(&resolve_text("abc"))), 0);
    assert_eq!(commit_presses(&plan_keys(&resolve_text("a\nb\nc"))), 2);
    assert_eq!(commit_presses(&plan_keys(&resolve_text("x\n\ny"))), 2);
    assert_eq!(commit_presses(&plan_keys(&resolve_text("\n"))), 1);
}

#[test]
fn two_lines_commit_between_not_after() {
    let plan = plan_keys(&resolve_text("a\nb"));
    assert_eq!(
        plan,
        vec![
            Step::Wait(50),
            press(0x41),
            release(0x41),
            Step::Wait(1),
            press(0x0D),
            release(0x0D),
            Step::Wait(10),
            press(0x42),
            release(0x42),
            Step::Wait(1),
        ]
    );
}

#[test]
fn empty_line_adds_only_the_commit_keystroke() {
    let plan = plan_keys(&resolve_text("\na"));
    assert_eq!(
        plan,
        vec![
            Step::Wait(50),
            press(0x0D),
            release(0x0D),
            Step::Wait(10),
            press(0x41),
            release(0x41),
            Step::Wait(1),
        ]
    );
}

#[test]
fn text_of_empty_lines_has_no_settle_delay() {
    let plan = plan_keys(&resolve_text("\n\n"));
    assert_eq!(
        plan,
        vec![
            press(0x0D),
            release(0x0D),
            Step::Wait(10),
            press(0x0D),
            release(0x0D),
            Step::Wait(10),
        ]
    );
}
