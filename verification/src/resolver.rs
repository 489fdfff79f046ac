//! Key resolver: maps one character to the key that produces it and the
//! shift state required, totally over all Unicode scalar values.
//!
//! Common ranges (ASCII letters, digits, space, newline, tab) resolve
//! directly. Any other character is resolved from the answer of the host's
//! locale-aware lookup, which the caller obtains and passes in as `scan`:
//! a nonzero low byte is the key code, bit eight the shift state. When the
//! lookup found nothing (low byte zero), a fixed table of common punctuation
//! decides, and as a last resort the character's low-order byte stands in as
//! the key code.

use vstd::prelude::*;

use crate::keys::VK_0;
use crate::keys::VK_1;
use crate::keys::VK_2;
use crate::keys::VK_3;
use crate::keys::VK_4;
use crate::keys::VK_5;
use crate::keys::VK_6;
use crate::keys::VK_7;
use crate::keys::VK_8;
use crate::keys::VK_9;
use crate::keys::VK_OEM_1;
use crate::keys::VK_OEM_2;
use crate::keys::VK_OEM_3;
use crate::keys::VK_OEM_4;
use crate::keys::VK_OEM_5;
use crate::keys::VK_OEM_6;
use crate::keys::VK_OEM_7;
use crate::keys::VK_OEM_COMMA;
use crate::keys::VK_OEM_MINUS;
use crate::keys::VK_OEM_PERIOD;
use crate::keys::VK_OEM_PLUS;
use crate::keys::VK_RETURN;
use crate::keys::VK_SPACE;
use crate::keys::VK_TAB;

verus! {

/// How to reproduce one character: tap the key `code`, holding shift
/// while doing so when `shift` is set.
#[derive(Clone, Copy, PartialEq, Eq, Structural, Debug)]
pub struct ResolvedKey {
    pub code: u8,
    pub shift: bool,
}

/// The characters the resolver maps without consulting the host's lookup:
/// ASCII letters, digits, space, newline and tab. A lowercase letter uses
/// the code of its uppercase form unshifted; an uppercase letter its own
/// code shifted; digits and the three whitespace characters their fixed
/// codes unshifted.
pub open spec fn direct_key_spec(c: char) -> Option<ResolvedKey> {
    let n = c as u32;
    if 0x61 <= n && n <= 0x7A {
        Some(ResolvedKey { code: (n - 0x20) as u8, shift: false })
    } else if 0x41 <= n && n <= 0x5A {
        Some(ResolvedKey { code: n as u8, shift: true })
    } else if 0x30 <= n && n <= 0x39 {
        Some(ResolvedKey { code: n as u8, shift: false })
    } else if c == ' ' {
        Some(ResolvedKey { code: VK_SPACE, shift: false })
    } else if c == '\n' {
        Some(ResolvedKey { code: VK_RETURN, shift: false })
    } else if c == '\t' {
        Some(ResolvedKey { code: VK_TAB, shift: false })
    } else {
        None
    }
}

/// The fixed punctuation table used when the host's lookup resolves
/// nothing. Digit-row symbols reuse the digit key shifted, as on the
/// standard layout; any character outside the table degrades to its
/// low-order byte, unshifted.
pub open spec fn fallback_key_spec(c: char) -> ResolvedKey {
    if c == '.' {
        ResolvedKey { code: VK_OEM_PERIOD, shift: false }
    } else if c == ',' {
        ResolvedKey { code: VK_OEM_COMMA, shift: false }
    } else if c == '!' {
        ResolvedKey { code: VK_1, shift: true }
    } else if c == '@' {
        ResolvedKey { code: VK_2, shift: true }
    } else if c == '#' {
        ResolvedKey { code: VK_3, shift: true }
    } else if c == '$' {
        ResolvedKey { code: VK_4, shift: true }
    } else if c == '%' {
        ResolvedKey { code: VK_5, shift: true }
    } else if c == '^' {
        ResolvedKey { code: VK_6, shift: true }
    } else if c == '&' {
        ResolvedKey { code: VK_7, shift: true }
    } else if c == '*' {
        ResolvedKey { code: VK_8, shift: true }
    } else if c == '(' {
        ResolvedKey { code: VK_9, shift: true }
    } else if c == ')' {
        ResolvedKey { code: VK_0, shift: true }
    } else if c == '-' {
        ResolvedKey { code: VK_OEM_MINUS, shift: false }
    } else if c == '=' {
        ResolvedKey { code: VK_OEM_PLUS, shift: false }
    } else if c == '[' {
        ResolvedKey { code: VK_OEM_4, shift: false }
    } else if c == ']' {
        ResolvedKey { code: VK_OEM_6, shift: false }
    } else if c == '\\' {
        ResolvedKey { code: VK_OEM_5, shift: false }
    } else if c == ';' {
        ResolvedKey { code: VK_OEM_1, shift: false }
    } else if c == '\'' {
        ResolvedKey { code: VK_OEM_7, shift: false }
    } else if c == '/' {
        ResolvedKey { code: VK_OEM_2, shift: false }
    } else if c == '`' {
        ResolvedKey { code: VK_OEM_3, shift: false }
    } else {
        ResolvedKey { code: ((c as u32) % 0x100) as u8, shift: false }
    }
}

/// Full resolution of one character given `scan`, the host's locale-aware
/// answer for it (ignored for directly mapped characters). The low byte of
/// `scan` is the key code it found, zero meaning unresolved; bit eight is
/// the shift state it reported.
pub open spec fn resolve_spec(c: char, scan: u16) -> ResolvedKey {
    match direct_key_spec(c) {
        Some(k) => k,
        None => {
            let vkey = (scan & 0xFF) as u8;
            if vkey != 0 {
                ResolvedKey { code: vkey, shift: (scan & 0x100) != 0 }
            } else {
                fallback_key_spec(c)
            }
        },
    }
}

/// Resolves the characters that need no host lookup; `None` asks the
/// caller to consult the lookup and use `resolve`.
pub fn direct_key(c: char) -> (r: Option<ResolvedKey>)
    ensures
        r == direct_key_spec(c),
{
    let n = c as u32;
    if 0x61 <= n && n <= 0x7A {
        Some(ResolvedKey { code: (n - 0x20) as u8, shift: false })
    } else if 0x41 <= n && n <= 0x5A {
        Some(ResolvedKey { code: n as u8, shift: true })
    } else if 0x30 <= n && n <= 0x39 {
        Some(ResolvedKey { code: n as u8, shift: false })
    } else if c == ' ' {
        Some(ResolvedKey { code: VK_SPACE, shift: false })
    } else if c == '\n' {
        Some(ResolvedKey { code: VK_RETURN, shift: false })
    } else if c == '\t' {
        Some(ResolvedKey { code: VK_TAB, shift: false })
    } else {
        None
    }
}

/// True when resolving `c` consults the host's locale-aware lookup.
pub fn needs_scan(c: char) -> (b: bool)
    ensures
        b == direct_key_spec(c).is_none(),
{
    direct_key(c).is_none()
}

/// The fixed punctuation table, with the low-order-byte degradation for
/// characters it does not cover.
pub fn fallback_key(c: char) -> (r: ResolvedKey)
    ensures
        r == fallback_key_spec(c),
{
    if c == '.' {
        ResolvedKey { code: VK_OEM_PERIOD, shift: false }
    } else if c == ',' {
        ResolvedKey { code: VK_OEM_COMMA, shift: false }
    } else if c == '!' {
        ResolvedKey { code: VK_1, shift: true }
    } else if c == '@' {
        ResolvedKey { code: VK_2, shift: true }
    } else if c == '#' {
        ResolvedKey { code: VK_3, shift: true }
    } else if c == '$' {
        ResolvedKey { code: VK_4, shift: true }
    } else if c == '%' {
        ResolvedKey { code: VK_5, shift: true }
    } else if c == '^' {
        ResolvedKey { code: VK_6, shift: true }
    } else if c == '&' {
        ResolvedKey { code: VK_7, shift: true }
    } else if c == '*' {
        ResolvedKey { code: VK_8, shift: true }
    } else if c == '(' {
        ResolvedKey { code: VK_9, shift: true }
    } else if c == ')' {
        ResolvedKey { code: VK_0, shift: true }
    } else if c == '-' {
        ResolvedKey { code: VK_OEM_MINUS, shift: false }
    } else if c == '=' {
        ResolvedKey { code: VK_OEM_PLUS, shift: false }
    } else if c == '[' {
        ResolvedKey { code: VK_OEM_4, shift: false }
    } else if c == ']' {
        ResolvedKey { code: VK_OEM_6, shift: false }
    } else if c == '\\' {
        ResolvedKey { code: VK_OEM_5, shift: false }
    } else if c == ';' {
        ResolvedKey { code: VK_OEM_1, shift: false }
    } else if c == '\'' {
        ResolvedKey { code: VK_OEM_7, shift: false }
    } else if c == '/' {
        ResolvedKey { code: VK_OEM_2, shift: false }
    } else if c == '`' {
        ResolvedKey { code: VK_OEM_3, shift: false }
    } else {
        ResolvedKey { code: ((c as u32) % 0x100) as u8, shift: false }
    }
}

/// Resolves one character, `scan` being the host lookup's answer for it
/// (any value will do for directly mapped characters, which ignore it).
pub fn resolve(c: char, scan: u16) -> (r: ResolvedKey)
    ensures
        r == resolve_spec(c, scan),
{
    match direct_key(c) {
        Some(k) => k,
        None => {
            proof {
                assert((scan & 0xFF) < 0x100) by (bit_vector);
            }
            let vkey = (scan & 0xFF) as u8;
            if vkey != 0 {
                ResolvedKey { code: vkey, shift: (scan & 0x100) != 0 }
            } else {
                fallback_key(c)
            }
        },
    }
}

/// Resolves a line of characters element by element; `scans[i]` is the
/// host lookup's answer for `chars[i]` (ignored for directly mapped
/// characters).
pub fn resolve_line(chars: &Vec<char>, scans: &Vec<u16>) -> (r: Vec<ResolvedKey>)
    requires
        chars@.len() == scans@.len(),
    ensures
        r@.len() == chars@.len(),
        forall|i: int| 0 <= i < r@.len() ==> r@[i] == resolve_spec(chars@[i], scans@[i]),
{
    let mut out: Vec<ResolvedKey> = Vec::new();
    let mut i: usize = 0;
    while i < chars.len()
        invariant
            i <= chars@.len(),
            chars@.len() == scans@.len(),
            out@.len() == i,
            forall|j: int| 0 <= j < i ==> out@[j] == resolve_spec(chars@[j], scans@[j]),
        decreases chars@.len() - i,
    {
        out.push(resolve(chars[i], scans[i]));
        i += 1;
    }
    out
}

} // verus!
