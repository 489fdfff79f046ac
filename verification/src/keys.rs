//! Virtual-key codes for the keys the resolver can produce, as the target
//! operating system's keyboard abstraction numbers them.

use vstd::prelude::*;

verus! {

/// Modifier key held to shift a base key.
pub const VK_SHIFT: u8 = 0x10;
/// The line-commit ("Enter") key.
pub const VK_RETURN: u8 = 0x0D;
/// The space bar.
pub const VK_SPACE: u8 = 0x20;
/// The tab key.
pub const VK_TAB: u8 = 0x09;

/// The digit-row keys `0` through `9` carry their ASCII codes.
pub const VK_0: u8 = 0x30;
pub const VK_1: u8 = 0x31;
pub const VK_2: u8 = 0x32;
pub const VK_3: u8 = 0x33;
pub const VK_4: u8 = 0x34;
pub const VK_5: u8 = 0x35;
pub const VK_6: u8 = 0x36;
pub const VK_7: u8 = 0x37;
pub const VK_8: u8 = 0x38;
pub const VK_9: u8 = 0x39;

/// Punctuation keys of the standard layout.
pub const VK_OEM_1: u8 = 0xBA;
pub const VK_OEM_PLUS: u8 = 0xBB;
pub const VK_OEM_COMMA: u8 = 0xBC;
pub const VK_OEM_MINUS: u8 = 0xBD;
pub const VK_OEM_PERIOD: u8 = 0xBE;
pub const VK_OEM_2: u8 = 0xBF;
pub const VK_OEM_3: u8 = 0xC0;
pub const VK_OEM_4: u8 = 0xDB;
pub const VK_OEM_5: u8 = 0xDC;
pub const VK_OEM_6: u8 = 0xDD;
pub const VK_OEM_7: u8 = 0xDE;

} // verus!
