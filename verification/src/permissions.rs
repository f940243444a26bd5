use vstd::prelude::*;

use crate::numbers::{octal_digits, octal_string, parse_unsigned, parse_unsigned_chars};
use crate::text::chars_of;
use vstd::string::StringSliceAdditionalSpecFns;

verus! {

/// Result of the permissions dialog: the new mode, and whether to apply it
/// to a directory's contents too.
#[derive(Debug, Clone, Copy, PartialEq, Eq, Structural)]
pub struct ChmodResult {
    pub mode: u32,
    pub recursive: bool,
}

/// The mode bit that the `r`, `w` or `x` at position `i` (0 to 8) of an
/// `rwxrwxrwx` string stands for.
pub open spec fn bit_at(i: int) -> u32 {
    if i == 0 {
        0o400
    } else if i == 1 {
        0o200
    } else if i == 2 {
        0o100
    } else if i == 3 {
        0o040
    } else if i == 4 {
        0o020
    } else if i == 5 {
        0o010
    } else if i == 6 {
        0o004
    } else if i == 7 {
        0o002
    } else {
        0o001
    }
}

/// The bit of `flag` at `bit`: the bit itself when set, else nothing.
pub open spec fn when(flag: bool, bit: u32) -> u32 {
    if flag {
        bit
    } else {
        0
    }
}

/// The mode that the nine characters `r[0..9]` of an `ls -l` permission
/// string give: `r`, `w` and `x` (`s` for the owner and group execute
/// positions, `t` for the others' execute position) set their bit.
pub open spec fn rwx_mode(r: Seq<u8>) -> u32 {
    when(r[0] == 0x72, 0o400) | when(r[1] == 0x77, 0o200) | when(
        r[2] == 0x78 || r[2] == 0x73,
        0o100,
    ) | when(r[3] == 0x72, 0o040) | when(r[4] == 0x77, 0o020) | when(
        r[5] == 0x78 || r[5] == 0x73,
        0o010,
    ) | when(r[6] == 0x72, 0o004) | when(r[7] == 0x77, 0o002) | when(
        r[8] == 0x78 || r[8] == 0x74,
        0o001,
    )
}

/// The mode a permission string denotes.
///
/// An empty string gives `644`. An octal number gives its permission bits
/// (file type bits dropped: `100644` gives `644`). Otherwise the string is
/// read as `rwx` text over its bytes: a ten-byte one (as in FTP listings)
/// without its leading file type character, a longer one by its first nine
/// bytes; anything shorter gives `644`.
pub open spec fn permissions_mode(chars: Seq<char>, bytes: Seq<u8>) -> u32 {
    if chars.len() == 0 {
        0o644
    } else {
        match parse_unsigned(chars, 8, u32::MAX as nat) {
            Some(m) => (m as u32) & 0o7777,
            None => if bytes.len() == 10 {
                rwx_mode(bytes.skip(1))
            } else if bytes.len() >= 9 {
                rwx_mode(bytes.take(9))
            } else {
                0o644
            },
        }
    }
}

/// The nine bits of an `rwx` text, each from its own position only.
proof fn lemma_rwx_bits(
    b0: bool,
    b1: bool,
    b2: bool,
    b3: bool,
    b4: bool,
    b5: bool,
    b6: bool,
    b7: bool,
    b8: bool,
) by (bit_vector)
    ensures
        ({
            let m = when(b0, 0o400) | when(b1, 0o200) | when(b2, 0o100) | when(b3, 0o040) | when(
                b4,
                0o020,
            ) | when(b5, 0o010) | when(b6, 0o004) | when(b7, 0o002) | when(b8, 0o001);
            &&& (m & 0o400 != 0) == b0
            &&& (m & 0o200 != 0) == b1
            &&& (m & 0o100 != 0) == b2
            &&& (m & 0o040 != 0) == b3
            &&& (m & 0o020 != 0) == b4
            &&& (m & 0o010 != 0) == b5
            &&& (m & 0o004 != 0) == b6
            &&& (m & 0o002 != 0) == b7
            &&& (m & 0o001 != 0) == b8
            &&& m & !0o777u32 == 0
        }),
{
}

/// An `ls`-style permission text (nine bytes, or ten with a leading file
/// type character, not starting with a digit or `+`) gives a mode whose
/// bits each come from one position: the owner, group and others' read,
/// write and execute bits are set exactly when their position holds `r`,
/// `w` and `x` (or `s` for the owner and group execute positions, `t` for
/// the others'); no other bit is set.
pub proof fn law_rwx_positions(chars: Seq<char>, bytes: Seq<u8>)
    requires
        chars.len() > 0,
        chars[0] != '+',
        !(48 <= (chars[0] as u32) < 56),
        bytes.len() >= 9,
    ensures
        ({
            let m = permissions_mode(chars, bytes);
            let o: int = if bytes.len() == 10 {
                1
            } else {
                0
            };
            &&& (m & 0o400 != 0) == (bytes[o] == 0x72)
            &&& (m & 0o200 != 0) == (bytes[o + 1] == 0x77)
            &&& (m & 0o100 != 0) == (bytes[o + 2] == 0x78 || bytes[o + 2] == 0x73)
            &&& (m & 0o040 != 0) == (bytes[o + 3] == 0x72)
            &&& (m & 0o020 != 0) == (bytes[o + 4] == 0x77)
            &&& (m & 0o010 != 0) == (bytes[o + 5] == 0x78 || bytes[o + 5] == 0x73)
            &&& (m & 0o004 != 0) == (bytes[o + 6] == 0x72)
            &&& (m & 0o002 != 0) == (bytes[o + 7] == 0x77)
            &&& (m & 0o001 != 0) == (bytes[o + 8] == 0x78 || bytes[o + 8] == 0x74)
            &&& m & !0o777u32 == 0
        }),
{
    assert(crate::numbers::unsigned_digits(chars) == chars);
    assert(!crate::numbers::is_digit_in(chars[0], 8));
    assert(parse_unsigned(chars, 8, u32::MAX as nat) is None);
    let o: int = if bytes.len() == 10 {
        1
    } else {
        0
    };
    let r = if bytes.len() == 10 {
        bytes.skip(1)
    } else {
        bytes.take(9)
    };
    assert(forall|i: int| 0 <= i < 9 ==> r[i] == bytes[o + i]);
    lemma_rwx_bits(
        r[0] == 0x72,
        r[1] == 0x77,
        r[2] == 0x78 || r[2] == 0x73,
        r[3] == 0x72,
        r[4] == 0x77,
        r[5] == 0x78 || r[5] == 0x73,
        r[6] == 0x72,
        r[7] == 0x77,
        r[8] == 0x78 || r[8] == 0x74,
    );
}

/// The mode of the nine `rwx` bytes `b[off..off + 9]`.
fn rwx_mode_at(b: &[u8], off: usize) -> (m: u32)
    requires
        off + 9 <= b@.len(),
    ensures
        m == rwx_mode(b@.subrange(off as int, off + 9)),
{
    let ghost r = b@.subrange(off as int, off + 9);
    assert(forall|i: int| 0 <= i < 9 ==> r[i] == b@[off + i]);
    let mut mode: u32 = 0;
    mode = mode | if b[off] == 0x72u8 { 0o400 } else { 0 };
    mode = mode | if b[off + 1] == 0x77u8 { 0o200 } else { 0 };
    mode = mode | if b[off + 2] == 0x78u8 || b[off + 2] == 0x73u8 { 0o100 } else { 0 };
    mode = mode | if b[off + 3] == 0x72u8 { 0o040 } else { 0 };
    mode = mode | if b[off + 4] == 0x77u8 { 0o020 } else { 0 };
    mode = mode | if b[off + 5] == 0x78u8 || b[off + 5] == 0x73u8 { 0o010 } else { 0 };
    mode = mode | if b[off + 6] == 0x72u8 { 0o004 } else { 0 };
    mode = mode | if b[off + 7] == 0x77u8 { 0o002 } else { 0 };
    mode = mode | if b[off + 8] == 0x78u8 || b[off + 8] == 0x74u8 { 0o001 } else { 0 };
    assert(0u32 | when(r[0] == 0x72, 0o400) == when(r[0] == 0x72, 0o400)) by (bit_vector);
    mode
}

/// Parses a permission string into an octal mode value. Handles both octal
/// strings (`755`) and `rwx` strings (`rwxr-xr-x`, `drwxr-xr-x`).
pub fn parse_permissions(perms: &str) -> (mode: u32)
    ensures
        mode == permissions_mode(perms@, perms.spec_bytes()),
{
    if perms.is_empty() {
        return 0o644;
    }
    let chars = chars_of(perms);
    match parse_unsigned_chars(&chars, 8, 0xffff_ffff) {
        Some(m) => {
            let m32: u32 = m as u32;
            return m32 & 0o7777;
        },
        None => {},
    }
    let b = perms.as_bytes();
    if b.len() == 10 {
        let m = rwx_mode_at(b, 1);
        assert(b@.subrange(1, 10) =~= b@.skip(1));
        m
    } else if b.len() >= 9 {
        let m = rwx_mode_at(b, 0);
        assert(b@.subrange(0, 9) =~= b@.take(9));
        m
    } else {
        0o644
    }
}

/// The mode that a number typed in octal denotes (what
/// `u32::from_str_radix(text, 8)` accepts).
pub fn parse_octal(text: &str) -> (r: Option<u32>)
    ensures
        match r {
            Some(m) => parse_unsigned(text@, 8, u32::MAX as nat) == Some(m as nat),
            None => parse_unsigned(text@, 8, u32::MAX as nat) is None,
        },
{
    let chars = chars_of(text);
    match parse_unsigned_chars(&chars, 8, 0xffff_ffff) {
        Some(m) => Some(m as u32),
        None => None,
    }
}

/// The octal text shown for a mode.
pub fn mode_text(mode: u32) -> (s: String)
    ensures
        s@ == octal_digits(mode as nat),
{
    octal_string(mode as u64)
}

/// The permission column of a local file: the octal digits of its mode's
/// permission bits (file type bits dropped).
pub fn permission_bits_text(mode: u32) -> (s: String)
    ensures
        s@ == octal_digits((mode & 0o7777) as nat),
{
    octal_string((mode & 0o7777) as u64)
}

/// The nine permission bits in the order of the dialog's check boxes:
/// owner, group and others, each read, write and execute.
pub open spec fn checkbox_bit(i: int) -> u32 {
    bit_at(i)
}

/// Whether check box `i` is ticked for `mode`.
pub open spec fn checkbox_state(mode: u32, i: int) -> bool {
    mode & checkbox_bit(i) != 0
}

/// The mode that ticked check boxes give: the union of their bits.
pub open spec fn checks_mode(c: Seq<bool>) -> u32 {
    when(c[0], 0o400) | when(c[1], 0o200) | when(c[2], 0o100) | when(c[3], 0o040) | when(
        c[4],
        0o020,
    ) | when(c[5], 0o010) | when(c[6], 0o004) | when(c[7], 0o002) | when(c[8], 0o001)
}

/// The mode the ticked check boxes stand for.
pub fn mode_from_checks(checks: &Vec<bool>) -> (mode: u32)
    requires
        checks@.len() == 9,
    ensures
        mode == checks_mode(checks@),
{
    let mut mode: u32 = 0;
    mode = mode | if checks[0] { 0o400 } else { 0 };
    mode = mode | if checks[1] { 0o200 } else { 0 };
    mode = mode | if checks[2] { 0o100 } else { 0 };
    mode = mode | if checks[3] { 0o040 } else { 0 };
    mode = mode | if checks[4] { 0o020 } else { 0 };
    mode = mode | if checks[5] { 0o010 } else { 0 };
    mode = mode | if checks[6] { 0o004 } else { 0 };
    mode = mode | if checks[7] { 0o002 } else { 0 };
    mode = mode | if checks[8] { 0o001 } else { 0 };
    let ghost c = checks@;
    assert(0u32 | when(c[0], 0o400) == when(c[0], 0o400)) by (bit_vector);
    mode
}

/// The check box states for `mode`.
pub fn checks_for_mode(mode: u32) -> (c: Vec<bool>)
    ensures
        c@.len() == 9,
        forall|i: int| 0 <= i < 9 ==> c@[i] == checkbox_state(mode, i),
{
    let c = vec![
        mode & 0o400 != 0,
        mode & 0o200 != 0,
        mode & 0o100 != 0,
        mode & 0o040 != 0,
        mode & 0o020 != 0,
        mode & 0o010 != 0,
        mode & 0o004 != 0,
        mode & 0o002 != 0,
        mode & 0o001 != 0,
    ];
    c
}

/// The check box states to show after the numeric entry changed to `text`:
/// none when the text is no octal mode of at most `7777`.
pub fn checks_for_entry(text: &str) -> (r: Option<Vec<bool>>)
    ensures
        match r {
            Some(c) => exists|m: nat|
                parse_unsigned(text@, 8, u32::MAX as nat) == Some(m) && m <= 0o7777 && c@.len()
                    == 9 && forall|i: int| 0 <= i < 9 ==> c@[i] == checkbox_state(m as u32, i),
            None => match parse_unsigned(text@, 8, u32::MAX as nat) {
                Some(m) => m > 0o7777,
                None => true,
            },
        },
{
    match parse_octal(text) {
        Some(m) => if m <= 0o7777 {
            Some(checks_for_mode(m))
        } else {
            None
        },
        None => None,
    }
}

/// The answer of the permissions dialog: when applied with an octal mode
/// in the entry, that mode and the recursion choice; nothing otherwise.
pub fn chmod_result(applied: bool, text: &str, recursive: bool) -> (r: Option<ChmodResult>)
    ensures
        match r {
            Some(res) => applied && parse_unsigned(text@, 8, u32::MAX as nat) == Some(
                res.mode as nat,
            ) && res.recursive == recursive,
            None => !applied || parse_unsigned(text@, 8, u32::MAX as nat) is None,
        },
{
    if !applied {
        return None;
    }
    match parse_octal(text) {
        Some(mode) => Some(ChmodResult { mode, recursive }),
        None => None,
    }
}

/// Reading the check boxes of a mode gives back its nine permission bits.
pub proof fn law_checks_round_trip(mode: u32)
    ensures
        checks_mode(
            seq![
                checkbox_state(mode, 0),
                checkbox_state(mode, 1),
                checkbox_state(mode, 2),
                checkbox_state(mode, 3),
                checkbox_state(mode, 4),
                checkbox_state(mode, 5),
                checkbox_state(mode, 6),
                checkbox_state(mode, 7),
                checkbox_state(mode, 8),
            ],
        ) == mode & 0o777,
{
    assert((if mode & 0o400 != 0 { 0o400u32 } else { 0 }) | (if mode & 0o200 != 0 {
        0o200u32
    } else {
        0
    }) | (if mode & 0o100 != 0 { 0o100u32 } else { 0 }) | (if mode & 0o040 != 0 {
        0o040u32
    } else {
        0
    }) | (if mode & 0o020 != 0 { 0o020u32 } else { 0 }) | (if mode & 0o010 != 0 {
        0o010u32
    } else {
        0
    }) | (if mode & 0o004 != 0 { 0o004u32 } else { 0 }) | (if mode & 0o002 != 0 {
        0o002u32
    } else {
        0
    }) | (if mode & 0o001 != 0 { 0o001u32 } else { 0 }) == mode & 0o777) by (bit_vector);
}

/// Parsing the octal text of a mode gives back its permission bits.
pub proof fn law_mode_text_round_trip(mode: u32)
    ensures
        permissions_mode(octal_digits(mode as nat), Seq::empty()) == mode & 0o7777,
{
    crate::numbers::law_octal_round_trip(mode as nat, u32::MAX as nat);
    crate::numbers::lemma_octal_digits(mode as nat);
}

} // verus!
