//! UTF-16 encoding for OS calls, and the mount-point reparse record.
//!
//! The OS interfaces this tool drives take wide (UTF-16) strings, and the
//! proxy link is a directory junction whose reparse record is a small
//! wide-character structure laid out by hand.

use crate::text::concat2;
use vstd::prelude::*;

verus! {

/// UTF-16 code units of one character: the code point itself below
/// `0x10000`, else a surrogate pair.
pub open spec fn utf16_char(c: char) -> Seq<u16> {
    if (c as u32) < 0x10000 {
        seq![(c as u32) as u16]
    } else {
        seq![
            (0xd800 + (c as u32 - 0x10000) / 0x400) as u16,
            (0xdc00 + (c as u32 - 0x10000) % 0x400) as u16,
        ]
    }
}

/// UTF-16 code units of a whole string.
pub open spec fn utf16(s: Seq<char>) -> Seq<u16>
    decreases s.len(),
{
    if s.len() == 0 {
        Seq::empty()
    } else {
        utf16(s.drop_last()) + utf16_char(s.last())
    }
}

/// UTF-16 code units of `value`, without a terminator.
#[verifier::loop_isolation(false)]
pub fn utf16_units(value: &str) -> (r: Vec<u16>)
    ensures
        r@ == utf16(value@),
{
    let n = value.unicode_len();
    let mut r: Vec<u16> = Vec::new();
    proof {
        assert(value@.take(0) =~= Seq::<char>::empty());
    }
    let mut i: usize = 0;
    while i < n
        invariant
            i <= n,
            r@ == utf16(value@.take(i as int)),
        decreases n - i,
    {
        let c = value.get_char(i);
        proof {
            assert(value@.take(i + 1).drop_last() =~= value@.take(i as int));
            assert(value@.take(i + 1).last() == c);
        }
        let cv = c as u32;
        if cv < 0x10000 {
            r.push(cv as u16);
        } else {
            let v = cv - 0x10000;
            r.push((0xd800 + v / 0x400) as u16);
            r.push((0xdc00 + v % 0x400) as u16);
        }
        i = i + 1;
    }
    proof {
        assert(value@.take(n as int) =~= value@);
    }
    r
}

/// We have to encode text to wide format for the OS: the UTF-16 code
/// units of `value` followed by a nul terminator.
pub fn win32_string(value: &str) -> (r: Vec<u16>)
    ensures
        r@ == utf16(value@).push(0u16),
{
    let mut r = utf16_units(value);
    r.push(0);
    r
}

/// The mount-point reparse record for a junction whose substitute name is
/// `name` (wide, without terminator): reparse tag `0xA0000003`, record
/// length, a zero substitute-name offset, the substitute-name byte length,
/// the print-name offset right after the name's terminator, an empty print
/// name, then the name itself and two terminators.
pub open spec fn reparse_record(name: Seq<u16>) -> Seq<u16> {
    seq![
        0x0003u16,
        0xa000u16,
        (2 * name.len() + 12) as u16,
        0u16,
        0u16,
        (2 * name.len()) as u16,
        (2 * name.len() + 2) as u16,
        0u16,
    ] + name + seq![0u16, 0u16]
}

/// Builds the reparse record that turns a directory into a junction onto
/// `target`: the substitute name is `target` under the `\??\` NT prefix.
/// Yields nothing when the name is too long for the record's 16-bit
/// length fields.
#[verifier::loop_isolation(false)]
pub fn mount_point_reparse_data(target: &str) -> (r: Option<Vec<u16>>)
    ensures
        match r {
            Some(v) => 2 * utf16("\\??\\"@ + target@).len() + 12 <= 0xffff && v@ == reparse_record(
                utf16("\\??\\"@ + target@),
            ),
            None => 2 * utf16("\\??\\"@ + target@).len() + 12 > 0xffff,
        },
{
    let prefixed = concat2("\\??\\", target);
    let name = utf16_units(prefixed.as_str());
    if name.len() > (0xffff - 12) / 2 {
        return None;
    }
    let byte_len: u16 = (name.len() * 2) as u16;
    let mut r: Vec<u16> = Vec::new();
    r.push(0x0003);
    r.push(0xa000);
    r.push(byte_len + 12);
    r.push(0);
    r.push(0);
    r.push(byte_len);
    r.push(byte_len + 2);
    r.push(0);
    let ghost header = r@;
    let mut j: usize = 0;
    let n = name.len();
    proof {
        assert(r@ =~= header + name@.take(0));
    }
    while j < n
        invariant
            j <= n,
            r@ == header + name@.take(j as int),
        decreases n - j,
    {
        r.push(name[j]);
        proof {
            assert(r@ =~= header + name@.take(j + 1));
        }
        j = j + 1;
    }
    proof {
        assert(name@.take(n as int) =~= name@);
    }
    r.push(0);
    r.push(0);
    proof {
        assert(r@ =~= reparse_record(name@));
    }
    Some(r)
}

} // verus!
