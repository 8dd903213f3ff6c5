//! The privilege gate: whether the process holds the capability to
//! administer the network.

use crate::platform::{current_gid, current_uid};
use crate::text::{
    chars_of, find, find_from, has_prefix, parse_unsigned, part_of, scan, scan_from, starts_with,
    unsigned_value,
};
use vstd::prelude::*;

verus! {

/// The number of the capability to administer the network.
pub const CAP_NET_ADMIN: u64 = 12;

/// The mask of that capability in a set of capabilities.
pub const CAP_NET_ADMIN_MASK: u64 = 0x1000;

/// Whether a set of capabilities holds the one to administer the network.
pub open spec fn holds_net_admin(caps: u64) -> bool {
    caps & CAP_NET_ADMIN_MASK != 0
}

/// The mask is the bit of the capability's number.
pub proof fn lemma_net_admin_mask()
    ensures
        CAP_NET_ADMIN_MASK == 1u64 << CAP_NET_ADMIN,
{
    assert(0x1000u64 == 1u64 << 12u64) by (bit_vector);
}

/// The second word of a line, words being separated by white space.
pub open spec fn second_word(line: Seq<char>) -> Option<Seq<char>> {
    let first = scan(line, 0, false);
    let gap = scan(line, first, true);
    let start = scan(line, gap, false);
    let end = scan(line, start, true);
    if start < line.len() {
        Some(line.subrange(start, end))
    } else {
        None
    }
}

/// The set of effective capabilities that a line of the process status
/// gives: the line starts with `CapEff:` and its second word is a number
/// in base 16 that fits 64 bits.
pub open spec fn line_caps(line: Seq<char>) -> Option<u64> {
    if has_prefix(line, "CapEff:"@) {
        match second_word(line) {
            Some(word) => match unsigned_value(word, 16, u64::MAX as nat) {
                Some(v) => Some(v as u64),
                None => None,
            },
            None => None,
        }
    } else {
        None
    }
}

/// What the first line at or after `from` that gives a set of effective
/// capabilities gives. Lines end at a line feed; a carriage return before
/// it counts as white space.
pub open spec fn caps_from(status: Seq<char>, from: int) -> Option<u64>
    decreases status.len() - from,
{
    if from < 0 || from >= status.len() {
        None
    } else {
        let end = find(status, from, '\n');
        match line_caps(status.subrange(from, end)) {
            Some(caps) => Some(caps),
            None => if from <= end < status.len() {
                caps_from(status, end + 1)
            } else {
                None
            },
        }
    }
}

/// The effective capabilities that a process status text reports.
pub open spec fn effective_caps(status: Seq<char>) -> Option<u64> {
    caps_from(status, 0)
}

/// Whether the process may administer the network: by its effective
/// capabilities where the status reports them, else by being root.
pub open spec fn privileged(status: Option<Seq<char>>, uid: u32) -> bool {
    match status {
        Some(text) => match effective_caps(text) {
            Some(caps) => holds_net_admin(caps),
            None => uid == 0,
        },
        None => uid == 0,
    }
}

fn caps_of_line(line: &Vec<char>, prefix: &Vec<char>) -> (out: Option<u64>)
    requires
        prefix@ == "CapEff:"@,
    ensures
        out == line_caps(line@),
{
    assert(line@.subrange(0, line@.len() as int) == line@);
    if !starts_with(line, 0, line.len(), prefix) {
        return None;
    }
    let first: usize = scan_from(line, 0, false);
    let gap: usize = scan_from(line, first, true);
    let start: usize = scan_from(line, gap, false);
    let end: usize = scan_from(line, start, true);
    if start >= line.len() {
        return None;
    }
    parse_unsigned(line, start, end, 16, u64::MAX)
}

/// Reads the effective capabilities from the text of the process status
/// file.
pub fn parse_effective_caps(status: &str) -> (out: Option<u64>)
    ensures
        out == effective_caps(status@),
{
    let chars = chars_of(status);
    let prefix = chars_of("CapEff:");
    let mut from: usize = 0;
    while from < chars.len()
        invariant
            from <= chars.len(),
            chars@ == status@,
            prefix@ == "CapEff:"@,
            effective_caps(status@) == caps_from(chars@, from as int),
        decreases chars.len() - from,
    {
        let end: usize = find_from(&chars, from, '\n');
        let line = part_of(&chars, from, end);
        match caps_of_line(&line, &prefix) {
            Some(caps) => {
                return Some(caps);
            },
            None => {},
        }
        if end >= chars.len() {
            return None;
        }
        from = end + 1;
    }
    None
}

/// Whether the process holds the capability to administer the network.
///
/// `status` is the text of the process status file where it could be
/// read. Where it reports effective capabilities they decide; else a user
/// id of 0 is taken as sufficient.
pub fn check_capabilities(status: Option<&str>, uid: u32) -> (held: bool)
    ensures
        held == privileged(
            match status {
                Some(text) => Some(text@),
                None => None,
            },
            uid,
        ),
{
    let caps: Option<u64> = match status {
        Some(text) => parse_effective_caps(text),
        None => None,
    };
    match caps {
        Some(c) => c & CAP_NET_ADMIN_MASK != 0,
        None => uid == 0,
    }
}

/// Who runs the process: the ids that a new tap is given where none are
/// asked for, and by which root is known.
#[derive(Clone, Copy, Debug, PartialEq, Eq, Structural)]
pub struct Caller {
    pub uid: u32,
    pub gid: u32,
}

impl Caller {
    /// The ids of the calling process.
    pub fn current() -> Caller {
        Caller { uid: current_uid(), gid: current_gid() }
    }
}

} // verus!
