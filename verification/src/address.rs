//! IPv4 addresses in CIDR notation and the network mask of a prefix.

use crate::text::{chars_of, parse_unsigned, part_of, pieces, split_bounds, unsigned_value};
use vstd::prelude::*;

verus! {

/// An IPv4 address or mask: its four octets in network order, so that
/// `192.168.1.1` is `a = 192, b = 168, c = 1, d = 1`.
#[derive(Clone, Copy, Debug, PartialEq, Eq, Structural)]
pub struct Ipv4 {
    pub a: u8,
    pub b: u8,
    pub c: u8,
    pub d: u8,
}

/// Why a text is no address in CIDR notation.
#[derive(Clone, Copy, Debug, PartialEq, Eq, Structural)]
pub enum CidrError {
    /// Not exactly one `/`.
    NotCidr,
    /// What follows the `/` is no number from 0 to 32.
    BadPrefix,
    /// A part of the address is no number from 0 to 255.
    BadOctet,
    /// The address does not have four parts.
    BadAddress,
}

/// The longest prefix of an IPv4 address.
pub const MAX_PREFIX: u32 = 32;

/// The network mask of a prefix length as a 32-bit number: the `prefix`
/// most significant bits set.
pub open spec fn mask_bits(prefix: u32) -> u32 {
    if prefix == 0 {
        0
    } else {
        0xFFFF_FFFFu32 << ((32 - prefix) as u32)
    }
}

/// The four octets of a 32-bit number, most significant first.
pub open spec fn octets_of(bits: u32) -> Ipv4 {
    Ipv4 {
        a: ((bits >> 24) & 0xff) as u8,
        b: ((bits >> 16) & 0xff) as u8,
        c: ((bits >> 8) & 0xff) as u8,
        d: (bits & 0xff) as u8,
    }
}

/// The network mask of a prefix length.
pub open spec fn mask_of(prefix: u32) -> Ipv4 {
    octets_of(mask_bits(prefix))
}

/// The mask of a prefix has its `prefix` leading bits set and the others
/// clear: as a number it is 2^32 - 2^(32 - prefix).
pub proof fn lemma_mask_value(prefix: u32)
    requires
        prefix <= MAX_PREFIX,
    ensures
        mask_bits(prefix) as u64 == 0x1_0000_0000u64 - (1u64 << ((32 - prefix) as u64)),
        prefix == 0 ==> mask_bits(prefix) == 0,
        prefix == 32 ==> mask_bits(prefix) == 0xFFFF_FFFFu32,
{
    if prefix > 0 {
        let shift: u32 = (32 - prefix) as u32;
        assert((0xFFFF_FFFFu32 << shift) as u64 == 0x1_0000_0000u64 - (1u64 << (shift as u64)))
            by (bit_vector)
            requires
                shift < 32,
        ;
        assert(0xFFFF_FFFFu32 << 0u32 == 0xFFFF_FFFFu32) by (bit_vector);
    } else {
        assert(1u64 << 32u64 == 0x1_0000_0000u64) by (bit_vector);
    }
}

/// The network mask of a prefix length as a 32-bit number.
pub fn netmask_bits(prefix: u32) -> (bits: u32)
    requires
        prefix <= MAX_PREFIX,
    ensures
        bits == mask_bits(prefix),
{
    if prefix == 0 {
        0
    } else {
        0xFFFF_FFFFu32 << (32 - prefix)
    }
}

/// The four octets of a 32-bit number, most significant first.
pub fn octets(bits: u32) -> (out: Ipv4)
    ensures
        out == octets_of(bits),
{
    assert((bits >> 24) & 0xff < 256 && (bits >> 16) & 0xff < 256 && (bits >> 8) & 0xff < 256 && bits
        & 0xff < 256) by (bit_vector);
    Ipv4 {
        a: ((bits >> 24) & 0xff) as u8,
        b: ((bits >> 16) & 0xff) as u8,
        c: ((bits >> 8) & 0xff) as u8,
        d: (bits & 0xff) as u8,
    }
}

/// The network mask of a prefix length.
pub fn netmask(prefix: u32) -> (mask: Ipv4)
    requires
        prefix <= MAX_PREFIX,
    ensures
        mask == mask_of(prefix),
{
    octets(netmask_bits(prefix))
}

/// An address with its prefix length, at most 32.
#[derive(Clone, Copy, Debug)]
pub struct Cidr {
    address: Ipv4,
    prefix: u32,
}

/// The index of the first part at or after `from` that is no octet; the
/// number of parts where all are.
pub open spec fn first_bad_octet(parts: Seq<Seq<char>>, from: int) -> int
    decreases parts.len() - from,
{
    if from < 0 || from >= parts.len() {
        parts.len() as int
    } else if unsigned_value(parts[from], 10, 255) is None {
        from
    } else {
        first_bad_octet(parts, from + 1)
    }
}

/// What a text in CIDR notation denotes: the address and the prefix
/// length, or the first fault found. The text is cut at `/` into address
/// and prefix; the prefix is judged first, then each part of the address
/// between dots, then the number of parts.
pub open spec fn cidr_value(s: Seq<char>) -> Result<(Ipv4, u32), CidrError> {
    let halves = pieces(s, 0, '/');
    if halves.len() != 2 {
        Err(CidrError::NotCidr)
    } else {
        let parts = pieces(halves[0], 0, '.');
        match unsigned_value(halves[1], 10, MAX_PREFIX as nat) {
            None => Err(CidrError::BadPrefix),
            Some(prefix) => if first_bad_octet(parts, 0) < parts.len() {
                Err(CidrError::BadOctet)
            } else if parts.len() != 4 {
                Err(CidrError::BadAddress)
            } else {
                Ok(
                    (
                        Ipv4 {
                            a: unsigned_value(parts[0], 10, 255)->0 as u8,
                            b: unsigned_value(parts[1], 10, 255)->0 as u8,
                            c: unsigned_value(parts[2], 10, 255)->0 as u8,
                            d: unsigned_value(parts[3], 10, 255)->0 as u8,
                        },
                        prefix as u32,
                    ),
                )
            },
        }
    }
}

impl Cidr {
    #[verifier::type_invariant]
    spec fn well_formed(self) -> bool {
        self.prefix <= MAX_PREFIX
    }

    /// The address.
    pub closed spec fn address(self) -> Ipv4 {
        self.address
    }

    /// The prefix length.
    pub closed spec fn prefix(self) -> u32 {
        self.prefix
    }

    /// Reads an address in CIDR notation, such as `172.31.0.1/24`.
    #[verifier::loop_isolation(false)]
    pub fn parse(ip: &str) -> (r: Result<Cidr, CidrError>)
        ensures
            match r {
                Ok(cidr) => cidr_value(ip@) == Ok::<(Ipv4, u32), CidrError>(
                    (cidr.address(), cidr.prefix()),
                ) && cidr.prefix() <= MAX_PREFIX,
                Err(e) => cidr_value(ip@) == Err::<(Ipv4, u32), CidrError>(e),
            },
    {
        let chars = chars_of(ip);
        let halves = split_bounds(&chars, '/');
        if halves.len() != 2 {
            return Err(CidrError::NotCidr);
        }
        let ghost parts_spec = pieces(pieces(chars@, 0, '/')[0], 0, '.');
        let (from0, to0) = halves[0];
        let (from1, to1) = halves[1];
        let prefix: u32 = match parse_unsigned(&chars, from1, to1, 10, MAX_PREFIX as u64) {
            None => {
                return Err(CidrError::BadPrefix);
            },
            Some(p) => p as u32,
        };
        let host = part_of(&chars, from0, to0);
        let parts = split_bounds(&host, '.');
        let mut values: Vec<u8> = Vec::new();
        let mut i: usize = 0;
        while i < parts.len()
            invariant
                i <= parts.len(),
                parts@.len() == parts_spec.len(),
                forall|k: int|
                    0 <= k < parts@.len() ==> (#[trigger] parts@[k]).0 <= parts@[k].1 <= host.len()
                        && host@.subrange(parts@[k].0 as int, parts@[k].1 as int) == parts_spec[k],
                first_bad_octet(parts_spec, 0) == first_bad_octet(parts_spec, i as int),
                values@.len() == i,
                forall|k: int|
                    0 <= k < i ==> unsigned_value(parts_spec[k], 10, 255) == Some(
                        (#[trigger] values@[k]) as nat,
                    ),
            decreases parts.len() - i,
        {
            let (from, to) = parts[i];
            match parse_unsigned(&host, from, to, 10, 255) {
                None => {
                    assert(first_bad_octet(parts_spec, i as int) == i);
                    return Err(CidrError::BadOctet);
                },
                Some(v) => {
                    values.push(v as u8);
                },
            }
            i = i + 1;
        }
        if values.len() != 4 {
            return Err(CidrError::BadAddress);
        }
        Ok(
            Cidr {
                address: Ipv4 { a: values[0], b: values[1], c: values[2], d: values[3] },
                prefix,
            },
        )
    }

    /// The address.
    pub fn ip(&self) -> (out: Ipv4)
        ensures
            out == self.address(),
    {
        self.address
    }

    /// The prefix length.
    pub fn prefix_len(&self) -> (out: u32)
        ensures
            out == self.prefix(),
            out <= MAX_PREFIX,
    {
        proof {
            use_type_invariant(self);
        }
        self.prefix
    }

    /// The network mask that the prefix length stands for.
    pub fn mask(&self) -> (out: Ipv4)
        ensures
            out == mask_of(self.prefix()),
    {
        proof {
            use_type_invariant(self);
        }
        netmask(self.prefix)
    }
}

} // verus!
