//! The request structure that the kernel's interface calls take: a
//! fixed-width, zero-padded name and one payload.

use crate::address::Ipv4;
use crate::name::{valid_interface_name, InterfaceName};
use crate::text::push_decimal;
use vstd::pervasive::unreached;
use vstd::prelude::*;
use vstd::string::{StringExecFns, StringSliceAdditionalSpecFns};

verus! {

/// The width of the name field, terminator included.
pub const IFNAMSIZ: usize = 16;

/// Interface flag: administratively up.
pub const IFF_UP: i16 = 0x1;

/// Tun flag: the device is a tap, carrying Ethernet frames.
pub const IFF_TAP: i16 = 0x0002;

/// Tun flag: no packet information in front of each frame.
pub const IFF_NO_PI: i16 = 0x1000;

/// Tun flag: a virtio-net header in front of each frame.
pub const IFF_VNET_HDR: i16 = 0x4000;

/// The flags a tap is created with.
pub const TAP_CREATE_FLAGS: i16 = 0x5002;

/// The flags an existing tap is reopened with.
pub const TAP_ATTACH_FLAGS: i16 = 0x1002;

/// Tun call: bind the handle to a tap.
pub const TUNSETIFF: u64 = 0x400454ca;

/// Tun call: set or clear persistence.
pub const TUNSETPERSIST: u64 = 0x400454cb;

/// Tun call: set the owning user.
pub const TUNSETOWNER: u64 = 0x400454cc;

/// Tun call: set the owning group.
pub const TUNSETGROUP: u64 = 0x400454ce;

/// Socket call: read interface flags.
pub const SIOCGIFFLAGS: u64 = 0x8913;

/// Socket call: write interface flags.
pub const SIOCSIFFLAGS: u64 = 0x8914;

/// Socket call: set the address.
pub const SIOCSIFADDR: u64 = 0x8916;

/// Socket call: set the network mask.
pub const SIOCSIFNETMASK: u64 = 0x891c;

/// Socket call: read the interface index.
pub const SIOCGIFINDEX: u64 = 0x8933;

/// Socket call: create a bridge.
pub const SIOCBRADDBR: u64 = 0x89a0;

/// Socket call: attach an interface to a bridge.
pub const SIOCBRADDIF: u64 = 0x89a2;

/// The two sets of tun flags are what their names say.
pub proof fn lemma_tap_flags()
    ensures
        TAP_CREATE_FLAGS == IFF_TAP | IFF_NO_PI | IFF_VNET_HDR,
        TAP_ATTACH_FLAGS == IFF_TAP | IFF_NO_PI,
        TAP_ATTACH_FLAGS & IFF_VNET_HDR == 0,
{
    assert(0x5002i16 == 0x0002i16 | 0x1000i16 | 0x4000i16) by (bit_vector);
    assert(0x1002i16 == 0x0002i16 | 0x1000i16) by (bit_vector);
    assert(0x1002i16 & 0x4000i16 == 0) by (bit_vector);
}

/// Flags with the up bit set.
pub open spec fn raised(flags: i16) -> i16 {
    flags | IFF_UP
}

/// Setting the up bit sets that bit, changes no other, and changes
/// nothing where it was set.
pub proof fn lemma_raised(flags: i16)
    ensures
        raised(flags) & IFF_UP == IFF_UP,
        raised(flags) & !IFF_UP == flags & !IFF_UP,
        raised(raised(flags)) == raised(flags),
        flags & IFF_UP == IFF_UP ==> raised(flags) == flags,
{
    assert((flags | 1i16) & 1i16 == 1i16) by (bit_vector);
    assert((flags | 1i16) & !1i16 == flags & !1i16) by (bit_vector);
    assert((flags | 1i16) | 1i16 == flags | 1i16) by (bit_vector);
    assert(flags & 1i16 == 1i16 ==> flags | 1i16 == flags) by (bit_vector);
}

/// `flags` with the up bit set.
pub fn raise(flags: i16) -> (out: i16)
    ensures
        out == raised(flags),
{
    flags | IFF_UP
}

/// The name field for a name of the given bytes: the bytes, then zeros up
/// to [`IFNAMSIZ`].
pub open spec fn name_field(bytes: Seq<u8>) -> Seq<u8> {
    Seq::new(
        IFNAMSIZ as nat,
        |i: int|
            if i < bytes.len() {
                bytes[i]
            } else {
                0u8
            },
    )
}

/// Names without a zero byte that fit the field are told apart by it.
pub proof fn lemma_name_field_injective(x: Seq<u8>, y: Seq<u8>)
    requires
        x.len() < IFNAMSIZ,
        y.len() < IFNAMSIZ,
        forall|i: int| 0 <= i < x.len() ==> x[i] != 0,
        forall|i: int| 0 <= i < y.len() ==> y[i] != 0,
        name_field(x) == name_field(y),
    ensures
        x == y,
{
    if x.len() < y.len() {
        assert(name_field(x)[x.len() as int] == 0);
        assert(name_field(y)[x.len() as int] == y[x.len() as int]);
    } else if y.len() < x.len() {
        assert(name_field(y)[y.len() as int] == 0);
        assert(name_field(x)[y.len() as int] == x[y.len() as int]);
    } else {
        assert forall|i: int| 0 <= i < x.len() implies x[i] == y[i] by {
            assert(name_field(x)[i] == x[i]);
            assert(name_field(y)[i] == y[i]);
        }
        assert(x =~= y);
    }
}

/// The one payload of a request. The kernel reads the payload that the
/// call at hand defines, so a request carries exactly one.
#[derive(Clone, Copy, Debug, PartialEq, Eq, Structural)]
pub enum Payload {
    /// Zeros only: for calls that read nothing but the name.
    Unset,
    /// Interface or tun flags.
    Flags { flags: i16 },
    /// The index of another interface.
    Index { index: i32 },
    /// An IPv4 socket address.
    Address { address: Ipv4 },
}

/// A name that does not fit the name field.
#[derive(Clone, Copy, Debug, PartialEq, Eq, Structural)]
pub struct NameTooLong {
    /// The length of the name in bytes.
    pub len: usize,
}

impl NameTooLong {
    /// The message for this fault, as a sequence of characters.
    pub open spec fn text(self) -> Seq<char> {
        "Device name too long: "@ + crate::text::decimal_text(self.len as nat) + " (max 15)"@
    }

    /// The message for this fault.
    pub fn message(&self) -> (out: String)
        ensures
            out@ == self.text(),
    {
        let mut out = "Device name too long: ".to_owned();
        push_decimal(&mut out, self.len as u64);
        out.append(" (max 15)");
        out
    }
}

/// One request: the name field and the payload.
#[derive(Clone, Copy, Debug)]
pub struct IfReq {
    name: [u8; 16],
    payload: Payload,
}

impl IfReq {
    /// The name field: sixteen bytes.
    pub closed spec fn name(&self) -> Seq<u8> {
        self.name@
    }

    /// The payload.
    pub closed spec fn payload(&self) -> Payload {
        self.payload
    }

    /// A request for `name` with the given payload.
    fn build(name: &str, payload: Payload) -> (r: Result<IfReq, NameTooLong>)
        ensures
            r is Ok <==> name.spec_bytes().len() < IFNAMSIZ,
            r matches Ok(req) ==> req.name() == name_field(name.spec_bytes()) && req.payload()
                == payload,
            r matches Err(e) ==> e.len == name.spec_bytes().len(),
    {
        let bytes = name.as_bytes();
        if bytes.len() >= IFNAMSIZ {
            return Err(NameTooLong { len: bytes.len() });
        }
        let mut field: [u8; 16] = [0u8; 16];
        let mut i: usize = 0;
        while i < bytes.len()
            invariant
                i <= bytes.len() < IFNAMSIZ,
                forall|j: int| 0 <= j < i ==> field@[j] == bytes@[j],
                forall|j: int| i <= j < 16 ==> field@[j] == 0,
            decreases bytes.len() - i,
        {
            field[i] = bytes[i];
            i = i + 1;
        }
        assert(field@ =~= name_field(bytes@));
        Ok(IfReq { name: field, payload })
    }

    /// A request that carries the name alone: everything else is zero.
    /// Fails where the name takes sixteen bytes or more.
    pub fn new(name: &str) -> (r: Result<IfReq, NameTooLong>)
        ensures
            r is Ok <==> name.spec_bytes().len() < IFNAMSIZ,
            r matches Ok(req) ==> req.name() == name_field(name.spec_bytes()) && req.payload()
                == Payload::Unset,
            r matches Err(e) ==> e.len == name.spec_bytes().len(),
    {
        IfReq::build(name, Payload::Unset)
    }

    /// A request that carries flags.
    pub fn with_flags(name: &str, flags: i16) -> (r: Result<IfReq, NameTooLong>)
        ensures
            r is Ok <==> name.spec_bytes().len() < IFNAMSIZ,
            r matches Ok(req) ==> req.name() == name_field(name.spec_bytes()) && req.payload()
                == (Payload::Flags { flags }),
            r matches Err(e) ==> e.len == name.spec_bytes().len(),
    {
        IfReq::build(name, Payload::Flags { flags })
    }

    /// A request that carries the index of another interface.
    pub fn with_index(name: &str, index: i32) -> (r: Result<IfReq, NameTooLong>)
        ensures
            r is Ok <==> name.spec_bytes().len() < IFNAMSIZ,
            r matches Ok(req) ==> req.name() == name_field(name.spec_bytes()) && req.payload()
                == (Payload::Index { index }),
            r matches Err(e) ==> e.len == name.spec_bytes().len(),
    {
        IfReq::build(name, Payload::Index { index })
    }

    /// A request that carries an IPv4 address.
    pub fn with_address(name: &str, address: Ipv4) -> (r: Result<IfReq, NameTooLong>)
        ensures
            r is Ok <==> name.spec_bytes().len() < IFNAMSIZ,
            r matches Ok(req) ==> req.name() == name_field(name.spec_bytes()) && req.payload()
                == (Payload::Address { address }),
            r matches Err(e) ==> e.len == name.spec_bytes().len(),
    {
        IfReq::build(name, Payload::Address { address })
    }

    /// A request for a validated name, which always fits.
    pub fn for_interface(name: &InterfaceName, payload: Payload) -> (req: IfReq)
        ensures
            req.name() == interface_field(name@),
            req.payload() == payload,
    {
        let text = name.as_str();
        proof {
            lemma_valid_name_bytes(text@);
        }
        match IfReq::build(text, payload) {
            Ok(req) => req,
            Err(_) => unreached(),
        }
    }

    /// The name field.
    pub fn name_bytes(&self) -> (out: [u8; 16])
        ensures
            out@ == self.name(),
    {
        self.name
    }

    /// The payload.
    pub fn tag(&self) -> (out: Payload)
        ensures
            out == self.payload(),
    {
        self.payload
    }
}

/// The name field of an interface name: its characters as bytes, then
/// zeros.
pub open spec fn interface_field(name: Seq<char>) -> Seq<u8> {
    name_field(Seq::new(name.len(), |i: int| name[i] as u8))
}

/// A valid name is ASCII, so it is encoded one byte to the character and
/// fits the name field.
pub proof fn lemma_valid_name_bytes(name: Seq<char>)
    requires
        valid_interface_name(name),
    ensures
        vstd::utf8::encode_utf8(name) == Seq::new(name.len(), |i: int| name[i] as u8),
        vstd::utf8::encode_utf8(name).len() < IFNAMSIZ,
{
    assert(vstd::utf8::is_ascii_chars(name)) by {
        assert forall|i: int| 0 <= i < name.len() implies '\0' <= #[trigger] name[i] <= '\u{7f}' by {
            assert(crate::name::is_name_char(name[i]));
        }
    }
    vstd::utf8::is_ascii_chars_encode_utf8(name);
    assert(vstd::utf8::encode_utf8(name) =~= Seq::new(name.len(), |i: int| name[i] as u8));
}

} // verus!
