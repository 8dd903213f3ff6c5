//! What can go wrong, and the message for each fault.

use crate::address::CidrError;
use crate::name::{InterfaceName, NameError};
use crate::platform::{describe_errno, errno_text};
use crate::text::NumberFault;
use vstd::prelude::*;
use vstd::string::StringExecFns;

verus! {

/// A call to the kernel that can fail.
#[derive(Clone, Copy, Debug, PartialEq, Eq, Structural)]
pub enum Call {
    OpenTun,
    CreateTap,
    SetOwner,
    SetGroup,
    SetPersist,
    ClearPersist,
    Socket,
    AddToBridge,
    GetFlags,
    SetFlags,
    CreateBridge,
    SetAddress,
    SetNetmask,
}

impl Call {
    /// What is said when this call fails.
    pub open spec fn text(self) -> Seq<char> {
        match self {
            Call::OpenTun => "Failed to open /dev/net/tun"@,
            Call::CreateTap => "Failed to create TAP device"@,
            Call::SetOwner => "Failed to set TAP owner"@,
            Call::SetGroup => "Failed to set TAP group"@,
            Call::SetPersist => "Failed to set TAP persistence"@,
            Call::ClearPersist => "Failed to clear TAP persistence"@,
            Call::Socket => "Failed to create socket"@,
            Call::AddToBridge => "Failed to add TAP to bridge"@,
            Call::GetFlags => "Failed to get interface flags"@,
            Call::SetFlags => "Failed to bring up interface"@,
            Call::CreateBridge => "Failed to create bridge"@,
            Call::SetAddress => "Failed to set IP address"@,
            Call::SetNetmask => "Failed to set netmask"@,
        }
    }

    /// What is said when this call fails.
    pub fn label(&self) -> (out: &'static str)
        ensures
            out@ == self.text(),
    {
        match self {
            Call::OpenTun => "Failed to open /dev/net/tun",
            Call::CreateTap => "Failed to create TAP device",
            Call::SetOwner => "Failed to set TAP owner",
            Call::SetGroup => "Failed to set TAP group",
            Call::SetPersist => "Failed to set TAP persistence",
            Call::ClearPersist => "Failed to clear TAP persistence",
            Call::Socket => "Failed to create socket",
            Call::AddToBridge => "Failed to add TAP to bridge",
            Call::GetFlags => "Failed to get interface flags",
            Call::SetFlags => "Failed to bring up interface",
            Call::CreateBridge => "Failed to create bridge",
            Call::SetAddress => "Failed to set IP address",
            Call::SetNetmask => "Failed to set netmask",
        }
    }
}

/// The kinds of fault.
#[derive(Clone, Copy, Debug, PartialEq, Eq, Structural)]
pub enum Category {
    /// A name or an address is malformed. Found before any privileged call.
    Validation,
    /// The capability is missing. Found before any call that changes
    /// anything.
    Privilege,
    /// Something is there that must not be, or is missing that must be.
    Precondition,
    /// The kernel refused a call or gave an answer that cannot be used.
    KernelCall,
    /// The command that deletes a link where the kernel path is closed
    /// failed as well.
    Fallback,
}

/// A fault.
#[derive(Debug)]
pub enum Error {
    /// An interface name is malformed.
    Name { fault: NameError },
    /// An address is malformed.
    Address { syntax: CidrError },
    /// The process does not hold the capability.
    Unprivileged,
    /// The tap to create exists.
    TapExists { name: InterfaceName },
    /// The interface to delete does not exist.
    NoInterface { name: InterfaceName },
    /// The bridge to attach to does not exist.
    NoBridge { name: InterfaceName },
    /// The kernel refused a call.
    Kernel { call: Call, errno: i32 },
    /// The index of an interface could not be read.
    IndexUnreadable { name: InterfaceName, reason: String },
    /// The index of an interface is no number.
    IndexMalformed { number: NumberFault },
    /// The command that deletes a link could not be run.
    FallbackNotRun { reason: String },
    /// The command that deletes a link failed; what it said.
    FallbackFailed { stderr: String },
}

/// The message for a malformed address.
pub open spec fn cidr_text(fault: CidrError) -> Seq<char> {
    match fault {
        CidrError::NotCidr => "IP must be in CIDR format (e.g., 172.31.0.1/24)"@,
        CidrError::BadPrefix => "Invalid prefix length"@,
        CidrError::BadOctet => "Invalid IP octet"@,
        CidrError::BadAddress => "Invalid IP address format"@,
    }
}

/// The message for a malformed number.
pub open spec fn number_text(fault: NumberFault) -> Seq<char> {
    match fault {
        NumberFault::Empty => "cannot parse integer from empty string"@,
        NumberFault::InvalidDigit => "invalid digit found in string"@,
        NumberFault::TooLarge => "number too large to fit in target type"@,
        NumberFault::TooSmall => "number too small to fit in target type"@,
    }
}

fn cidr_label(fault: CidrError) -> (out: &'static str)
    ensures
        out@ == cidr_text(fault),
{
    match fault {
        CidrError::NotCidr => "IP must be in CIDR format (e.g., 172.31.0.1/24)",
        CidrError::BadPrefix => "Invalid prefix length",
        CidrError::BadOctet => "Invalid IP octet",
        CidrError::BadAddress => "Invalid IP address format",
    }
}

fn number_label(fault: NumberFault) -> (out: &'static str)
    ensures
        out@ == number_text(fault),
{
    match fault {
        NumberFault::Empty => "cannot parse integer from empty string",
        NumberFault::InvalidDigit => "invalid digit found in string",
        NumberFault::TooLarge => "number too large to fit in target type",
        NumberFault::TooSmall => "number too small to fit in target type",
    }
}

impl Error {
    /// The kind of this fault.
    pub open spec fn kind(self) -> Category {
        match self {
            Error::Name { .. } | Error::Address { .. } => Category::Validation,
            Error::Unprivileged => Category::Privilege,
            Error::TapExists { .. } | Error::NoInterface { .. } | Error::NoBridge {
                ..
            } => Category::Precondition,
            Error::Kernel { .. } | Error::IndexUnreadable { .. } | Error::IndexMalformed {
                ..
            } => Category::KernelCall,
            Error::FallbackNotRun { .. } | Error::FallbackFailed { .. } => Category::Fallback,
        }
    }

    /// The kind of this fault.
    pub fn category(&self) -> (out: Category)
        ensures
            out == self.kind(),
    {
        match self {
            Error::Name { .. } | Error::Address { .. } => Category::Validation,
            Error::Unprivileged => Category::Privilege,
            Error::TapExists { .. } | Error::NoInterface { .. } | Error::NoBridge {
                ..
            } => Category::Precondition,
            Error::Kernel { .. } | Error::IndexUnreadable { .. } | Error::IndexMalformed {
                ..
            } => Category::KernelCall,
            Error::FallbackNotRun { .. } | Error::FallbackFailed { .. } => Category::Fallback,
        }
    }

    /// The message for this fault: it names the step that failed and,
    /// where the system gave one, its description of the error.
    pub open spec fn text(self) -> Seq<char> {
        match self {
            Error::Name { fault } => fault.text(),
            Error::Address { syntax } => cidr_text(syntax),
            Error::Unprivileged => "Missing CAP_NET_ADMIN capability"@,
            Error::TapExists { name } => "TAP device '"@ + name@ + "' already exists"@,
            Error::NoInterface { name } => "Interface '"@ + name@ + "' does not exist"@,
            Error::NoBridge { name } => "Bridge '"@ + name@ + "' does not exist"@,
            Error::Kernel { call, errno } => call.text() + ": "@ + errno_text(errno),
            Error::IndexUnreadable { name, reason } => "Failed to read ifindex for "@ + name@ + ": "@
                + reason@,
            Error::IndexMalformed { number } => "Failed to parse ifindex: "@ + number_text(number),
            Error::FallbackNotRun { reason } => "Failed to execute ip command: "@ + reason@,
            Error::FallbackFailed { stderr } => "Failed to delete interface: "@ + stderr@,
        }
    }

    /// The message for this fault.
    pub fn message(&self) -> (out: String)
        ensures
            out@ == self.text(),
    {
        match self {
            Error::Name { fault } => fault.message(),
            Error::Address { syntax } => cidr_label(*syntax).to_owned(),
            Error::Unprivileged => "Missing CAP_NET_ADMIN capability".to_owned(),
            Error::TapExists { name } => {
                let mut out = "TAP device '".to_owned();
                out.append(name.as_str());
                out.append("' already exists");
                out
            },
            Error::NoInterface { name } => {
                let mut out = "Interface '".to_owned();
                out.append(name.as_str());
                out.append("' does not exist");
                out
            },
            Error::NoBridge { name } => {
                let mut out = "Bridge '".to_owned();
                out.append(name.as_str());
                out.append("' does not exist");
                out
            },
            Error::Kernel { call, errno } => {
                let mut out = call.label().to_owned();
                out.append(": ");
                let detail = describe_errno(*errno);
                out.append(detail.as_str());
                out
            },
            Error::IndexUnreadable { name, reason } => {
                let mut out = "Failed to read ifindex for ".to_owned();
                out.append(name.as_str());
                out.append(": ");
                out.append(reason.as_str());
                out
            },
            Error::IndexMalformed { number } => {
                let mut out = "Failed to parse ifindex: ".to_owned();
                out.append(number_label(*number));
                out
            },
            Error::FallbackNotRun { reason } => {
                let mut out = "Failed to execute ip command: ".to_owned();
                out.append(reason.as_str());
                out
            },
            Error::FallbackFailed { stderr } => {
                let mut out = "Failed to delete interface: ".to_owned();
                out.append(stderr.as_str());
                out
            },
        }
    }
}

} // verus!
