//! The addresses that a client reports, as the engine needs them: which
//! version an address is of, and its text.

use vstd::prelude::*;

verus! {

/// The two versions of the Internet Protocol.
#[derive(PartialEq, Eq, Clone, Copy, Debug, Structural)]
pub enum IpVersion {
    V4,
    V6,
}

/// An IPv4 address, held as its text in dotted decimal notation.
#[derive(Debug)]
pub struct Ipv4Address {
    pub text: String,
}

impl View for Ipv4Address {
    type V = Seq<char>;

    open spec fn view(&self) -> Seq<char> {
        self.text@
    }
}

impl Ipv4Address {
    /// The address whose text is `text`.
    pub fn new(text: String) -> (address: Ipv4Address)
        ensures
            address@ == text@,
    {
        Ipv4Address { text }
    }
}

impl Clone for Ipv4Address {
    fn clone(&self) -> (copy: Ipv4Address)
        ensures
            copy@ == self@,
    {
        Ipv4Address { text: self.text.clone() }
    }
}

/// An IPv6 address, held as its text in the canonical compressed notation.
#[derive(Debug)]
pub struct Ipv6Address {
    pub text: String,
}

impl View for Ipv6Address {
    type V = Seq<char>;

    open spec fn view(&self) -> Seq<char> {
        self.text@
    }
}

impl Ipv6Address {
    /// The address whose text is `text`.
    pub fn new(text: String) -> (address: Ipv6Address)
        ensures
            address@ == text@,
    {
        Ipv6Address { text }
    }
}

impl Clone for Ipv6Address {
    fn clone(&self) -> (copy: Ipv6Address)
        ensures
            copy@ == self@,
    {
        Ipv6Address { text: self.text.clone() }
    }
}

/// An address of either version.
#[derive(Debug)]
pub enum IpAddress {
    V4(Ipv4Address),
    V6(Ipv6Address),
}

/// What an [`IpAddress`] holds: its version and its text.
pub struct IpAddressView {
    pub version: IpVersion,
    pub text: Seq<char>,
}

impl View for IpAddress {
    type V = IpAddressView;

    open spec fn view(&self) -> IpAddressView {
        match self {
            IpAddress::V4(a) => IpAddressView { version: IpVersion::V4, text: a@ },
            IpAddress::V6(a) => IpAddressView { version: IpVersion::V6, text: a@ },
        }
    }
}

impl IpAddress {
    /// The version of the address.
    pub fn version(&self) -> (version: IpVersion)
        ensures
            version == self@.version,
    {
        match self {
            IpAddress::V4(_) => IpVersion::V4,
            IpAddress::V6(_) => IpVersion::V6,
        }
    }

    /// Whether this is an IPv4 address.
    pub fn is_ipv4(&self) -> (yes: bool)
        ensures
            yes == (self@.version == IpVersion::V4),
    {
        match self {
            IpAddress::V4(_) => true,
            IpAddress::V6(_) => false,
        }
    }

    /// Whether this is an IPv6 address.
    pub fn is_ipv6(&self) -> (yes: bool)
        ensures
            yes == (self@.version == IpVersion::V6),
    {
        match self {
            IpAddress::V4(_) => false,
            IpAddress::V6(_) => true,
        }
    }

    /// The text of the address.
    pub fn text(&self) -> (text: &str)
        ensures
            text@ == self@.text,
    {
        match self {
            IpAddress::V4(a) => a.text.as_str(),
            IpAddress::V6(a) => a.text.as_str(),
        }
    }
}

impl Clone for IpAddress {
    fn clone(&self) -> (copy: IpAddress)
        ensures
            copy@ == self@,
    {
        match self {
            IpAddress::V4(a) => IpAddress::V4(a.clone()),
            IpAddress::V6(a) => IpAddress::V6(a.clone()),
        }
    }
}

/// One address parameter of a request.
#[derive(Debug)]
pub enum IpParam<A> {
    /// The parameter was left out, or was empty.
    Absent,
    /// The parameter was given, and is no address of its version.
    Invalid,
    /// The parameter was given, and is this address.
    Valid(A),
}

impl<A: View> View for IpParam<A> {
    type V = IpParam<A::V>;

    open spec fn view(&self) -> IpParam<A::V> {
        match self {
            IpParam::Absent => IpParam::Absent,
            IpParam::Invalid => IpParam::Invalid,
            IpParam::Valid(address) => IpParam::Valid(address@),
        }
    }
}

impl<A> IpParam<A> {
    /// The address, where the parameter holds one.
    pub open spec fn address(self) -> Option<A> {
        match self {
            IpParam::Valid(address) => Some(address),
            _ => None,
        }
    }

    /// Classifies a parameter from its raw text and from what parsing that
    /// text as an address gave. A parameter that is missing or empty counts
    /// as absent, whatever `parsed` holds.
    pub fn from_query(raw: Option<&str>, parsed: Option<A>) -> (param: IpParam<A>)
        ensures
            param == Self::spec_from_query(raw, parsed),
    {
        match raw {
            None => IpParam::Absent,
            Some(text) => {
                if text.is_empty() {
                    IpParam::Absent
                } else {
                    match parsed {
                        Some(address) => IpParam::Valid(address),
                        None => IpParam::Invalid,
                    }
                }
            },
        }
    }

    /// What [`IpParam::from_query`] returns.
    pub open spec fn spec_from_query(raw: Option<&str>, parsed: Option<A>) -> IpParam<A> {
        match raw {
            None => IpParam::Absent,
            Some(text) => if text@.len() == 0 {
                IpParam::Absent
            } else {
                match parsed {
                    Some(address) => IpParam::Valid(address),
                    None => IpParam::Invalid,
                }
            },
        }
    }
}

} // verus!
