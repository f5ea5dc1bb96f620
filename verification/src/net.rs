//! Internet addresses, in three shapes.

use vstd::prelude::*;
use vstd::string::StringExecFns;

verus! {

/// The two versions of the internet protocol.
#[derive(Debug)]
pub enum IpAddrKind {
    V4,
    V6,
}

/// An address: its kind beside its text.
#[derive(Debug)]
pub struct IpAddr {
    kind: IpAddrKind,
    address: String,
}

/// An address whose kind carries its text.
#[derive(Debug)]
pub enum IpAddr2 {
    V4(String),
    V6(String),
}

/// An address whose version four form is four numbers.
#[derive(Debug)]
pub enum IpAddr3 {
    V4(u8, u8, u8, u8),
    V6(String),
}

impl IpAddr {
    /// The kind of the address.
    pub closed spec fn kind(&self) -> IpAddrKind {
        self.kind
    }

    /// The text of the address.
    pub closed spec fn address(&self) -> Seq<char> {
        self.address@
    }
}

/// The host itself, in version four and in version six.
pub fn main() -> (pair: (IpAddr, IpAddr))
    ensures
        pair.0.kind() is V4,
        pair.0.address() == "127.0.0.1"@,
        pair.1.kind() is V6,
        pair.1.address() == "::1"@,
{
    let home = IpAddr { kind: IpAddrKind::V4, address: String::from_str("127.0.0.1") };
    let loopback = IpAddr { kind: IpAddrKind::V6, address: String::from_str("::1") };
    (home, loopback)
}

/// The host itself, the text carried by the kind.
pub fn main2() -> (pair: (IpAddr2, IpAddr2))
    ensures
        pair.0 matches IpAddr2::V4(text) && text@ == "127.0.0.1"@,
        pair.1 matches IpAddr2::V6(text) && text@ == "::1"@,
{
    let home = IpAddr2::V4(String::from_str("127.0.0.1"));
    let loopback = IpAddr2::V6(String::from_str("::1"));
    (home, loopback)
}

/// The host itself, version four in numbers.
pub fn main3() -> (pair: (IpAddr3, IpAddr3))
    ensures
        pair.0 == IpAddr3::V4(127, 0, 0, 1),
        pair.1 matches IpAddr3::V6(text) && text@ == "::1"@,
{
    let home = IpAddr3::V4(127, 0, 0, 1);
    let loopback = IpAddr3::V6(String::from_str("::1"));
    (home, loopback)
}

} // verus!
