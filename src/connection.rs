use nix::sys::socket::{SockaddrLike, UnixAddr, VsockAddr};
use vstd::prelude::*;

verus! {

/// Linux address family of Unix domain sockets.
pub const AF_UNIX: u16 = 1;

/// Linux address family of hypervisor (vsock) sockets.
pub const AF_VSOCK: u16 = 40;

/// Number of bytes in the `sun_path` field of a Linux `sockaddr_un`.
pub const SUN_PATH_LEN: usize = 108;

/// Size in bytes of a Linux `sockaddr_vm`.
pub const SOCKADDR_VM_LEN: u32 = 16;

/// Offset of `sun_path` within a Linux `sockaddr_un`.
pub const SUN_PATH_OFFSET: u32 = 2;

/// Relies on nix's `VsockAddr::new` and `SockaddrLike::len`: a vsock address
/// always has the size of the whole `sockaddr_vm`.
#[verifier::external_body]
fn vsock_socklen(cid: u32, port: u32) -> (r: u32)
    ensures
        r == SOCKADDR_VM_LEN,
{
    VsockAddr::new(cid, port).len()
}

/// Relies on nix's `UnixAddr::new` for a byte path: it refuses a path with a
/// nul byte or one that does not leave room for the terminating nul in
/// `sun_path`, and otherwise yields an address whose length is the offset of
/// `sun_path` plus the path's length.
#[verifier::external_body]
fn unix_path_socklen(path: &[u8]) -> (r: Option<u32>)
    ensures
        r is Some <==> (path@.len() < SUN_PATH_LEN && !path@.contains(0u8)),
        r is Some ==> r->0 == SUN_PATH_OFFSET + path@.len(),
{
    UnixAddr::new(path).ok().map(|a| a.len())
}

/// Relies on nix's `UnixAddr::new_abstract`: it refuses a name that does not
/// fit in `sun_path` after the leading nul, and otherwise yields an address
/// whose length counts the family, the leading nul and the name.
#[verifier::external_body]
fn unix_abstract_socklen(name: &[u8]) -> (r: Option<u32>)
    ensures
        r is Some <==> name@.len() < SUN_PATH_LEN,
        r is Some ==> r->0 == SUN_PATH_OFFSET + 1 + name@.len(),
{
    UnixAddr::new_abstract(name).ok().map(|a| a.len())
}

/// A copy of `b` that the caller owns.
fn copy_bytes(b: &[u8]) -> (r: Vec<u8>)
    ensures
        r@ == b@,
{
    let mut r: Vec<u8> = Vec::with_capacity(b.len());
    let mut i: usize = 0;
    while i < b.len()
        invariant
            i <= b@.len(),
            r@ == b@.subrange(0, i as int),
        decreases b@.len() - i,
    {
        r.push(b[i]);
        i = i + 1;
    }
    assert(r@ =~= b@);
    r
}

/// A hypervisor-socket address: context id and port.
#[derive(Clone, Copy, Debug, PartialEq, Eq, Structural)]
pub struct VsockAddress {
    pub cid: u32,
    pub port: u32,
}

impl VsockAddress {
    pub fn new(cid: u32, port: u32) -> (r: VsockAddress)
        ensures
            r.cid == cid,
            r.port == port,
    {
        VsockAddress { cid, port }
    }

    /// Length of the `sockaddr` that encodes this address.
    pub fn socklen(&self) -> (r: u32)
        ensures
            r == SOCKADDR_VM_LEN,
    {
        vsock_socklen(self.cid, self.port)
    }
}

/// A Unix domain socket address: a filesystem path, or a name in the
/// abstract namespace.
#[derive(Clone, Debug)]
pub struct UnixAddress {
    name: Vec<u8>,
    is_abstract: bool,
    socklen: u32,
}

impl UnixAddress {
    /// The address is one that `new` or `new_abstract` can produce.
    pub closed spec fn wf(&self) -> bool {
        &&& self.name@.len() < SUN_PATH_LEN
        &&& self.is_abstract ==> self.socklen == SUN_PATH_OFFSET + 1 + self.name@.len()
        &&& !self.is_abstract ==> {
            &&& !self.name@.contains(0u8)
            &&& self.socklen == SUN_PATH_OFFSET + self.name@.len()
        }
    }

    pub closed spec fn spec_name(&self) -> Seq<u8> {
        self.name@
    }

    pub closed spec fn spec_is_abstract(&self) -> bool {
        self.is_abstract
    }

    pub closed spec fn spec_socklen(&self) -> u32 {
        self.socklen
    }

    /// A filesystem-path address; `None` where the path holds a nul byte or
    /// does not fit in `sun_path` with its terminating nul.
    pub fn new(path: &[u8]) -> (r: Option<UnixAddress>)
        ensures
            r is Some <==> (path@.len() < SUN_PATH_LEN && !path@.contains(0u8)),
            r is Some ==> {
                &&& r->0.wf()
                &&& r->0.spec_name() == path@
                &&& !r->0.spec_is_abstract()
            },
    {
        match unix_path_socklen(path) {
            Some(socklen) => Some(UnixAddress { name: copy_bytes(path), is_abstract: false, socklen }),
            None => None,
        }
    }

    /// An abstract-namespace address; `None` where the name does not fit in
    /// `sun_path` after the leading nul.
    pub fn new_abstract(name: &[u8]) -> (r: Option<UnixAddress>)
        ensures
            r is Some <==> name@.len() < SUN_PATH_LEN,
            r is Some ==> {
                &&& r->0.wf()
                &&& r->0.spec_name() == name@
                &&& r->0.spec_is_abstract()
            },
    {
        match unix_abstract_socklen(name) {
            Some(socklen) => Some(UnixAddress { name: copy_bytes(name), is_abstract: true, socklen }),
            None => None,
        }
    }

    /// The path, or the abstract name without its leading nul.
    pub fn name(&self) -> (r: &[u8])
        ensures
            r@ == self.spec_name(),
    {
        self.name.as_slice()
    }

    pub fn is_abstract(&self) -> (r: bool)
        ensures
            r == self.spec_is_abstract(),
    {
        self.is_abstract
    }

    /// Length of the `sockaddr` that encodes this address.
    pub fn socklen(&self) -> (r: u32)
        ensures
            r == self.spec_socklen(),
    {
        self.socklen
    }
}

/// How to reach a service instance.
#[derive(Clone, Debug)]
pub enum ConnectionInfo {
    /// For vsock connection
    Vsock(VsockAddress),
    /// For unix domain socket connection
    Unix(UnixAddress),
}

impl ConnectionInfo {
    /// Address family of the `sockaddr` that encodes this descriptor.
    pub open spec fn spec_family(&self) -> u16 {
        match self {
            ConnectionInfo::Vsock(_) => AF_VSOCK,
            ConnectionInfo::Unix(_) => AF_UNIX,
        }
    }

    /// Length of the `sockaddr` that encodes this descriptor.
    pub open spec fn spec_socklen(&self) -> u32 {
        match self {
            ConnectionInfo::Vsock(_) => SOCKADDR_VM_LEN,
            ConnectionInfo::Unix(a) => a.spec_socklen(),
        }
    }
}

/// The connection info handed to the native layer: the socket address it
/// copies, with the family and length of its `sockaddr`.
#[derive(Clone, Debug)]
pub struct NativeConnectionInfo {
    family: u16,
    socklen: u32,
    address: ConnectionInfo,
}

impl NativeConnectionInfo {
    pub closed spec fn spec_family(&self) -> u16 {
        self.family
    }

    pub closed spec fn spec_socklen(&self) -> u32 {
        self.socklen
    }

    pub closed spec fn spec_address(&self) -> ConnectionInfo {
        self.address
    }

    /// The native form of `info`.
    pub fn from_connection_info(info: ConnectionInfo) -> (r: NativeConnectionInfo)
        ensures
            r.spec_address() == info,
            r.spec_family() == info.spec_family(),
            r.spec_socklen() == info.spec_socklen(),
    {
        let (family, socklen) = match &info {
            ConnectionInfo::Vsock(a) => (AF_VSOCK, a.socklen()),
            ConnectionInfo::Unix(a) => (AF_UNIX, a.socklen()),
        };
        NativeConnectionInfo { family, socklen, address: info }
    }

    pub fn family(&self) -> (r: u16)
        ensures
            r == self.spec_family(),
    {
        self.family
    }

    pub fn socklen(&self) -> (r: u32)
        ensures
            r == self.spec_socklen(),
    {
        self.socklen
    }

    pub fn address(&self) -> (r: &ConnectionInfo)
        ensures
            *r == self.spec_address(),
    {
        &self.address
    }
}

} // verus!
