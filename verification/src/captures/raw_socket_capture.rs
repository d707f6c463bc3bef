//! Setting up a capture socket, step by step.
//!
//! A capture is set up by four requests to the system, in this order: open
//! a raw socket for every link-layer protocol, restrict it to the named
//! device, look up the interface's index, bind the socket to the address
//! "every protocol, on that index". The stages below take the outcome of
//! one request each and either lead to the next request or end the set-up
//! with the error of that step. A stage is consumed by its step, so no
//! step can be skipped or taken twice, and what a finished capture is
//! bound to exists only after the last one succeeded.

use crate::error::{AirCapError, AirCapResult};
use vstd::prelude::*;
use vstd::string::StringExecFns;

verus! {

/// The address family of link-layer sockets.
pub const PACKET_FAMILY: u16 = 17;

/// The protocol number that stands for every link-layer protocol.
pub const EVERY_PROTOCOL: u16 = 3;

/// `libc::AF_PACKET`, the address family of link-layer sockets. On Linux,
/// the platform whose packet sockets this library binds, `libc` defines
/// it as 17.
#[verifier::external_body]
fn packet_family() -> (family: u16)
    ensures
        family == PACKET_FAMILY,
{
    libc::AF_PACKET as u16
}

/// `libc::ETH_P_ALL`, the protocol number that selects the frames of
/// every protocol. On Linux `libc` defines it as 3.
#[verifier::external_body]
fn every_protocol() -> (protocol: u16)
    ensures
        protocol == EVERY_PROTOCOL,
{
    libc::ETH_P_ALL as u16
}

/// What a lookup of an interface's index can report: an index is never
/// zero.
pub open spec fn lookup_outcome(lookup: Result<u32, nix::errno::Errno>) -> bool {
    lookup matches Ok(index) ==> index != 0
}

/// `nix::net::if_::if_nametoindex`: asks the system for the index of the
/// interface with this name. The answer depends on the interfaces that
/// exist when it is asked, so nothing is claimed of it but that an index,
/// when there is one, is not zero: `nix` reports zero as an error.
#[verifier::external_body]
fn lookup_index(interface: &str) -> (lookup: Result<u32, nix::errno::Errno>)
    ensures
        lookup_outcome(lookup),
{
    nix::net::if_::if_nametoindex(interface)
}

/// A 16-bit number in network byte order: the more significant byte
/// first.
pub open spec fn network_order(value: u16) -> Seq<u8> {
    seq![(value / 256) as u8, (value % 256) as u8]
}

/// Writes a 16-bit number in network byte order.
pub fn network_order_bytes(value: u16) -> (bytes: [u8; 2])
    ensures
        bytes@ == network_order(value),
{
    let bytes = [(value / 256) as u8, (value % 256) as u8];
    assert(bytes@ =~= network_order(value));
    bytes
}

/// An interface index as the platform's address record holds it: the
/// same 32 bits, read as a signed number.
pub open spec fn signed_index(index: u32) -> int {
    if index <= i32::MAX {
        index as int
    } else {
        index - 0x1_0000_0000
    }
}

/// The link-layer address "every protocol, on the interface with this
/// index": what a capture socket is bound to.
///
/// A value cannot be made field by field. Family and protocol are fixed
/// when it is built, so an address for another family or for a single
/// protocol does not exist.
#[derive(Clone, Copy, Debug)]
pub struct LinkAddress {
    family: u16,
    protocol: u16,
    interface_index: i32,
}

impl LinkAddress {
    #[verifier::type_invariant]
    spec fn well_formed(self) -> bool {
        self.family == PACKET_FAMILY && self.protocol == EVERY_PROTOCOL
    }

    pub closed spec fn spec_interface_index(&self) -> i32 {
        self.interface_index
    }

    /// The address of every protocol on the interface with this index.
    pub closed spec fn every_protocol_on(index: u32) -> LinkAddress {
        LinkAddress {
            family: PACKET_FAMILY,
            protocol: EVERY_PROTOCOL,
            interface_index: signed_index(index) as i32,
        }
    }

    /// Builds the address of every protocol on the interface with this
    /// index.
    pub fn new(index: u32) -> (address: LinkAddress)
        ensures
            address == LinkAddress::every_protocol_on(index),
            address.spec_interface_index() == signed_index(index),
    {
        let interface_index: i32 = if index <= 0x7fff_ffff {
            index as i32
        } else {
            ((index - 0x8000_0000) as i32) - 0x7fff_ffff - 1
        };
        LinkAddress { family: packet_family(), protocol: every_protocol(), interface_index }
    }

    pub fn family(&self) -> (family: u16)
        ensures
            family == PACKET_FAMILY,
    {
        proof {
            use_type_invariant(self);
        }
        self.family
    }

    /// The protocol number in host byte order.
    pub fn protocol(&self) -> (protocol: u16)
        ensures
            protocol == EVERY_PROTOCOL,
    {
        proof {
            use_type_invariant(self);
        }
        self.protocol
    }

    /// The protocol number as it goes on the wire and into the
    /// platform's address record.
    pub fn protocol_wire(&self) -> (bytes: [u8; 2])
        ensures
            bytes@ == network_order(EVERY_PROTOCOL),
    {
        network_order_bytes(self.protocol())
    }

    #[verifier::when_used_as_spec(spec_interface_index)]
    pub fn interface_index(&self) -> (index: i32)
        ensures
            index == self.spec_interface_index(),
    {
        self.interface_index
    }
}

/// A capture that has been named and nothing more: the next thing to do
/// is to open the capture socket.
#[derive(Debug)]
pub struct PendingSocket {
    interface: String,
}

/// A capture whose socket is open: the next thing to do is to restrict
/// the socket to the named device.
#[derive(Debug)]
pub struct PendingDevice {
    interface: String,
}

/// A capture whose socket is restricted to its device and whose index is
/// known: the next thing to do is to bind the socket to the address.
#[derive(Debug)]
pub struct PendingAddress {
    interface: String,
    address: LinkAddress,
}

/// What a finished capture is bound to. It does not change afterwards.
#[derive(Debug)]
pub struct BoundInterface {
    interface: String,
    address: LinkAddress,
}

impl PendingSocket {
    pub closed spec fn spec_interface(&self) -> Seq<char> {
        self.interface@
    }

    /// The stage after the socket was opened.
    pub closed spec fn then_device(self) -> PendingDevice {
        PendingDevice { interface: self.interface }
    }

    /// What `opened` returns: the socket and the next stage, or the
    /// failure as a resource error.
    pub open spec fn spec_opened<S>(self, outcome: Result<S, std::io::Error>) -> AirCapResult<
        (S, PendingDevice),
    > {
        match outcome {
            Ok(socket) => Ok((socket, self.then_device())),
            Err(error) => Err(AirCapError::IOError(error)),
        }
    }

    /// What a whole set-up ends in, given what each of its steps reports:
    /// opening the socket, restricting it to the device, looking up the
    /// index, binding the address. A step is only reached when those
    /// before it succeeded.
    pub open spec fn spec_set_up<S>(
        self,
        opened: Result<S, std::io::Error>,
        attached: Result<(), nix::errno::Errno>,
        lookup: Result<u32, nix::errno::Errno>,
        bound: Result<(), nix::errno::Errno>,
    ) -> AirCapResult<(S, BoundInterface)> {
        match self.spec_opened(opened) {
            Err(error) => Err(error),
            Ok((socket, device)) => match device.spec_attached(attached, lookup) {
                Err(error) => Err(error),
                Ok(address) => match address.spec_bound(bound) {
                    Err(error) => Err(error),
                    Ok(binding) => Ok((socket, binding)),
                },
            },
        }
    }

    /// A capture is bound if and only if every step of its set-up
    /// succeeded. It is then bound under the name the set-up started
    /// with, to the address of the index that the lookup reported, and it
    /// comes with the socket that was opened.
    pub proof fn law_bound_only_after_every_step<S>(
        self,
        opened: Result<S, std::io::Error>,
        attached: Result<(), nix::errno::Errno>,
        lookup: Result<u32, nix::errno::Errno>,
        bound: Result<(), nix::errno::Errno>,
    )
        ensures
            self.spec_set_up(opened, attached, lookup, bound) is Ok <==> opened is Ok
                && attached is Ok && lookup is Ok && bound is Ok,
            self.spec_set_up(opened, attached, lookup, bound) matches Ok(done) ==> {
                &&& done.0 == opened->Ok_0
                &&& done.1.spec_interface() == self.spec_interface()
                &&& done.1.spec_address() == LinkAddress::every_protocol_on(lookup->Ok_0)
                &&& done.1.spec_address().spec_interface_index() == signed_index(lookup->Ok_0)
            },
    {
    }

    /// A set-up that fails reports the failure of the first step that
    /// failed, and under the kind of that step: a resource error for
    /// opening the socket, a platform-binding error for every later step.
    pub proof fn law_first_failure_is_surfaced<S>(
        self,
        opened: Result<S, std::io::Error>,
        attached: Result<(), nix::errno::Errno>,
        lookup: Result<u32, nix::errno::Errno>,
        bound: Result<(), nix::errno::Errno>,
    )
        ensures
            ({
                let ended = self.spec_set_up(opened, attached, lookup, bound);
                &&& opened matches Err(error) ==> ended is Err && ended->Err_0
                    == AirCapError::IOError(error)
                &&& opened is Ok ==> (attached matches Err(errno) ==> ended is Err && ended->Err_0
                    == AirCapError::NixError(errno))
                &&& opened is Ok && attached is Ok ==> (lookup matches Err(errno) ==> ended is Err
                    && ended->Err_0 == AirCapError::NixError(errno))
                &&& opened is Ok && attached is Ok && lookup is Ok ==> (bound matches Err(errno)
                    ==> ended is Err && ended->Err_0 == AirCapError::NixError(errno))
            }),
    {
    }

    /// When the socket could be opened and the platform does not know the
    /// interface, so that the device is refused or no index is found, the
    /// set-up fails with a platform-binding error, whatever the binding
    /// of the address would have reported.
    pub proof fn law_unknown_interface_is_a_binding_error<S>(
        self,
        opened: Result<S, std::io::Error>,
        attached: Result<(), nix::errno::Errno>,
        lookup: Result<u32, nix::errno::Errno>,
        bound: Result<(), nix::errno::Errno>,
    )
        requires
            opened is Ok,
            attached is Err || lookup is Err,
        ensures
            self.spec_set_up(opened, attached, lookup, bound) matches Err(error)
                && error is NixError,
    {
    }

    /// Starts to set up a capture on the interface with this name. Nothing
    /// is asked of the system yet.
    pub fn new(interface: &str) -> (pending: PendingSocket)
        ensures
            pending.spec_interface() == interface@,
    {
        PendingSocket { interface: String::from_str(interface) }
    }

    pub fn interface(&self) -> (interface: &str)
        ensures
            interface@ == self.spec_interface(),
    {
        self.interface.as_str()
    }

    /// The address family to open the socket in.
    pub fn family(&self) -> (family: u16)
        ensures
            family == PACKET_FAMILY,
    {
        packet_family()
    }

    /// The protocol to open the socket for, in network byte order: every
    /// protocol.
    pub fn protocol_wire(&self) -> (bytes: [u8; 2])
        ensures
            bytes@ == network_order(EVERY_PROTOCOL),
    {
        network_order_bytes(every_protocol())
    }

    /// Takes the outcome of opening the socket. A failure ends the
    /// set-up as a resource error; otherwise the socket is handed back
    /// together with the next stage.
    pub fn opened<S>(self, outcome: Result<S, std::io::Error>) -> (next: AirCapResult<
        (S, PendingDevice),
    >)
        ensures
            next == self.spec_opened(outcome),
            next matches Ok(opened) ==> opened.1.spec_interface() == self.spec_interface(),
    {
        match outcome {
            Ok(socket) => Ok((socket, PendingDevice { interface: self.interface })),
            Err(error) => Err(AirCapError::IOError(error)),
        }
    }
}

impl PendingDevice {
    pub closed spec fn spec_interface(&self) -> Seq<char> {
        self.interface@
    }

    /// The stage after the index was found to be `index`.
    pub closed spec fn then_address(self, index: u32) -> PendingAddress {
        PendingAddress { interface: self.interface, address: LinkAddress::every_protocol_on(index) }
    }

    /// What `resolved` returns: the next stage, or the failure as a
    /// platform-binding error.
    pub open spec fn spec_resolved(
        self,
        lookup: Result<u32, nix::errno::Errno>,
    ) -> AirCapResult<PendingAddress> {
        match lookup {
            Ok(index) => Ok(self.then_address(index)),
            Err(errno) => Err(AirCapError::NixError(errno)),
        }
    }

    /// What `attached` returns when the lookup of the index reports
    /// `lookup`.
    pub open spec fn spec_attached(
        self,
        outcome: Result<(), nix::errno::Errno>,
        lookup: Result<u32, nix::errno::Errno>,
    ) -> AirCapResult<PendingAddress> {
        match outcome {
            Ok(_) => self.spec_resolved(lookup),
            Err(errno) => Err(AirCapError::NixError(errno)),
        }
    }

    pub fn interface(&self) -> (interface: &str)
        ensures
            interface@ == self.spec_interface(),
    {
        self.interface.as_str()
    }

    /// Takes the outcome of the lookup of the interface's index. A
    /// failure ends the set-up as a platform-binding error; an index
    /// gives the address to bind to.
    pub fn resolved(self, lookup: Result<u32, nix::errno::Errno>) -> (next: AirCapResult<
        PendingAddress,
    >)
        ensures
            next == self.spec_resolved(lookup),
            next matches Ok(pending) ==> {
                &&& lookup is Ok
                &&& pending.spec_interface() == self.spec_interface()
                &&& pending.spec_address() == LinkAddress::every_protocol_on(lookup->Ok_0)
                &&& pending.spec_address().spec_interface_index() == signed_index(lookup->Ok_0)
            },
    {
        match lookup {
            Ok(index) => Ok(
                PendingAddress { interface: self.interface, address: LinkAddress::new(index) },
            ),
            Err(errno) => Err(AirCapError::NixError(errno)),
        }
    }

    /// Takes the outcome of restricting the socket to the device. A
    /// failure ends the set-up as a platform-binding error. Otherwise the
    /// system is asked for the interface's index, once, and the set-up
    /// goes on as `resolved` says for the answer. An address that comes
    /// of it names one interface: its index is not zero.
    pub fn attached(self, outcome: Result<(), nix::errno::Errno>) -> (next: AirCapResult<
        PendingAddress,
    >)
        ensures
            exists|lookup: Result<u32, nix::errno::Errno>|
                lookup_outcome(lookup) && next == #[trigger] self.spec_attached(outcome, lookup),
            outcome matches Err(errno) ==> next is Err && next->Err_0 == AirCapError::NixError(
                errno,
            ),
            next matches Ok(pending) ==> {
                &&& pending.spec_interface() == self.spec_interface()
                &&& pending.spec_address().spec_interface_index() != 0
            },
    {
        match outcome {
            Ok(_) => {
                let lookup = lookup_index(self.interface.as_str());
                let ghost before = self;
                let next = self.resolved(lookup);
                assert(next == before.spec_attached(outcome, lookup));
                next
            },
            Err(errno) => {
                assert(self.spec_attached(outcome, Err(errno)) is Err);
                Err(AirCapError::NixError(errno))
            },
        }
    }
}

impl PendingAddress {
    pub closed spec fn spec_interface(&self) -> Seq<char> {
        self.interface@
    }

    pub closed spec fn spec_address(&self) -> LinkAddress {
        self.address
    }

    /// What the capture is bound to once the address was bound.
    pub closed spec fn then_bound(self) -> BoundInterface {
        BoundInterface { interface: self.interface, address: self.address }
    }

    /// What `bound` returns: the finished binding, or the failure as a
    /// platform-binding error.
    pub open spec fn spec_bound(self, outcome: Result<(), nix::errno::Errno>) -> AirCapResult<
        BoundInterface,
    > {
        match outcome {
            Ok(_) => Ok(self.then_bound()),
            Err(errno) => Err(AirCapError::NixError(errno)),
        }
    }

    pub fn interface(&self) -> (interface: &str)
        ensures
            interface@ == self.spec_interface(),
    {
        self.interface.as_str()
    }

    /// The address to bind the socket to.
    #[verifier::when_used_as_spec(spec_address)]
    pub fn address(&self) -> (address: LinkAddress)
        ensures
            address == self.spec_address(),
    {
        self.address
    }

    /// Takes the outcome of binding the socket to the address. A failure
    /// ends the set-up as a platform-binding error; otherwise the capture
    /// is bound.
    pub fn bound(self, outcome: Result<(), nix::errno::Errno>) -> (done: AirCapResult<
        BoundInterface,
    >)
        ensures
            done == self.spec_bound(outcome),
            done matches Ok(binding) ==> {
                &&& binding.spec_interface() == self.spec_interface()
                &&& binding.spec_address() == self.spec_address()
            },
    {
        match outcome {
            Ok(_) => Ok(BoundInterface { interface: self.interface, address: self.address }),
            Err(errno) => Err(AirCapError::NixError(errno)),
        }
    }
}

impl BoundInterface {
    pub closed spec fn spec_interface(&self) -> Seq<char> {
        self.interface@
    }

    pub closed spec fn spec_address(&self) -> LinkAddress {
        self.address
    }

    /// The name the capture was set up with.
    pub fn interface(&self) -> (interface: &str)
        ensures
            interface@ == self.spec_interface(),
    {
        self.interface.as_str()
    }

    /// The address the capture is bound to.
    #[verifier::when_used_as_spec(spec_address)]
    pub fn address(&self) -> (address: LinkAddress)
        ensures
            address == self.spec_address(),
    {
        self.address
    }
}

} // verus!
