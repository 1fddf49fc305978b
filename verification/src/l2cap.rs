//! The L2CAP side of the service: socket addresses as the kernel reads them, socket
//! options, and the life of a data channel.
//!
//! The address record is the `sockaddr_l2` of a little-endian host:
//!
//! ```text
//! family       2 bytes   AF_BLUETOOTH
//! psm          2 bytes   little-endian
//! bdaddr       6 bytes   the address, last byte first
//! cid          2 bytes
//! bdaddr_type  1 byte    1 public, 2 random
//! (padding)    1 byte
//! ```

use vstd::prelude::*;
use vstd::std_specs::convert::FromSpecImpl;

use crate::le::{push_u16, read_u16, u16_from_le, u16_to_le};

verus! {

/// The address family of Bluetooth sockets.
pub const AF_BLUETOOTH: u16 = 31;

/// The protocol number of L2CAP within the Bluetooth family.
pub const BTPROTO_L2CAP: i32 = 0;

/// The level of the Bluetooth socket options.
pub const SOL_BLUETOOTH: i32 = 274;

/// The socket option that holds the security level and the key size.
pub const BT_SECURITY: i32 = 4;

/// The socket option that holds the largest packet to send.
pub const BT_SNDMTU: i32 = 12;

/// The socket option that holds the largest packet to receive.
pub const BT_RCVMTU: i32 = 13;

/// The length of an address record.
pub const SOCKADDR_LEN: usize = 14;

/// The longest wait for a data channel to open, in milliseconds.
pub const CONNECT_TIMEOUT_MS: u64 = 5000;

/// A Bluetooth device address, as it is printed from left to right.
pub type MacAddress = [u8; 6];

/// Whether a device address is public or random.
#[derive(Debug, Clone, Copy, PartialEq, Eq, PartialOrd, Ord, Hash, Structural)]
pub enum AddressType {
    /// A public address.
    Public,
    /// A random address.
    Random,
}

/// The fixed protocol/service multiplexers of the service.
#[derive(Debug, Clone, Copy, PartialEq, Eq, Hash, Structural)]
pub enum Psm {
    /// The channel on which a server offers object transfer.
    L2CapLeCidOts,
    /// The first of the dynamically assigned channels.
    L2CapLeDynStart,
}

/// How much protection a data channel asks for.
#[derive(Debug, Clone, Copy, PartialEq, Eq, PartialOrd, Ord, Hash, Structural)]
pub enum SecurityLevel {
    /// Service discovery only.
    Sdp,
    /// No encryption asked for.
    Low,
    /// Encryption.
    Medium,
    /// Encryption and authentication.
    High,
    /// Approved algorithms only.
    Fips,
}

/// The security asked of a data channel.
#[derive(Debug, Clone, Copy, PartialEq, Eq, PartialOrd, Ord, Hash, Structural)]
pub struct Security {
    /// The level.
    pub level: SecurityLevel,
    /// The size of the key, or 0 for any.
    pub key_size: u8,
}

/// Why a value that came from the kernel was refused.
#[derive(Debug, Clone, Copy, PartialEq, Eq, Hash, Structural)]
pub enum InvalidInput {
    /// The address belongs to another family than Bluetooth.
    AddressFamily,
    /// The address type is neither public nor random.
    AddressType,
    /// The value has another size than its kind has.
    Size,
    /// The security level is none of the five.
    SecurityLevel,
}

/// The address of one end of a data channel.
#[derive(Debug, Clone, Copy, PartialEq, Eq, PartialOrd, Ord, Hash)]
pub struct L2capSockAddr {
    /// The device address.
    pub addr: MacAddress,
    /// The kind of the device address.
    pub type_: AddressType,
    /// The protocol/service multiplexer.
    pub psm: u16,
    /// The channel identifier.
    pub cid: u16,
}

/// An `L2capSockAddr` with its device address as a sequence.
pub struct L2capSockAddrView {
    pub addr: Seq<u8>,
    pub type_: AddressType,
    pub psm: u16,
    pub cid: u16,
}

impl View for L2capSockAddr {
    type V = L2capSockAddrView;

    open spec fn view(&self) -> L2capSockAddrView {
        L2capSockAddrView { addr: self.addr@, type_: self.type_, psm: self.psm, cid: self.cid }
    }
}

impl AddressType {
    /// The byte that stands for the kind in an address record.
    pub open spec fn spec_code(self) -> u8 {
        match self {
            AddressType::Public => 1,
            AddressType::Random => 2,
        }
    }

    /// The kind that a byte stands for, if any.
    pub open spec fn spec_from_code(raw: u8) -> Option<Self> {
        if raw == 1 {
            Some(AddressType::Public)
        } else if raw == 2 {
            Some(AddressType::Random)
        } else {
            None
        }
    }

    /// The byte that stands for the kind in an address record.
    pub fn code(&self) -> (r: u8)
        ensures
            r == self.spec_code(),
    {
        match self {
            AddressType::Public => 1,
            AddressType::Random => 2,
        }
    }

    /// The kind that a byte stands for; any byte but 1 and 2 is refused.
    pub fn try_from(raw: u8) -> (r: Result<Self, InvalidInput>)
        ensures
            r == (match Self::spec_from_code(raw) {
                Some(t) => Ok::<Self, InvalidInput>(t),
                None => Err(InvalidInput::AddressType),
            }),
    {
        match raw {
            1 => Ok(AddressType::Public),
            2 => Ok(AddressType::Random),
            _ => Err(InvalidInput::AddressType),
        }
    }
}

impl Psm {
    /// The number of the multiplexer.
    pub open spec fn spec_value(self) -> u16 {
        match self {
            Psm::L2CapLeCidOts => 0x25,
            Psm::L2CapLeDynStart => 0x80,
        }
    }

    /// The number of the multiplexer.
    pub fn value(&self) -> (r: u16)
        ensures
            r == self.spec_value(),
    {
        match self {
            Psm::L2CapLeCidOts => 0x25,
            Psm::L2CapLeDynStart => 0x80,
        }
    }
}

impl From<Psm> for u16 {
    /// The number of the multiplexer.
    fn from(psm: Psm) -> (r: Self) {
        psm.value()
    }
}

impl FromSpecImpl<Psm> for u16 {
    open spec fn obeys_from_spec() -> bool {
        true
    }

    open spec fn from_spec(psm: Psm) -> Self {
        psm.spec_value()
    }
}

impl SecurityLevel {
    /// The number of the level.
    pub open spec fn spec_code(self) -> u8 {
        match self {
            SecurityLevel::Sdp => 0,
            SecurityLevel::Low => 1,
            SecurityLevel::Medium => 2,
            SecurityLevel::High => 3,
            SecurityLevel::Fips => 4,
        }
    }

    /// The level that a number stands for, if any.
    pub open spec fn spec_from_code(raw: u8) -> Option<Self> {
        if raw == 0 {
            Some(SecurityLevel::Sdp)
        } else if raw == 1 {
            Some(SecurityLevel::Low)
        } else if raw == 2 {
            Some(SecurityLevel::Medium)
        } else if raw == 3 {
            Some(SecurityLevel::High)
        } else if raw == 4 {
            Some(SecurityLevel::Fips)
        } else {
            None
        }
    }

    /// The number of the level.
    pub fn code(&self) -> (r: u8)
        ensures
            r == self.spec_code(),
    {
        match self {
            SecurityLevel::Sdp => 0,
            SecurityLevel::Low => 1,
            SecurityLevel::Medium => 2,
            SecurityLevel::High => 3,
            SecurityLevel::Fips => 4,
        }
    }

    /// The level that a number stands for; a number above 4 is refused.
    pub fn try_from(raw: u8) -> (r: Result<Self, InvalidInput>)
        ensures
            r == (match Self::spec_from_code(raw) {
                Some(l) => Ok::<Self, InvalidInput>(l),
                None => Err(InvalidInput::SecurityLevel),
            }),
    {
        match raw {
            0 => Ok(SecurityLevel::Sdp),
            1 => Ok(SecurityLevel::Low),
            2 => Ok(SecurityLevel::Medium),
            3 => Ok(SecurityLevel::High),
            4 => Ok(SecurityLevel::Fips),
            _ => Err(InvalidInput::SecurityLevel),
        }
    }
}

impl Default for SecurityLevel {
    /// The level of a socket that was asked for none: `Low`.
    fn default() -> (r: Self)
        ensures
            r == SecurityLevel::Low,
    {
        SecurityLevel::Low
    }
}

impl Default for Security {
    /// The security of a socket that was asked for none: level `Low`, any key size.
    fn default() -> (r: Self)
        ensures
            r == (Security { level: SecurityLevel::Low, key_size: 0 }),
    {
        Security { level: SecurityLevel::Low, key_size: 0 }
    }
}

impl Security {
    /// The two bytes of the `BT_SECURITY` option: the level, then the key size.
    pub open spec fn spec_encode(self) -> Seq<u8> {
        seq![self.level.spec_code(), self.key_size]
    }

    /// What a `BT_SECURITY` option of the kernel decodes to: a value of another size
    /// than two bytes is refused, and so is a level that is none of the five.
    pub open spec fn spec_decode(raw: Seq<u8>) -> Result<Security, InvalidInput> {
        if raw.len() != 2 {
            Err(InvalidInput::Size)
        } else {
            match SecurityLevel::spec_from_code(raw[0]) {
                Some(level) => Ok(Security { level, key_size: raw[1] }),
                None => Err(InvalidInput::SecurityLevel),
            }
        }
    }

    /// The two bytes of the `BT_SECURITY` option.
    pub fn to_bytes(&self) -> (r: [u8; 2])
        ensures
            r@ == self.spec_encode(),
    {
        let r: [u8; 2] = [self.level.code(), self.key_size];
        assert(r@ =~= self.spec_encode());
        r
    }

    /// Decodes a `BT_SECURITY` option as the kernel returned it.
    pub fn try_from(raw: &[u8]) -> (r: Result<Self, InvalidInput>)
        ensures
            r == Self::spec_decode(raw@),
    {
        if raw.len() != 2 {
            return Err(InvalidInput::Size);
        }
        match SecurityLevel::try_from(raw[0]) {
            Ok(level) => Ok(Security { level, key_size: raw[1] }),
            Err(e) => Err(e),
        }
    }

    /// A security setting is unchanged by encoding and decoding.
    pub proof fn lemma_round_trip(self)
        ensures
            Self::spec_decode(self.spec_encode()) == Ok::<Security, InvalidInput>(self),
    {
    }
}

/// The two bytes of an MTU option: the low 16 bits of the size.
pub open spec fn spec_encode_mtu(mtu: usize) -> Seq<u8> {
    u16_to_le(mtu as int)
}

/// What an MTU option of the kernel decodes to; a value of another size than two bytes
/// is refused.
pub open spec fn spec_decode_mtu(raw: Seq<u8>) -> Result<usize, InvalidInput> {
    if raw.len() != 2 {
        Err(InvalidInput::Size)
    } else {
        Ok(u16_from_le(raw) as usize)
    }
}

/// The two bytes of an MTU option.
pub fn encode_mtu(mtu: usize) -> (r: Vec<u8>)
    ensures
        r@ == spec_encode_mtu(mtu),
{
    let mut out: Vec<u8> = Vec::new();
    out.push((mtu % 0x100) as u8);
    out.push(((mtu / 0x100) % 0x100) as u8);
    assert(out@ =~= spec_encode_mtu(mtu));
    out
}

/// Decodes an MTU option as the kernel returned it.
pub fn decode_mtu(raw: &[u8]) -> (r: Result<usize, InvalidInput>)
    ensures
        r == spec_decode_mtu(raw@),
{
    if raw.len() != 2 {
        return Err(InvalidInput::Size);
    }
    assert(raw@.subrange(0, 2) =~= raw@);
    Ok(read_u16(raw, 0) as usize)
}

/// The six bytes of a device address in the order of the other end: last byte first.
pub open spec fn spec_reversed(addr: Seq<u8>) -> Seq<u8>
    recommends
        addr.len() == 6,
{
    seq![addr[5], addr[4], addr[3], addr[2], addr[1], addr[0]]
}

/// Turns a device address round: what is printed first goes last, as the kernel keeps it.
pub fn reversed(addr: &MacAddress) -> (r: MacAddress)
    ensures
        r@ == spec_reversed(addr@),
{
    let r: [u8; 6] = [addr[5], addr[4], addr[3], addr[2], addr[1], addr[0]];
    assert(r@ =~= spec_reversed(addr@));
    r
}

/// Turning an address round twice gives the address back.
pub proof fn lemma_reversed_twice(addr: Seq<u8>)
    requires
        addr.len() == 6,
    ensures
        spec_reversed(spec_reversed(addr)) == addr,
{
    assert(spec_reversed(spec_reversed(addr)) =~= addr);
}

impl L2capSockAddr {
    /// The address record of the kernel, fourteen bytes.
    pub open spec fn spec_encode(self) -> Seq<u8> {
        u16_to_le(AF_BLUETOOTH as int) + u16_to_le(self.psm as int) + spec_reversed(self.addr@)
            + u16_to_le(self.cid as int) + seq![self.type_.spec_code(), 0u8]
    }

    /// What an address record decodes to.
    ///
    /// A record of fewer than thirteen bytes is refused for its size, one of another
    /// family than Bluetooth for its family, and one whose address type is neither 1
    /// nor 2 for its type.
    pub open spec fn spec_decode(raw: Seq<u8>) -> Result<L2capSockAddrView, InvalidInput> {
        if raw.len() < 13 {
            Err(InvalidInput::Size)
        } else if u16_from_le(raw.subrange(0, 2)) != AF_BLUETOOTH {
            Err(InvalidInput::AddressFamily)
        } else {
            match AddressType::spec_from_code(raw[12]) {
                None => Err(InvalidInput::AddressType),
                Some(type_) => Ok(
                    L2capSockAddrView {
                        addr: spec_reversed(raw.subrange(4, 10)),
                        type_,
                        psm: u16_from_le(raw.subrange(2, 4)) as u16,
                        cid: u16_from_le(raw.subrange(10, 12)) as u16,
                    },
                ),
            }
        }
    }

    /// The address of a device on a multiplexer, with no channel identifier.
    pub fn new(addr: MacAddress, type_: AddressType, psm: u16) -> (r: Self)
        ensures
            r@ == (L2capSockAddrView { addr: addr@, type_, psm, cid: 0 }),
    {
        L2capSockAddr { addr, type_, psm, cid: 0 }
    }

    /// The address of a device on the object transfer channel, 0x25.
    pub fn new_le_cid_ots(mac_address: MacAddress, address_type: AddressType) -> (r: Self)
        ensures
            r@ == (L2capSockAddrView {
                addr: mac_address@,
                type_: address_type,
                psm: 0x25,
                cid: 0,
            }),
    {
        Self::new(mac_address, address_type, Psm::L2CapLeCidOts.value())
    }

    /// The address of a device on the first dynamic channel, 0x80.
    pub fn new_le_dyn_start(mac_address: MacAddress, address_type: AddressType) -> (r: Self)
        ensures
            r@ == (L2capSockAddrView {
                addr: mac_address@,
                type_: address_type,
                psm: 0x80,
                cid: 0,
            }),
    {
        Self::new(mac_address, address_type, Psm::L2CapLeDynStart.value())
    }

    /// The address record of the kernel.
    pub fn to_bytes(&self) -> (r: Vec<u8>)
        ensures
            r@ == self.spec_encode(),
            r@.len() == SOCKADDR_LEN,
    {
        let mut out: Vec<u8> = Vec::with_capacity(14);
        push_u16(&mut out, AF_BLUETOOTH);
        push_u16(&mut out, self.psm);
        let rev: [u8; 6] = reversed(&self.addr);
        out.push(rev[0]);
        out.push(rev[1]);
        out.push(rev[2]);
        out.push(rev[3]);
        out.push(rev[4]);
        out.push(rev[5]);
        push_u16(&mut out, self.cid);
        out.push(self.type_.code());
        out.push(0);
        assert(out@ =~= self.spec_encode());
        out
    }

    /// Decodes an address record of the kernel.
    pub fn try_from(raw: &[u8]) -> (r: Result<Self, InvalidInput>)
        ensures
            match Self::spec_decode(raw@) {
                Ok(v) => r matches Ok(a) && a@ == v,
                Err(e) => r matches Err(f) && f == e,
            },
    {
        if raw.len() < 13 {
            return Err(InvalidInput::Size);
        }
        if read_u16(raw, 0) != AF_BLUETOOTH {
            return Err(InvalidInput::AddressFamily);
        }
        let type_: AddressType = match AddressType::try_from(raw[12]) {
            Ok(t) => t,
            Err(e) => {
                return Err(e);
            },
        };
        let addr: [u8; 6] = [raw[9], raw[8], raw[7], raw[6], raw[5], raw[4]];
        assert(addr@ =~= spec_reversed(raw@.subrange(4, 10)));
        Ok(L2capSockAddr { addr, type_, psm: read_u16(raw, 2), cid: read_u16(raw, 10) })
    }

    /// An address is unchanged by encoding and decoding.
    pub proof fn lemma_round_trip(self)
        ensures
            Self::spec_decode(self.spec_encode()) == Ok::<L2capSockAddrView, InvalidInput>(self@),
    {
        let raw = self.spec_encode();
        crate::le::lemma_u16_round_trip(AF_BLUETOOTH as int);
        crate::le::lemma_u16_round_trip(self.psm as int);
        crate::le::lemma_u16_round_trip(self.cid as int);
        assert(raw.subrange(0, 2) =~= u16_to_le(AF_BLUETOOTH as int));
        assert(raw.subrange(2, 4) =~= u16_to_le(self.psm as int));
        assert(raw.subrange(4, 10) =~= spec_reversed(self.addr@));
        assert(raw.subrange(10, 12) =~= u16_to_le(self.cid as int));
        lemma_reversed_twice(self.addr@);
    }
}

/// Where a data channel stands in its life.
#[derive(Debug, Clone, Copy, PartialEq, Eq, Hash, Structural)]
pub enum SocketState {
    /// Created, with no local address yet.
    Unbound,
    /// Bound to the local address.
    Bound,
    /// The connection was asked for and has not come about yet.
    Connecting,
    /// Open in both directions.
    Connected,
    /// Open for reading only.
    HalfClosed,
    /// Closed.
    Closed,
    /// Ended by an error.
    Failed,
}

/// What can happen to a data channel.
#[derive(Debug, Clone, Copy, PartialEq, Eq, Hash, Structural)]
pub enum SocketEvent {
    /// The security was set.
    SetSecurity,
    /// The socket was bound.
    Bind,
    /// The connection was asked for and the socket made non-blocking.
    Connect,
    /// The socket became writable; with it comes the error that the socket holds, or 0.
    Writable { pending_error: i32 },
    /// The socket did not become writable in time.
    TimedOut,
    /// The writing direction was shut down.
    Shutdown,
    /// The socket was closed.
    Close,
    /// An operation on the socket failed.
    Error,
}

impl SocketState {
    /// The state that follows an event, or `None` where the event has no place in the
    /// state.
    ///
    /// The way to `Connected` is `Unbound`, `Bound`, `Connecting`: security is set before
    /// the socket is bound, and the connection has come about when the socket is
    /// writable and holds no error.  A failure ends the channel, and so does closing it.
    pub open spec fn spec_next(self, event: SocketEvent) -> Option<SocketState> {
        match (self, event) {
            (SocketState::Failed, _) => None,
            (SocketState::Closed, _) => None,
            (_, SocketEvent::Error) => Some(SocketState::Failed),
            (_, SocketEvent::Close) => Some(SocketState::Closed),
            (SocketState::Unbound, SocketEvent::SetSecurity) => Some(SocketState::Unbound),
            (SocketState::Unbound, SocketEvent::Bind) => Some(SocketState::Bound),
            (SocketState::Bound, SocketEvent::Connect) => Some(SocketState::Connecting),
            (SocketState::Connecting, SocketEvent::Writable { pending_error }) => Some(
                if pending_error == 0 {
                    SocketState::Connected
                } else {
                    SocketState::Failed
                },
            ),
            (SocketState::Connecting, SocketEvent::TimedOut) => Some(SocketState::Failed),
            (SocketState::Connected, SocketEvent::Shutdown) => Some(SocketState::HalfClosed),
            _ => None,
        }
    }

    /// Whether data can be read from the channel.
    pub open spec fn spec_can_read(self) -> bool {
        self == SocketState::Connected || self == SocketState::HalfClosed
    }

    /// Whether data can be written to the channel.
    pub open spec fn spec_can_write(self) -> bool {
        self == SocketState::Connected
    }

    /// The state that follows an event, or `None` where the event has no place in the
    /// state.
    pub fn next(&self, event: &SocketEvent) -> (r: Option<SocketState>)
        ensures
            r == self.spec_next(*event),
    {
        match (self, event) {
            (SocketState::Failed, _) => None,
            (SocketState::Closed, _) => None,
            (_, SocketEvent::Error) => Some(SocketState::Failed),
            (_, SocketEvent::Close) => Some(SocketState::Closed),
            (SocketState::Unbound, SocketEvent::SetSecurity) => Some(SocketState::Unbound),
            (SocketState::Unbound, SocketEvent::Bind) => Some(SocketState::Bound),
            (SocketState::Bound, SocketEvent::Connect) => Some(SocketState::Connecting),
            (SocketState::Connecting, SocketEvent::Writable { pending_error }) => Some(
                if *pending_error == 0 {
                    SocketState::Connected
                } else {
                    SocketState::Failed
                },
            ),
            (SocketState::Connecting, SocketEvent::TimedOut) => Some(SocketState::Failed),
            (SocketState::Connected, SocketEvent::Shutdown) => Some(SocketState::HalfClosed),
            _ => None,
        }
    }

    /// Whether data can be read from the channel.
    pub fn can_read(&self) -> (r: bool)
        ensures
            r == self.spec_can_read(),
    {
        match self {
            SocketState::Connected => true,
            SocketState::HalfClosed => true,
            _ => false,
        }
    }

    /// Whether data can be written to the channel.
    pub fn can_write(&self) -> (r: bool)
        ensures
            r == self.spec_can_write(),
    {
        match self {
            SocketState::Connected => true,
            _ => false,
        }
    }

    /// A channel that has failed or was closed takes no further event.
    pub proof fn lemma_terminal(self, event: SocketEvent)
        requires
            self == SocketState::Failed || self == SocketState::Closed,
        ensures
            self.spec_next(event) is None,
    {
    }

    /// There is one way into each state on the path to an open channel: a channel is
    /// bound from `Unbound`, asked to connect from `Bound`, and open from `Connecting`,
    /// when it is writable and holds no error.
    pub proof fn lemma_only_way_in(self, event: SocketEvent)
        ensures
            self.spec_next(event) == Some(SocketState::Bound) ==> self == SocketState::Unbound
                && event == SocketEvent::Bind,
            self.spec_next(event) == Some(SocketState::Connecting) ==> self == SocketState::Bound
                && event == SocketEvent::Connect,
            self.spec_next(event) == Some(SocketState::Connected) ==> self
                == SocketState::Connecting && event == (SocketEvent::Writable {
                pending_error: 0,
            }),
            self.spec_next(event) == Some(SocketState::HalfClosed) ==> self
                == SocketState::Connected && event == SocketEvent::Shutdown,
    {
    }
}

/// How the wait for a connection ended.
#[derive(Debug, Clone, Copy, PartialEq, Eq, Hash, Structural)]
pub enum Connected {
    /// The channel is open.
    Open,
    /// The socket did not become writable in time.
    TimedOut,
    /// The socket became writable and holds this error.
    Refused(i32),
}

impl Connected {
    /// How the wait for a connection ended with an event, or `None` where the event does
    /// not end it.
    pub open spec fn spec_of(event: SocketEvent) -> Option<Connected> {
        match event {
            SocketEvent::Writable { pending_error } => Some(
                if pending_error == 0 {
                    Connected::Open
                } else {
                    Connected::Refused(pending_error)
                },
            ),
            SocketEvent::TimedOut => Some(Connected::TimedOut),
            _ => None,
        }
    }

    /// The error of the library that the end of the wait stands for: `Timeout` where the
    /// time ran out.  An error of the socket is the socket's own.
    pub open spec fn spec_error(self) -> Option<crate::error::Error> {
        match self {
            Connected::TimedOut => Some(crate::error::Error::Timeout),
            _ => None,
        }
    }

    /// How the wait for a connection ended with an event.
    pub fn of(event: &SocketEvent) -> (r: Option<Connected>)
        ensures
            r == Self::spec_of(*event),
    {
        match event {
            SocketEvent::Writable { pending_error } => {
                if *pending_error == 0 {
                    Some(Connected::Open)
                } else {
                    Some(Connected::Refused(*pending_error))
                }
            },
            SocketEvent::TimedOut => Some(Connected::TimedOut),
            _ => None,
        }
    }

    /// The error of the library that the end of the wait stands for.
    pub fn error(&self) -> (r: Option<crate::error::Error>)
        ensures
            r == self.spec_error(),
    {
        match self {
            Connected::TimedOut => Some(crate::error::Error::Timeout),
            _ => None,
        }
    }

    /// A channel that waits for its connection is open afterwards exactly when the wait
    /// ended with `Open`; a wait that ran out leaves it failed, with `Timeout`.
    pub proof fn lemma_connecting(event: SocketEvent)
        ensures
            SocketState::Connecting.spec_next(event) == Some(SocketState::Connected)
                <==> Self::spec_of(event) == Some(Connected::Open),
            SocketState::Connecting.spec_next(SocketEvent::TimedOut) == Some(SocketState::Failed),
            Self::spec_of(SocketEvent::TimedOut) == Some(Connected::TimedOut),
            Connected::TimedOut.spec_error() == Some(crate::error::Error::Timeout),
    {
    }
}

/// How one attempt to read or write on a non-blocking socket ended.
#[derive(Debug, Clone, Copy, PartialEq, Eq, Hash, Structural)]
pub enum IoOutcome {
    /// So many bytes were moved.
    Done(usize),
    /// The socket was not ready after all.
    WouldBlock,
    /// The attempt failed.
    Failed,
}

/// What to do after an attempt to read or write.
#[derive(Debug, Clone, Copy, PartialEq, Eq, Hash, Structural)]
pub enum IoAction {
    /// Report so many bytes as moved.
    Advance(usize),
    /// Forget that the socket was ready, wait until it is again, and try once more.
    Retry,
    /// Report the failure.
    Fail,
}

impl IoOutcome {
    /// What to do after the attempt.
    pub open spec fn spec_action(self) -> IoAction {
        match self {
            IoOutcome::Done(n) => IoAction::Advance(n),
            IoOutcome::WouldBlock => IoAction::Retry,
            IoOutcome::Failed => IoAction::Fail,
        }
    }

    /// What to do after the attempt.
    pub fn action(&self) -> (r: IoAction)
        ensures
            r == self.spec_action(),
    {
        match self {
            IoOutcome::Done(n) => IoAction::Advance(*n),
            IoOutcome::WouldBlock => IoAction::Retry,
            IoOutcome::Failed => IoAction::Fail,
        }
    }
}

} // verus!
