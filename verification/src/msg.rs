//! Message data model: the enumerated byte codes of the wire protocol
//! and the structured forms of the messages that travel over it.

use vstd::prelude::*;

verus! {

/// The single protocol version every SOCKS5 message carries.
pub const SOCKS_VERSION: u8 = 5;

/// The sentinel method code sent when no offered method is acceptable.
pub const NO_ACCEPTABLE_METHODS: u8 = 0xFF;

/// Authentication methods the negotiator knows by name. The configured
/// set is kept as raw bytes so that further methods can be registered;
/// `NoAcceptableMethods` is only ever sent in replies.
#[derive(Clone, Copy, Debug, PartialEq, Eq, Structural)]
pub enum AuthMethods {
    NoAuth,
    NoAcceptableMethods,
}

/// The wire code of an authentication method.
pub open spec fn auth_method_code(m: AuthMethods) -> u8 {
    match m {
        AuthMethods::NoAuth => 0x00,
        AuthMethods::NoAcceptableMethods => 0xFF,
    }
}

impl AuthMethods {
    /// The byte this method is written as on the wire.
    pub fn code(self) -> (c: u8)
        ensures
            c == auth_method_code(self),
    {
        match self {
            AuthMethods::NoAuth => 0x00,
            AuthMethods::NoAcceptableMethods => 0xFF,
        }
    }
}

/// The three request commands of the protocol.
#[derive(Clone, Copy, Debug, PartialEq, Eq, Structural)]
pub enum SockCommand {
    Connect,
    Bind,
    UdpAssociate,
}

/// The wire code of a command.
pub open spec fn command_code(c: SockCommand) -> u8 {
    match c {
        SockCommand::Connect => 0x01,
        SockCommand::Bind => 0x02,
        SockCommand::UdpAssociate => 0x03,
    }
}

/// Which command a byte denotes, if any.
pub open spec fn command_from_byte(b: u8) -> Option<SockCommand> {
    if b == 0x01 {
        Some(SockCommand::Connect)
    } else if b == 0x02 {
        Some(SockCommand::Bind)
    } else if b == 0x03 {
        Some(SockCommand::UdpAssociate)
    } else {
        None
    }
}

impl SockCommand {
    /// The byte this command is written as on the wire.
    pub fn code(self) -> (c: u8)
        ensures
            c == command_code(self),
    {
        match self {
            SockCommand::Connect => 0x01,
            SockCommand::Bind => 0x02,
            SockCommand::UdpAssociate => 0x03,
        }
    }

    /// Recognizes a command byte; any other value is an
    /// unsupported-command error for the caller.
    pub fn from_byte(b: u8) -> (r: Option<SockCommand>)
        ensures
            r == command_from_byte(b),
    {
        if b == 0x01 {
            Some(SockCommand::Connect)
        } else if b == 0x02 {
            Some(SockCommand::Bind)
        } else if b == 0x03 {
            Some(SockCommand::UdpAssociate)
        } else {
            None
        }
    }
}

/// The three address encodings a destination or bound address may use.
#[derive(Clone, Copy, Debug, PartialEq, Eq, Structural)]
pub enum AddrType {
    V4,
    Domain,
    V6,
}

/// The wire code of an address type.
pub open spec fn atyp_code(t: AddrType) -> u8 {
    match t {
        AddrType::V4 => 0x01,
        AddrType::Domain => 0x03,
        AddrType::V6 => 0x04,
    }
}

/// Which address type a byte denotes, if any.
pub open spec fn atyp_from_byte(b: u8) -> Option<AddrType> {
    if b == 0x01 {
        Some(AddrType::V4)
    } else if b == 0x03 {
        Some(AddrType::Domain)
    } else if b == 0x04 {
        Some(AddrType::V6)
    } else {
        None
    }
}

impl AddrType {
    /// The byte this address type is written as on the wire.
    pub fn code(self) -> (c: u8)
        ensures
            c == atyp_code(self),
    {
        match self {
            AddrType::V4 => 0x01,
            AddrType::Domain => 0x03,
            AddrType::V6 => 0x04,
        }
    }

    /// Recognizes an address-type byte; any other value is a
    /// malformed-request error for the caller.
    pub fn from_byte(b: u8) -> (r: Option<AddrType>)
        ensures
            r == atyp_from_byte(b),
    {
        if b == 0x01 {
            Some(AddrType::V4)
        } else if b == 0x03 {
            Some(AddrType::Domain)
        } else if b == 0x04 {
            Some(AddrType::V6)
        } else {
            None
        }
    }
}

/// The reply codes a server may send after a request.
#[derive(Clone, Copy, Debug, PartialEq, Eq, Structural)]
pub enum ResponseCode {
    Success,
    GeneralFailure,
    NotAllowed,
    NetworkUnreachable,
    HostUnreachable,
    ConnectionRefused,
    TtlExpired,
    CommandNotSupported,
    AddressTypeNotSupported,
}

/// The wire code of a response code.
pub open spec fn response_code_byte(c: ResponseCode) -> u8 {
    match c {
        ResponseCode::Success => 0x00,
        ResponseCode::GeneralFailure => 0x01,
        ResponseCode::NotAllowed => 0x02,
        ResponseCode::NetworkUnreachable => 0x03,
        ResponseCode::HostUnreachable => 0x04,
        ResponseCode::ConnectionRefused => 0x05,
        ResponseCode::TtlExpired => 0x06,
        ResponseCode::CommandNotSupported => 0x07,
        ResponseCode::AddressTypeNotSupported => 0x08,
    }
}

/// Which response code a byte denotes, if any.
pub open spec fn response_code_from_byte(b: u8) -> Option<ResponseCode> {
    if b == 0x00 {
        Some(ResponseCode::Success)
    } else if b == 0x01 {
        Some(ResponseCode::GeneralFailure)
    } else if b == 0x02 {
        Some(ResponseCode::NotAllowed)
    } else if b == 0x03 {
        Some(ResponseCode::NetworkUnreachable)
    } else if b == 0x04 {
        Some(ResponseCode::HostUnreachable)
    } else if b == 0x05 {
        Some(ResponseCode::ConnectionRefused)
    } else if b == 0x06 {
        Some(ResponseCode::TtlExpired)
    } else if b == 0x07 {
        Some(ResponseCode::CommandNotSupported)
    } else if b == 0x08 {
        Some(ResponseCode::AddressTypeNotSupported)
    } else {
        None
    }
}

impl ResponseCode {
    /// The byte this response code is written as on the wire.
    pub fn code(self) -> (c: u8)
        ensures
            c == response_code_byte(self),
    {
        match self {
            ResponseCode::Success => 0x00,
            ResponseCode::GeneralFailure => 0x01,
            ResponseCode::NotAllowed => 0x02,
            ResponseCode::NetworkUnreachable => 0x03,
            ResponseCode::HostUnreachable => 0x04,
            ResponseCode::ConnectionRefused => 0x05,
            ResponseCode::TtlExpired => 0x06,
            ResponseCode::CommandNotSupported => 0x07,
            ResponseCode::AddressTypeNotSupported => 0x08,
        }
    }

    /// Recognizes a response-code byte, for the client half of the codec.
    pub fn from_byte(b: u8) -> (r: Option<ResponseCode>)
        ensures
            r == response_code_from_byte(b),
    {
        if b == 0x00 {
            Some(ResponseCode::Success)
        } else if b == 0x01 {
            Some(ResponseCode::GeneralFailure)
        } else if b == 0x02 {
            Some(ResponseCode::NotAllowed)
        } else if b == 0x03 {
            Some(ResponseCode::NetworkUnreachable)
        } else if b == 0x04 {
            Some(ResponseCode::HostUnreachable)
        } else if b == 0x05 {
            Some(ResponseCode::ConnectionRefused)
        } else if b == 0x06 {
            Some(ResponseCode::TtlExpired)
        } else if b == 0x07 {
            Some(ResponseCode::CommandNotSupported)
        } else if b == 0x08 {
            Some(ResponseCode::AddressTypeNotSupported)
        } else {
            None
        }
    }
}

/// A destination or bound address: the tag, the raw address bytes
/// (4 for V4, 16 for V6, the bare name for Domain), and the port.
#[derive(Clone, Debug, PartialEq, Eq)]
pub struct Destination {
    pub atyp: AddrType,
    pub addr: Vec<u8>,
    pub port: u16,
}

impl Destination {
    /// Well-formedness: the address length matches the tag; a domain
    /// name must fit its one-byte length prefix.
    pub open spec fn wf(self) -> bool {
        match self.atyp {
            AddrType::V4 => self.addr@.len() == 4,
            AddrType::Domain => self.addr@.len() <= 255,
            AddrType::V6 => self.addr@.len() == 16,
        }
    }
}

/// The client's opening message: the ordered methods it offers.
/// Order is preserved; uniqueness is not required.
#[derive(Clone, Debug, PartialEq, Eq)]
pub struct HandshakeRequest {
    pub methods: Vec<u8>,
}

impl HandshakeRequest {
    /// Well-formedness: the offered set fits its one-byte count.
    pub open spec fn wf(self) -> bool {
        self.methods@.len() <= 255
    }
}

/// A full client request: the command and the destination it names.
#[derive(Clone, Debug, PartialEq, Eq)]
pub struct Request {
    pub command: SockCommand,
    pub dest: Destination,
}

impl Request {
    /// Well-formedness of the carried destination.
    pub open spec fn wf(self) -> bool {
        self.dest.wf()
    }
}

/// A server reply: the response code and the bound address it reports.
/// When no bound address is known the all-zero V4 address is used.
#[derive(Clone, Debug, PartialEq, Eq)]
pub struct Reply {
    pub code: ResponseCode,
    pub bound: Destination,
}

impl Reply {
    /// Well-formedness of the carried bound address.
    pub open spec fn wf(self) -> bool {
        self.bound.wf()
    }
}

} // verus!
