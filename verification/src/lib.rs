//! An SSH v2 transport and authentication engine.
//!
//! The crate models the session-level protocol machine: identification
//! exchange, the binary packet protocol with key exchange and rekeying,
//! negotiation of symmetric ciphers, MACs and compression, and the
//! `ssh-userauth` service on both sides. All protocol decisions are pure
//! functions over bytes and explicit state; a host drives the byte I/O
//! around them.

use vstd::prelude::*;

pub mod algo;
pub mod auth;
pub mod connect;
pub mod crypto;
pub mod ident;
pub mod kex;
pub mod keys;
pub mod mac;
pub mod transport;
pub mod msg;
pub mod session;
pub mod stream;
pub mod userauth;
pub mod wire;

verus! {

/// Which side of the connection ended the session.
#[derive(Clone, Copy, PartialEq, Eq, Structural, Debug)]
pub enum DisconnectedBy {
    /// The local side sent the disconnect.
    Us,
    /// The peer sent the disconnect.
    Them,
}

/// SSH disconnect reason codes (RFC 4253 §11.1).
#[derive(Clone, Copy, PartialEq, Eq, Structural, Debug)]
pub enum DisconnectReason {
    HostNotAllowedToConnect,
    ProtocolError,
    KeyExchangeFailed,
    Reserved,
    MacError,
    CompressionError,
    ServiceNotAvailable,
    ProtocolVersionNotSupported,
    HostKeyNotVerifiable,
    ConnectionLost,
    ByApplication,
    TooManyConnections,
    AuthCancelledByUser,
    NoMoreAuthMethodsAvailable,
    IllegalUserName,
}

impl DisconnectReason {
    /// The wire code of the reason (RFC 4253 §11.1).
    pub open spec fn spec_code(self) -> u32 {
        match self {
            DisconnectReason::HostNotAllowedToConnect => 1,
            DisconnectReason::ProtocolError => 2,
            DisconnectReason::KeyExchangeFailed => 3,
            DisconnectReason::Reserved => 4,
            DisconnectReason::MacError => 5,
            DisconnectReason::CompressionError => 6,
            DisconnectReason::ServiceNotAvailable => 7,
            DisconnectReason::ProtocolVersionNotSupported => 8,
            DisconnectReason::HostKeyNotVerifiable => 9,
            DisconnectReason::ConnectionLost => 10,
            DisconnectReason::ByApplication => 11,
            DisconnectReason::TooManyConnections => 12,
            DisconnectReason::AuthCancelledByUser => 13,
            DisconnectReason::NoMoreAuthMethodsAvailable => 14,
            DisconnectReason::IllegalUserName => 15,
        }
    }

    /// Encode the reason as its wire code.
    pub fn code(self) -> (r: u32)
        ensures
            r == self.spec_code(),
    {
        match self {
            DisconnectReason::HostNotAllowedToConnect => 1,
            DisconnectReason::ProtocolError => 2,
            DisconnectReason::KeyExchangeFailed => 3,
            DisconnectReason::Reserved => 4,
            DisconnectReason::MacError => 5,
            DisconnectReason::CompressionError => 6,
            DisconnectReason::ServiceNotAvailable => 7,
            DisconnectReason::ProtocolVersionNotSupported => 8,
            DisconnectReason::HostKeyNotVerifiable => 9,
            DisconnectReason::ConnectionLost => 10,
            DisconnectReason::ByApplication => 11,
            DisconnectReason::TooManyConnections => 12,
            DisconnectReason::AuthCancelledByUser => 13,
            DisconnectReason::NoMoreAuthMethodsAvailable => 14,
            DisconnectReason::IllegalUserName => 15,
        }
    }

    /// The reason a wire code stands for, if any.
    pub open spec fn spec_from_code(code: u32) -> Option<DisconnectReason> {
        if code == 1 { Some(DisconnectReason::HostNotAllowedToConnect) }
        else if code == 2 { Some(DisconnectReason::ProtocolError) }
        else if code == 3 { Some(DisconnectReason::KeyExchangeFailed) }
        else if code == 4 { Some(DisconnectReason::Reserved) }
        else if code == 5 { Some(DisconnectReason::MacError) }
        else if code == 6 { Some(DisconnectReason::CompressionError) }
        else if code == 7 { Some(DisconnectReason::ServiceNotAvailable) }
        else if code == 8 { Some(DisconnectReason::ProtocolVersionNotSupported) }
        else if code == 9 { Some(DisconnectReason::HostKeyNotVerifiable) }
        else if code == 10 { Some(DisconnectReason::ConnectionLost) }
        else if code == 11 { Some(DisconnectReason::ByApplication) }
        else if code == 12 { Some(DisconnectReason::TooManyConnections) }
        else if code == 13 { Some(DisconnectReason::AuthCancelledByUser) }
        else if code == 14 { Some(DisconnectReason::NoMoreAuthMethodsAvailable) }
        else if code == 15 { Some(DisconnectReason::IllegalUserName) }
        else { None }
    }

    /// Decode a wire code into a reason.
    pub fn from_code(code: u32) -> (r: Option<DisconnectReason>)
        ensures
            r == DisconnectReason::spec_from_code(code),
    {
        if code == 1 { Some(DisconnectReason::HostNotAllowedToConnect) }
        else if code == 2 { Some(DisconnectReason::ProtocolError) }
        else if code == 3 { Some(DisconnectReason::KeyExchangeFailed) }
        else if code == 4 { Some(DisconnectReason::Reserved) }
        else if code == 5 { Some(DisconnectReason::MacError) }
        else if code == 6 { Some(DisconnectReason::CompressionError) }
        else if code == 7 { Some(DisconnectReason::ServiceNotAvailable) }
        else if code == 8 { Some(DisconnectReason::ProtocolVersionNotSupported) }
        else if code == 9 { Some(DisconnectReason::HostKeyNotVerifiable) }
        else if code == 10 { Some(DisconnectReason::ConnectionLost) }
        else if code == 11 { Some(DisconnectReason::ByApplication) }
        else if code == 12 { Some(DisconnectReason::TooManyConnections) }
        else if code == 13 { Some(DisconnectReason::AuthCancelledByUser) }
        else if code == 14 { Some(DisconnectReason::NoMoreAuthMethodsAvailable) }
        else if code == 15 { Some(DisconnectReason::IllegalUserName) }
        else { None }
    }
}

/// The sticky terminal state of a session: who disconnected, why, and the
/// UTF-8 description that went over the wire.
#[derive(Clone, Debug)]
pub struct DisconnectedError {
    /// Which side sent the DISCONNECT message.
    pub by: DisconnectedBy,
    /// The reason code carried by the message.
    pub reason: DisconnectReason,
    /// The description carried by the message.
    pub description: Vec<u8>,
}

/// Everything that can go wrong in the protocol engine.
#[derive(Clone, Debug)]
pub enum Error {
    /// A message arrived that the current state does not allow.
    UnexpectedMessage,
    /// No common key-exchange algorithm between the two KEXINITs.
    NoCommonKex,
    /// No common host-key algorithm between the two KEXINITs.
    NoCommonHostKey,
    /// No common cipher between the two KEXINITs.
    NoCommonCipher,
    /// No common MAC between the two KEXINITs.
    NoCommonMac,
    /// No common compression between the two KEXINITs.
    NoCommonCompression,
    /// A cryptographic check failed during key exchange.
    KexError,
    /// The MAC of a received packet did not verify.
    MacMismatch,
    /// A received packet violates the framing rules (length or padding).
    MalformedPacket,
    /// The session is over; all operations return this same value.
    Disconnected(DisconnectedError),
    /// Every configured authentication method was refused.
    UserauthFailed,
    /// The host saw a timeout while waiting for peer bytes.
    Timeout,
}

/// A convenient result alias over [`Error`].
pub type SshResult<T> = Result<T, Error>;

} // verus!
