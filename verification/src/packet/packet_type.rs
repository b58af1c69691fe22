//! The numeric codes of the packet kinds.
//!
//! Requests and responses have a code set each. The sets overlap, so a code
//! names a kind only once it is known which set applies.

use vstd::prelude::*;

use crate::error::PacketError;

verus! {

/// The kinds of packet that a client sends.
#[derive(PartialEq, Eq, Debug, Clone, Copy, Hash, Structural)]
pub enum RequestPacketType {
    /// Carries the password.
    ServerDataAuth,
    /// Carries a command.
    ServerDataExecCommand,
}

/// The kinds of packet that a server sends.
#[derive(PartialEq, Eq, Debug, Clone, Copy, Hash, Structural)]
pub enum ResponsePacketType {
    /// Answers a password.
    ServerDataAuthResponse,
    /// Carries the output of a command, or a part of it.
    ServerDataResponseValue,
}

impl RequestPacketType {
    /// The code of this kind on the wire.
    pub open spec fn spec_code(self) -> i32 {
        match self {
            RequestPacketType::ServerDataAuth => 3,
            RequestPacketType::ServerDataExecCommand => 2,
        }
    }

    /// The request kind with code `code`, if there is one.
    pub open spec fn spec_from_i32(code: i32) -> Option<RequestPacketType> {
        if code == 3 {
            Some(RequestPacketType::ServerDataAuth)
        } else if code == 2 {
            Some(RequestPacketType::ServerDataExecCommand)
        } else {
            None
        }
    }

    /// The code of this kind on the wire.
    #[verifier::when_used_as_spec(spec_code)]
    pub fn code(self) -> (code: i32)
        ensures
            code == self.spec_code(),
    {
        match self {
            RequestPacketType::ServerDataAuth => 3,
            RequestPacketType::ServerDataExecCommand => 2,
        }
    }

    /// The request kind with code `code`, if there is one.
    #[verifier::when_used_as_spec(spec_from_i32)]
    pub fn from_i32(code: i32) -> (kind: Option<RequestPacketType>)
        ensures
            kind == Self::spec_from_i32(code),
    {
        if code == 3 {
            Some(RequestPacketType::ServerDataAuth)
        } else if code == 2 {
            Some(RequestPacketType::ServerDataExecCommand)
        } else {
            None
        }
    }

    /// The request kind with code `code`; a code outside the set is malformed.
    pub fn from_code(code: i32) -> (kind: Result<RequestPacketType, PacketError>)
        ensures
            match Self::spec_from_i32(code) {
                Some(k) => kind == Ok::<RequestPacketType, PacketError>(k),
                None => kind == Err::<RequestPacketType, PacketError>(
                    PacketError::MalformedPacketError,
                ),
            },
    {
        match Self::from_i32(code) {
            Some(k) => Ok(k),
            None => Err(PacketError::MalformedPacketError),
        }
    }

    /// A kind is found again from its code, and a code from the kind it names.
    pub proof fn lemma_code_round_trip(kind: RequestPacketType, code: i32)
        ensures
            Self::spec_from_i32(kind.spec_code()) == Some(kind),
            Self::spec_from_i32(code) matches Some(k) ==> k.spec_code() == code,
    {
    }
}

impl ResponsePacketType {
    /// The code of this kind on the wire.
    pub open spec fn spec_code(self) -> i32 {
        match self {
            ResponsePacketType::ServerDataAuthResponse => 2,
            ResponsePacketType::ServerDataResponseValue => 0,
        }
    }

    /// The response kind with code `code`, if there is one.
    pub open spec fn spec_from_i32(code: i32) -> Option<ResponsePacketType> {
        if code == 2 {
            Some(ResponsePacketType::ServerDataAuthResponse)
        } else if code == 0 {
            Some(ResponsePacketType::ServerDataResponseValue)
        } else {
            None
        }
    }

    /// The code of this kind on the wire.
    #[verifier::when_used_as_spec(spec_code)]
    pub fn code(self) -> (code: i32)
        ensures
            code == self.spec_code(),
    {
        match self {
            ResponsePacketType::ServerDataAuthResponse => 2,
            ResponsePacketType::ServerDataResponseValue => 0,
        }
    }

    /// The response kind with code `code`, if there is one.
    #[verifier::when_used_as_spec(spec_from_i32)]
    pub fn from_i32(code: i32) -> (kind: Option<ResponsePacketType>)
        ensures
            kind == Self::spec_from_i32(code),
    {
        if code == 2 {
            Some(ResponsePacketType::ServerDataAuthResponse)
        } else if code == 0 {
            Some(ResponsePacketType::ServerDataResponseValue)
        } else {
            None
        }
    }

    /// The response kind with code `code`; a code outside the set is malformed.
    pub fn from_code(code: i32) -> (kind: Result<ResponsePacketType, PacketError>)
        ensures
            match Self::spec_from_i32(code) {
                Some(k) => kind == Ok::<ResponsePacketType, PacketError>(k),
                None => kind == Err::<ResponsePacketType, PacketError>(
                    PacketError::MalformedPacketError,
                ),
            },
    {
        match Self::from_i32(code) {
            Some(k) => Ok(k),
            None => Err(PacketError::MalformedPacketError),
        }
    }

    /// A kind is found again from its code, and a code from the kind it names.
    pub proof fn lemma_code_round_trip(kind: ResponsePacketType, code: i32)
        ensures
            Self::spec_from_i32(kind.spec_code()) == Some(kind),
            Self::spec_from_i32(code) matches Some(k) ==> k.spec_code() == code,
    {
    }
}

} // verus!
