use vstd::prelude::*;
use crate::token::same_text;

verus! {

/// How a transmitter is used.
#[derive(Debug, Clone, Copy, PartialEq, Eq)]
pub enum Usage {
    Personal,
    Widerange,
}

impl Usage {
    /// The token that stands for the value on the wire.
    pub open spec fn token_spec(self) -> Seq<char> {
        match self {
            Usage::Personal => "PERSONAL"@,
            Usage::Widerange => "WIDERANGE"@,
        }
    }

    /// The token that stands for the value on the wire.
    pub fn token(&self) -> (r: &'static str)
        ensures
            r@ == self.token_spec(),
    {
        match self {
            Usage::Personal => "PERSONAL",
            Usage::Widerange => "WIDERANGE",
        }
    }

    /// The value a token stands for; `None` for an unknown token.
    pub fn from_token(token: &str) -> (r: Option<Usage>)
        ensures
            r matches Some(s) ==> s.token_spec() == token@,
            r is None ==> forall|s: Usage| s.token_spec() != token@,
    {
        proof {
            reveal_strlit("PERSONAL");
            reveal_strlit("WIDERANGE");
        }
        if same_text(token, "PERSONAL") {
            Some(Usage::Personal)
        } else if same_text(token, "WIDERANGE") {
            Some(Usage::Widerange)
        } else {
            None
        }
    }
}

/// Kind of antenna of a transmitter.
#[derive(Debug, Clone, Copy, PartialEq, Eq)]
pub enum AntennaType {
    Omnidirectional,
    Directional,
}

impl AntennaType {
    /// The token that stands for the value on the wire.
    pub open spec fn token_spec(self) -> Seq<char> {
        match self {
            AntennaType::Omnidirectional => "OMNI"@,
            AntennaType::Directional => "DIRECTIONAL"@,
        }
    }

    /// The token that stands for the value on the wire.
    pub fn token(&self) -> (r: &'static str)
        ensures
            r@ == self.token_spec(),
    {
        match self {
            AntennaType::Omnidirectional => "OMNI",
            AntennaType::Directional => "DIRECTIONAL",
        }
    }

    /// The value a token stands for; `None` for an unknown token.
    pub fn from_token(token: &str) -> (r: Option<AntennaType>)
        ensures
            r matches Some(s) ==> s.token_spec() == token@,
            r is None ==> forall|s: AntennaType| s.token_spec() != token@,
    {
        proof {
            reveal_strlit("OMNI");
            reveal_strlit("DIRECTIONAL");
        }
        if same_text(token, "OMNI") {
            Some(AntennaType::Omnidirectional)
        } else if same_text(token, "DIRECTIONAL") {
            Some(AntennaType::Directional)
        } else {
            None
        }
    }
}

/// State of a transmitter.
#[derive(Debug, Clone, Copy, PartialEq, Eq)]
pub enum Status {
    Offline,
    Online,
    Error,
}

impl Status {
    /// The token that stands for the value on the wire.
    pub open spec fn token_spec(self) -> Seq<char> {
        match self {
            Status::Offline => "OFFLINE"@,
            Status::Online => "ONLINE"@,
            Status::Error => "ERROR"@,
        }
    }

    /// The token that stands for the value on the wire.
    pub fn token(&self) -> (r: &'static str)
        ensures
            r@ == self.token_spec(),
    {
        match self {
            Status::Offline => "OFFLINE",
            Status::Online => "ONLINE",
            Status::Error => "ERROR",
        }
    }

    /// The value a token stands for; `None` for an unknown token.
    pub fn from_token(token: &str) -> (r: Option<Status>)
        ensures
            r matches Some(s) ==> s.token_spec() == token@,
            r is None ==> forall|s: Status| s.token_spec() != token@,
    {
        proof {
            reveal_strlit("OFFLINE");
            reveal_strlit("ONLINE");
            reveal_strlit("ERROR");
        }
        if same_text(token, "OFFLINE") {
            Some(Status::Offline)
        } else if same_text(token, "ONLINE") {
            Some(Status::Online)
        } else if same_text(token, "ERROR") {
            Some(Status::Error)
        } else {
            None
        }
    }
}

} // verus!
