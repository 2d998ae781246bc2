use vstd::prelude::*;
use crate::connection::Connection;
use crate::token::same_text;

verus! {

/// State of a node.
#[derive(Debug, Clone, Copy, PartialEq, Eq)]
pub enum Status {
    Online,
    Suspended,
    Error,
}

impl Status {
    /// The token that stands for the state on the wire.
    pub open spec fn token_spec(self) -> Seq<char> {
        match self {
            Status::Online => "ONLINE"@,
            Status::Suspended => "SUSPENDED"@,
            Status::Error => "ERROR"@,
        }
    }

    /// The token that stands for the state on the wire.
    pub fn token(&self) -> (r: &'static str)
        ensures
            r@ == self.token_spec(),
    {
        match self {
            Status::Online => "ONLINE",
            Status::Suspended => "SUSPENDED",
            Status::Error => "ERROR",
        }
    }

    /// The state a token stands for; `None` for an unknown token.
    pub fn from_token(token: &str) -> (r: Option<Status>)
        ensures
            r matches Some(s) ==> s.token_spec() == token@,
            r is None ==> forall|s: Status| s.token_spec() != token@,
    {
        proof {
            reveal_strlit("ONLINE");
            reveal_strlit("SUSPENDED");
            reveal_strlit("ERROR");
        }
        if same_text(token, "ONLINE") {
            Some(Status::Online)
        } else if same_text(token, "SUSPENDED") {
            Some(Status::Suspended)
        } else if same_text(token, "ERROR") {
            Some(Status::Error)
        } else {
            None
        }
    }
}

/// A node of the network.
#[derive(Debug, Clone)]
pub struct Node {
    pub name: String,
    pub version: String,
    pub status: Status,
    pub longitude: String,
    pub latitude: String,
    pub owners: Vec<String>,
    pub connection: Option<Connection>,
}

} // verus!
