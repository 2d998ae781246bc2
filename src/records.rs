use vstd::prelude::*;

verus! {

/// A registered call sign.
#[derive(Debug, Clone)]
pub struct Callsign {
    pub name: String,
    pub description: String,
    pub numeric: bool,
    pub owners: Vec<String>,
}

/// A news channel.
#[derive(Debug, Clone)]
pub struct Rubric {
    pub name: String,
    pub label: String,
    pub number: i64,
    pub transmitter_groups: Vec<String>,
    pub owners: Vec<String>,
}

/// A named set of transmitters.
#[derive(Debug, Clone)]
pub struct TransmitterGroup {
    pub name: String,
    pub description: String,
    pub transmitters: Vec<String>,
    pub owners: Vec<String>,
}

/// Counters over the whole network.
#[derive(Debug, Clone, Copy, PartialEq, Eq)]
pub struct Statistics {
    pub users: i64,
    pub callsigns: i64,
    pub calls: i64,
    pub calls_total: i64,
    pub nodes_online: i64,
    pub nodes_total: i64,
    pub transmitters_online: i64,
    pub transmitters_total: i64,
    pub rubrics: i64,
    pub news: i64,
    pub news_total: i64,
}

} // verus!
