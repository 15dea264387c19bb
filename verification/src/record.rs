//! Listing records: the raw shape handed in by the decoding layer and the
//! normalized shape the filter and the result set work with.

use vstd::prelude::*;
use vstd::string::StringExecFns;
use crate::text::truncated;
use crate::text::truncate_name;

verus! {

/// One listing entry as the upstream page carries it, after decoding:
/// every field may be absent.
pub struct RawRecord {
    pub name: Option<String>,
    pub players: Option<u32>,
    pub max_players: Option<u32>,
    pub map: Option<String>,
    pub mode: Option<String>,
    pub country: Option<String>,
}

/// Mathematical model of a raw record.
#[verifier::ext_equal]
pub struct RawRecordV {
    pub name: Option<Seq<char>>,
    pub players: Option<u32>,
    pub max_players: Option<u32>,
    pub map: Option<Seq<char>>,
    pub mode: Option<Seq<char>>,
    pub country: Option<Seq<char>>,
}

pub open spec fn opt_chars(o: Option<String>) -> Option<Seq<char>> {
    match o {
        Some(s) => Some(s@),
        None => None,
    }
}

impl View for RawRecord {
    type V = RawRecordV;

    open spec fn view(&self) -> RawRecordV {
        RawRecordV {
            name: opt_chars(self.name),
            players: self.players,
            max_players: self.max_players,
            map: opt_chars(self.map),
            mode: opt_chars(self.mode),
            country: opt_chars(self.country),
        }
    }
}

impl DeepView for RawRecord {
    type V = RawRecordV;

    open spec fn deep_view(&self) -> RawRecordV {
        self.view()
    }
}

/// One normalized listing entry, immutable once constructed.
#[derive(Debug)]
pub struct ServerRecord {
    pub name: String,
    pub players: u32,
    pub max_players: u32,
    pub map: String,
    pub mode: String,
    pub country: String,
}

/// Mathematical model of a normalized record.
#[verifier::ext_equal]
pub struct RecordV {
    pub name: Seq<char>,
    pub players: u32,
    pub max_players: u32,
    pub map: Seq<char>,
    pub mode: Seq<char>,
    pub country: Seq<char>,
}

impl View for ServerRecord {
    type V = RecordV;

    open spec fn view(&self) -> RecordV {
        RecordV {
            name: self.name@,
            players: self.players,
            max_players: self.max_players,
            map: self.map@,
            mode: self.mode@,
            country: self.country@,
        }
    }
}

impl DeepView for ServerRecord {
    type V = RecordV;

    open spec fn deep_view(&self) -> RecordV {
        self.view()
    }
}

/// A required field of a raw record is absent.
#[derive(Clone, Copy, Debug, PartialEq, Eq, Structural)]
pub enum MalformedRecord {
    MissingName,
    MissingPlayers,
    MissingCapacity,
}

/// The raw record carries every required field.
pub open spec fn required_present(raw: RawRecordV) -> bool {
    &&& raw.name is Some
    &&& raw.players is Some
    &&& raw.max_players is Some
}

/// The error a malformed raw record normalizes to: the first absent
/// required field, in the order name, player count, capacity.
pub open spec fn missing_field(raw: RawRecordV) -> MalformedRecord {
    if raw.name is None {
        MalformedRecord::MissingName
    } else if raw.players is None {
        MalformedRecord::MissingPlayers
    } else {
        MalformedRecord::MissingCapacity
    }
}

/// A text field with its fallback for an absent value.
pub open spec fn or_default(o: Option<Seq<char>>, dflt: Seq<char>) -> Seq<char> {
    match o {
        Some(s) => s,
        None => dflt,
    }
}

/// The normalized record a well-formed raw record maps to: the name is
/// truncated for display, absent optional fields take fixed fallbacks.
pub open spec fn normalized_of(raw: RawRecordV) -> RecordV
    recommends
        required_present(raw),
{
    RecordV {
        name: truncated(raw.name->0),
        players: raw.players->0,
        max_players: raw.max_players->0,
        map: or_default(raw.map, "Unknown"@),
        mode: or_default(raw.mode, "Unknown"@),
        country: or_default(raw.country, "??"@),
    }
}

/// Map a raw record to a normalized record, or report which required field
/// is absent. Absent optional fields never fail.
pub fn normalize(raw: &RawRecord) -> (r: Result<ServerRecord, MalformedRecord>)
    ensures
        r is Ok <==> required_present(raw@),
        r matches Ok(rec) ==> rec@ == normalized_of(raw@),
        r matches Err(e) ==> e == missing_field(raw@),
{
    let name = match &raw.name {
        Some(n) => n,
        None => {
            return Err(MalformedRecord::MissingName);
        },
    };
    let players = match raw.players {
        Some(p) => p,
        None => {
            return Err(MalformedRecord::MissingPlayers);
        },
    };
    let max_players = match raw.max_players {
        Some(m) => m,
        None => {
            return Err(MalformedRecord::MissingCapacity);
        },
    };
    let map = match &raw.map {
        Some(m) => m.clone(),
        None => String::from_str("Unknown"),
    };
    let mode = match &raw.mode {
        Some(m) => m.clone(),
        None => String::from_str("Unknown"),
    };
    let country = match &raw.country {
        Some(c) => c.clone(),
        None => String::from_str("??"),
    };
    Ok(ServerRecord {
        name: truncate_name(name.as_str()),
        players,
        max_players,
        map,
        mode,
        country,
    })
}

} // verus!
