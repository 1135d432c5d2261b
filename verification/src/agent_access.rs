//! Maturity-access ratings carried in session credentials, with their wire
//! byte values and the textual codes used by the login collaborator.

use vstd::prelude::*;

verus! {

use vstd::string::StringSliceAdditionalSpecFns;

/// Access rating of an agent or a region.
#[derive(Clone, Copy, Debug, PartialEq, Eq, Structural)]
pub enum AgentAccess {
    Adult,
    Mature,
    Down,
    NonExistent,
    Trial,
    General,
    PG,
    Unknown,
}

/// Wire byte of an access rating.
pub open spec fn spec_agent_access_byte(a: AgentAccess) -> u8 {
    match a {
        AgentAccess::General => 2,
        AgentAccess::Trial => 7,
        AgentAccess::PG => 13,
        AgentAccess::Mature => 21,
        AgentAccess::Adult => 42,
        AgentAccess::Down => 254,
        AgentAccess::NonExistent => 255,
        AgentAccess::Unknown => 0,
    }
}

/// Access rating decoded from a wire byte; bytes outside the table decode to
/// `Unknown`.
pub open spec fn spec_agent_access_from_byte(b: u8) -> AgentAccess {
    match b {
        2u8 => AgentAccess::General,
        7u8 => AgentAccess::Trial,
        13u8 => AgentAccess::PG,
        21u8 => AgentAccess::Mature,
        42u8 => AgentAccess::Adult,
        254u8 => AgentAccess::Down,
        255u8 => AgentAccess::NonExistent,
        _ => AgentAccess::Unknown,
    }
}

impl AgentAccess {
    /// Encodes the rating as its wire byte.
    pub fn to_bytes(&self) -> (r: u8)
        ensures
            r == spec_agent_access_byte(*self),
    {
        match self {
            AgentAccess::General => 2,
            AgentAccess::Trial => 7,
            AgentAccess::PG => 13,
            AgentAccess::Mature => 21,
            AgentAccess::Adult => 42,
            AgentAccess::Down => 254,
            AgentAccess::NonExistent => 255,
            _ => 0,
        }
    }

    /// Decodes a wire byte into a rating.
    pub fn from_bytes(bytes: &u8) -> (r: Self)
        ensures
            r == spec_agent_access_from_byte(*bytes),
    {
        match *bytes {
            2 => AgentAccess::General,
            7 => AgentAccess::Trial,
            13 => AgentAccess::PG,
            21 => AgentAccess::Mature,
            42 => AgentAccess::Adult,
            254 => AgentAccess::Down,
            255 => AgentAccess::NonExistent,
            _ => AgentAccess::Unknown,
        }
    }
}

/// Textual code of a rating, as the UTF-8 bytes the login document
/// carries.
pub open spec fn spec_agent_access_code(a: AgentAccess) -> Seq<u8> {
    match a {
        AgentAccess::Down => seq![68u8, 111u8, 119u8, 110u8],
        AgentAccess::NonExistent => Seq::empty(),
        AgentAccess::Trial => seq![84u8],
        AgentAccess::Mature => seq![77u8],
        AgentAccess::Adult => seq![65u8],
        AgentAccess::PG => seq![80u8, 71u8],
        AgentAccess::General => seq![71u8],
        AgentAccess::Unknown => seq![85u8, 110u8, 107u8, 110u8, 111u8, 119u8, 110u8],
    }
}

/// Rating a textual code stands for. The codes are the single-character (or
/// short) strings that the login response carries; any other text maps to
/// `Unknown`.
pub open spec fn spec_agent_access_of_code(code: Seq<u8>) -> AgentAccess {
    if code.len() == 0 {
        AgentAccess::NonExistent
    } else if code.len() == 1 {
        if code[0] == 77u8 {
            AgentAccess::Mature
        } else if code[0] == 65u8 {
            AgentAccess::Adult
        } else if code[0] == 71u8 {
            AgentAccess::General
        } else if code[0] == 84u8 {
            AgentAccess::Trial
        } else {
            AgentAccess::Unknown
        }
    } else if code.len() == 2 {
        if code[0] == 80u8 && code[1] == 71u8 {
            AgentAccess::PG
        } else {
            AgentAccess::Unknown
        }
    } else if code.len() == 4 {
        if code[0] == 68u8 && code[1] == 111u8 && code[2] == 119u8 && code[3] == 110u8 {
            AgentAccess::Down
        } else {
            AgentAccess::Unknown
        }
    } else {
        AgentAccess::Unknown
    }
}

impl AgentAccess {
    /// Encodes the rating as its textual code, byte for byte. The caller
    /// wraps the bytes into the string value the login document wants.
    pub fn to_code(&self) -> (r: Vec<u8>)
        ensures
            r@ == spec_agent_access_code(*self),
    {
        let code: Vec<u8> = match self {
            AgentAccess::Down => vec![68, 111, 119, 110],
            AgentAccess::NonExistent => Vec::new(),
            AgentAccess::Trial => vec![84],
            AgentAccess::Mature => vec![77],
            AgentAccess::Adult => vec![65],
            AgentAccess::PG => vec![80, 71],
            AgentAccess::General => vec![71],
            AgentAccess::Unknown => vec![85, 110, 107, 110, 111, 119, 110],
        };
        proof {
            assert(code@ =~= spec_agent_access_code(*self));
        }
        code
    }
}

/// Reading back the code a rating was written as gives the rating: the
/// seven registered codes decode to their ratings, and the code written
/// for `Unknown` is itself outside the table, so it decodes to `Unknown`.
pub proof fn lemma_agent_access_code_round_trip(a: AgentAccess)
    ensures
        spec_agent_access_of_code(spec_agent_access_code(a)) == a,
{
}

/// Decodes the textual access code of a login response, if one is present.
/// The caller extracts the string from the response document; this function
/// owns the mapping from codes to ratings.
pub fn parse_agent_access(agent_access: Option<&str>) -> (r: Option<AgentAccess>)
    ensures
        match r {
            Some(a) => agent_access is Some && a == spec_agent_access_of_code(
                agent_access->0.spec_bytes(),
            ),
            None => agent_access is None,
        },
{
    match agent_access {
        None => None,
        Some(s) => {
            let b = s.as_bytes();
            let n = b.len();
            let r = if n == 0 {
                AgentAccess::NonExistent
            } else if n == 1 {
                let c = crate::wire::read_u8(b, 0);
                if c == 77 {
                    AgentAccess::Mature
                } else if c == 65 {
                    AgentAccess::Adult
                } else if c == 71 {
                    AgentAccess::General
                } else if c == 84 {
                    AgentAccess::Trial
                } else {
                    AgentAccess::Unknown
                }
            } else if n == 2 {
                let c0 = crate::wire::read_u8(b, 0);
                let c1 = crate::wire::read_u8(b, 1);
                if c0 == 80 && c1 == 71 {
                    AgentAccess::PG
                } else {
                    AgentAccess::Unknown
                }
            } else if n == 4 {
                let c0 = crate::wire::read_u8(b, 0);
                let c1 = crate::wire::read_u8(b, 1);
                let c2 = crate::wire::read_u8(b, 2);
                let c3 = crate::wire::read_u8(b, 3);
                if c0 == 68 && c1 == 111 && c2 == 119 && c3 == 110 {
                    AgentAccess::Down
                } else {
                    AgentAccess::Unknown
                }
            } else {
                AgentAccess::Unknown
            };
            proof {
                assert(r == spec_agent_access_of_code(s.spec_bytes()));
            }
            Some(r)
        },
    }
}

} // verus!
