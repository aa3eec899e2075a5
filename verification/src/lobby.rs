//! Finding an opponent: what a player asks for, and the question put to the
//! store of open games.
//!
//! A request arrives with its names as bytes that are meant to be UTF-8 but
//! need not be. [`GameConfig::try_from_wire`] turns it into a request whose
//! names are text, or says which name is not.

use vstd::prelude::*;
use vstd::string::StringExecFns;
use vstd::utf8::{decode_utf8, valid_utf8};

verus! {

/// Whom a player is willing to play against.
#[derive(Debug, PartialEq, Eq)]
pub enum Adversary {
    /// Anyone.
    Any,
    /// Any of the player's friends.
    Friends,
    /// The player of this name.
    User(String),
}

/// What a player asks for when looking for a game.
#[derive(Debug, PartialEq, Eq)]
pub struct GameConfig {
    /// The player's name.
    pub user: String,
    /// Whom the player wants to play against.
    pub adversary: Adversary,
}

/// Whom a player is willing to play against, as the request arrives.
#[derive(Debug, PartialEq, Eq)]
pub enum WireAdversary {
    /// Anyone.
    Any,
    /// Any of the player's friends.
    Friends,
    /// The player whose name these bytes encode.
    User(Vec<u8>),
}

/// What a player asks for when looking for a game, as the request arrives.
#[derive(Debug, PartialEq, Eq)]
pub struct WireGameConfig {
    /// The bytes that encode the player's name.
    pub user: Vec<u8>,
    /// Whom the player wants to play against.
    pub adversary: WireAdversary,
}

/// Why a request could not be read.
#[derive(Clone, Copy, Debug, PartialEq, Eq, Structural)]
pub enum ConfigError {
    /// The player's name is not UTF-8.
    UserNotText,
    /// The opponent's name is not UTF-8.
    AdversaryNotText,
}

/// The text that `bytes` encode, or `None` where they are not UTF-8.
///
/// Calls `capnp::text::Reader::to_string`, which hands the bytes to
/// `str::from_utf8` and copies the result. Taken on trust: it succeeds
/// exactly on well-formed UTF-8, and the text is what the bytes decode to.
#[verifier::external_body]
fn text_of(bytes: &[u8]) -> (text: Option<String>)
    ensures
        text is Some <==> valid_utf8(bytes@),
        text is Some ==> text->0@ == decode_utf8(bytes@),
{
    capnp::text::Reader(bytes).to_string().ok()
}

impl Adversary {
    /// Whether `self` says in text what `wire` says in bytes.
    pub open spec fn reads(&self, wire: &WireAdversary) -> bool {
        match (wire, self) {
            (WireAdversary::Any, Adversary::Any) => true,
            (WireAdversary::Friends, Adversary::Friends) => true,
            (WireAdversary::User(bytes), Adversary::User(name)) => valid_utf8(bytes@) && name@
                == decode_utf8(bytes@),
            _ => false,
        }
    }

    /// The opponent that `wire` asks for. Fails exactly where `wire` names
    /// a player in bytes that are not UTF-8.
    pub fn try_from_wire(wire: &WireAdversary) -> (result: Result<Adversary, ConfigError>)
        ensures
            match result {
                Ok(adversary) => adversary.reads(wire),
                Err(reason) => reason == ConfigError::AdversaryNotText && (
                wire matches WireAdversary::User(bytes) && !valid_utf8(bytes@)),
            },
    {
        match wire {
            WireAdversary::Any => Ok(Adversary::Any),
            WireAdversary::Friends => Ok(Adversary::Friends),
            WireAdversary::User(bytes) => match text_of(bytes.as_slice()) {
                Some(name) => Ok(Adversary::User(name)),
                None => Err(ConfigError::AdversaryNotText),
            },
        }
    }
}

impl GameConfig {
    /// Whether `self` says in text what `wire` says in bytes.
    pub open spec fn reads(&self, wire: &WireGameConfig) -> bool {
        &&& valid_utf8(wire.user@)
        &&& self.user@ == decode_utf8(wire.user@)
        &&& self.adversary.reads(&wire.adversary)
    }

    /// The request that `wire` makes. Fails with `UserNotText` exactly where
    /// the player's name is not UTF-8, and with `AdversaryNotText` exactly
    /// where that name is UTF-8 and the opponent's is not.
    pub fn try_from_wire(wire: &WireGameConfig) -> (result: Result<GameConfig, ConfigError>)
        ensures
            match result {
                Ok(config) => config.reads(wire),
                Err(ConfigError::UserNotText) => !valid_utf8(wire.user@),
                Err(ConfigError::AdversaryNotText) => valid_utf8(wire.user@) && (
                wire.adversary matches WireAdversary::User(bytes) && !valid_utf8(bytes@)),
            },
    {
        let user = match text_of(wire.user.as_slice()) {
            Some(user) => user,
            None => {
                return Err(ConfigError::UserNotText);
            },
        };
        match Adversary::try_from_wire(&wire.adversary) {
            Ok(adversary) => Ok(GameConfig { user, adversary }),
            Err(reason) => Err(reason),
        }
    }
}

/// The question that finds the games open to a player: those whose makers
/// accept the player and, where the player named an opponent, that were made
/// by that opponent.
pub open spec fn spec_lobby_query(adversary: Adversary) -> Seq<char> {
    match adversary {
        Adversary::User(_) => "SELECT game FROM lobby WHERE adversary=$username"@
            + " AND username=$adversary"@,
        _ => "SELECT game FROM lobby WHERE adversary=$username"@,
    }
}

/// The question that finds the games open to the player of `config`.
pub fn lobby_query(config: &GameConfig) -> (query: String)
    ensures
        query@ == spec_lobby_query(config.adversary),
{
    let mut query = String::from_str("SELECT game FROM lobby WHERE adversary=$username");
    match &config.adversary {
        Adversary::User(_) => {
            query.append(" AND username=$adversary");
        },
        _ => {},
    }
    query
}

} // verus!
