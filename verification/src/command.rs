//! The commands the gateway issues to the cache server.

use vstd::prelude::*;
use vstd::string::StringExecFns;

verus! {

/// One request to the cache server. Every data operation acts on the
/// single fixed key, so only the stored value is carried.
pub enum Command {
    /// Store a value under the fixed key.
    SetValue(String),
    /// Read the value under the fixed key.
    GetValue,
    /// Remove the fixed key.
    DelValue,
}

/// The mathematical shape of a [`Command`].
pub enum CommandModel {
    SetValue(Seq<char>),
    GetValue,
    DelValue,
}

impl View for Command {
    type V = CommandModel;

    open spec fn view(&self) -> CommandModel {
        match self {
            Command::SetValue(v) => CommandModel::SetValue(v@),
            Command::GetValue => CommandModel::GetValue,
            Command::DelValue => CommandModel::DelValue,
        }
    }
}

/// The token sequence that a command puts on the wire: the command word,
/// the fixed key, and, for a write, the value.
pub open spec fn command_tokens(c: CommandModel) -> Seq<Seq<char>> {
    match c {
        CommandModel::SetValue(v) => seq!["SET"@, crate::fixed_key(), v],
        CommandModel::GetValue => seq!["GET"@, crate::fixed_key()],
        CommandModel::DelValue => seq!["DEL"@, crate::fixed_key()],
    }
}

impl Command {
    /// The ordered string tokens of this command, ready to be framed by a
    /// wire protocol client.
    pub fn tokens(&self) -> (r: Vec<String>)
        ensures
            r.deep_view() == command_tokens(self@),
    {
        let key = String::from_str("hello");
        proof {
            assert(key@ == crate::fixed_key());
        }
        match self {
            Command::SetValue(v) => {
                let r = vec![String::from_str("SET"), key, v.clone()];
                proof {
                    assert(r.deep_view() =~= command_tokens(self@));
                }
                r
            },
            Command::GetValue => {
                let r = vec![String::from_str("GET"), key];
                proof {
                    assert(r.deep_view() =~= command_tokens(self@));
                }
                r
            },
            Command::DelValue => {
                let r = vec![String::from_str("DEL"), key];
                proof {
                    assert(r.deep_view() =~= command_tokens(self@));
                }
                r
            },
        }
    }
}

} // verus!
