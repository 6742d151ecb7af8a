//! A model of the cache server.
//!
//! The gateway's end-to-end guarantees are relative to how the cache
//! server answers the three commands it is sent. This module states that
//! behaviour for the single fixed key — a write stores and acknowledges,
//! a read returns the stored value or the null reply, a deletion removes
//! the key and counts what it removed — and gives it a runnable form so
//! that whole scenarios can be exercised without a network.

use vstd::prelude::*;
use vstd::string::StringExecFns;

use crate::command::{Command, CommandModel};
use crate::reply::{Reply, ReplyModel};

verus! {

/// The cache server's state, reduced to what the gateway can touch: the
/// value stored under the fixed key, if any.
pub struct CacheState {
    pub value: Option<String>,
}

impl View for CacheState {
    type V = Option<Seq<char>>;

    open spec fn view(&self) -> Option<Seq<char>> {
        match &self.value {
            Some(v) => Some(v@),
            None => None,
        }
    }
}

/// How the cache server answers one command: the state it moves to and
/// the reply it returns.
pub open spec fn cache_step(s: Option<Seq<char>>, c: CommandModel) -> (
    Option<Seq<char>>,
    ReplyModel,
) {
    match c {
        CommandModel::SetValue(v) => (Some(v), ReplyModel::Status("OK"@)),
        CommandModel::GetValue => (
            s,
            match s {
                Some(v) => ReplyModel::Bulk(v),
                None => ReplyModel::Nil,
            },
        ),
        CommandModel::DelValue => (
            None,
            ReplyModel::Integer(
                if s is Some {
                    1
                } else {
                    0
                },
            ),
        ),
    }
}

impl CacheState {
    /// A cache that holds nothing yet.
    pub fn empty() -> (r: CacheState)
        ensures
            r@ is None,
    {
        CacheState { value: None }
    }

    /// Answer one command the way the cache server does.
    pub fn apply(&mut self, cmd: &Command) -> (r: Reply)
        ensures
            (final(self)@, r@) == cache_step(old(self)@, cmd@),
    {
        match cmd {
            Command::SetValue(v) => {
                self.value = Some(v.clone());
                Reply::Status(String::from_str("OK"))
            },
            Command::GetValue => match &self.value {
                Some(v) => Reply::Bulk(v.clone()),
                None => Reply::Nil,
            },
            Command::DelValue => {
                let removed: i64 = if self.value.is_some() {
                    1
                } else {
                    0
                };
                self.value = None;
                Reply::Integer(removed)
            },
        }
    }
}

} // verus!
