//! A small command gateway over a remote key/value cache.
//!
//! The library holds the decisions of the service: how an inbound request
//! becomes a cache command, and what each reply from the cache means as an
//! HTTP outcome. The transport around it (the HTTP server and the
//! connection to the cache) lives outside the library and hands it plain
//! values.

use vstd::prelude::*;

mod command;
mod decimal;
mod gateway;
mod laws;
mod model;
mod reply;

pub use command::{Command, CommandModel, command_tokens};
pub use decimal::{decimal_of, decimal_string};
pub use gateway::{
    CacheOutcome, CacheOutcomeModel, GetAction, HttpOutcome, all_ok, decoded_text, delete_decision,
    delete_value, get_decision, get_value, greet, is_ok_status, reply_text, set_decision,
    set_value,
};
pub use laws::{
    lemma_delete_after_set, lemma_failure_is_reported, lemma_get_absent,
    lemma_set_acknowledged, lemma_set_then_get,
};
pub use model::{CacheState, cache_step};
pub use reply::{Reply, ReplyModel};

verus! {

/// The single key that every data operation acts on.
pub open spec fn fixed_key() -> Seq<char> {
    "hello"@
}

} // verus!
