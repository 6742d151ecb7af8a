//! End-to-end guarantees of the gateway.
//!
//! Each law composes the cache server's behaviour ([`cache_step`]) with a
//! gateway decision and states what HTTP outcome the caller is owed.

use vstd::prelude::*;

use crate::command::CommandModel;
use crate::gateway::{
    CacheOutcomeModel, all_ok, delete_decision, get_decision, set_decision,
};
use crate::model::cache_step;

verus! {

/// A write followed by a read hands back exactly the value written: from
/// any starting state, after the cache answers `SET` with value `v`, its
/// answer to `GET` makes the read operation respond 200 with the body
/// `"Get "` followed by `v`, and leaves the stored value untouched.
pub proof fn lemma_set_then_get(s0: Option<Seq<char>>, v: Seq<char>)
    ensures
        ({
            let (s1, _) = cache_step(s0, CommandModel::SetValue(v));
            let (s2, r2) = cache_step(s1, CommandModel::GetValue);
            get_decision(CacheOutcomeModel::Answered(r2)) == Some((200int, "Get "@ + v))
                && s2 == s1
        }),
{
}

/// A read while the key is absent responds 500 with the body
/// `"Key not exist"`.
pub proof fn lemma_get_absent()
    ensures
        ({
            let (_, r) = cache_step(None, CommandModel::GetValue);
            get_decision(CacheOutcomeModel::Answered(r)) == Some((500int, "Key not exist"@))
        }),
{
}

/// A deletion right after a write responds 200 `"Deleted"`; a second
/// deletion straight after finds nothing to remove and responds 500 with
/// an empty body.
pub proof fn lemma_delete_after_set(s0: Option<Seq<char>>, v: Seq<char>)
    ensures
        ({
            let (s1, _) = cache_step(s0, CommandModel::SetValue(v));
            let (s2, r2) = cache_step(s1, CommandModel::DelValue);
            let (_, r3) = cache_step(s2, CommandModel::DelValue);
            delete_decision(CacheOutcomeModel::Answered(r2)) == (200int, "Deleted"@)
                && delete_decision(CacheOutcomeModel::Answered(r3)) == (
                500int,
                Seq::<char>::empty(),
            )
        }),
{
}

/// A write against a reachable, healthy cache always succeeds: from any
/// starting state the cache acknowledges `SET`, and the write operation
/// responds 200 with the body `"Set "` followed by the value written.
pub proof fn lemma_set_acknowledged(s0: Option<Seq<char>>, v: Seq<char>)
    ensures
        ({
            let (_, r) = cache_step(s0, CommandModel::SetValue(v));
            set_decision(seq![CacheOutcomeModel::Answered(r)], v) == (200int, "Set "@ + v)
        }),
{
    let (_, r) = cache_step(s0, CommandModel::SetValue(v));
    let outs = seq![CacheOutcomeModel::Answered(r)];
    assert forall|i: int| 0 <= i < outs.len() implies (#[trigger] outs[i]
        matches CacheOutcomeModel::Answered(rep) && crate::gateway::is_ok_status(rep)) by {
        assert(outs[i] == CacheOutcomeModel::Answered(r));
    }
}

/// When the transport layer or the cache connection fails, every
/// operation reports a failure and none reports success: the write batch
/// earns the generic failure body, the read either falls back to the
/// framework's own error or answers `"Unable to connect"`, and the
/// deletion answers the plain failure response.
pub proof fn lemma_failure_is_reported(o: CacheOutcomeModel, v: Seq<char>)
    requires
        o is ChannelFailure || o is CommandError,
    ensures
        set_decision(seq![o], v) == (500int, "Something went wrong"@),
        get_decision(o) is None || get_decision(o) == Some((500int, "Unable to connect"@)),
        delete_decision(o) == (500int, Seq::<char>::empty()),
{
    let outs = seq![o];
    assert(!(outs[0] matches CacheOutcomeModel::Answered(r) && crate::gateway::is_ok_status(r)));
    assert(!all_ok(outs));
}

} // verus!
