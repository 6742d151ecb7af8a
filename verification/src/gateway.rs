//! Turning cache outcomes into HTTP responses.
//!
//! Each operation sends one command (or a batch) to the cache worker and
//! then interprets what came back. The interpretation alone decides the
//! HTTP status and body; it is a pure function of the outcome, so the
//! transport around it can stay outside the library.

use vstd::prelude::*;
use vstd::string::StringExecFns;

use crate::reply::{Reply, ReplyModel};

verus! {

/// What one round trip to the cache worker produced, as the transport
/// hands it to the gateway.
pub enum CacheOutcome {
    /// The channel to the worker could not deliver the command or bring a
    /// reply back: the transport layer itself is down.
    ChannelFailure,
    /// The command reached the worker, but the cache connection reported
    /// an error instead of a reply.
    CommandError,
    /// A reply arrived.
    Answered(Reply),
}

/// The mathematical shape of a [`CacheOutcome`].
pub enum CacheOutcomeModel {
    ChannelFailure,
    CommandError,
    Answered(ReplyModel),
}

impl View for CacheOutcome {
    type V = CacheOutcomeModel;

    open spec fn view(&self) -> CacheOutcomeModel {
        match self {
            CacheOutcome::ChannelFailure => CacheOutcomeModel::ChannelFailure,
            CacheOutcome::CommandError => CacheOutcomeModel::CommandError,
            CacheOutcome::Answered(r) => CacheOutcomeModel::Answered(r@),
        }
    }
}

impl DeepView for CacheOutcome {
    type V = CacheOutcomeModel;

    open spec fn deep_view(&self) -> CacheOutcomeModel {
        self@
    }
}

/// An HTTP response: a status code and a text body.
pub struct HttpOutcome {
    pub status: u16,
    pub body: String,
}

impl View for HttpOutcome {
    type V = (int, Seq<char>);

    open spec fn view(&self) -> (int, Seq<char>) {
        (self.status as int, self.body@)
    }
}

/// What the read operation asks the host framework to do: answer with a
/// response of its own, or fall back to the framework's default error
/// because the transport layer failed.
pub enum GetAction {
    Respond(HttpOutcome),
    Propagate,
}

impl View for GetAction {
    type V = Option<(int, Seq<char>)>;

    open spec fn view(&self) -> Option<(int, Seq<char>)> {
        match self {
            GetAction::Respond(h) => Some(h@),
            GetAction::Propagate => None,
        }
    }
}

/// Whether a reply is the acknowledgement of a successful write.
pub open spec fn is_ok_status(r: ReplyModel) -> bool {
    r matches ReplyModel::Status(s) && s == "OK"@
}

/// Whether every outcome in a batch is a successful write acknowledgement.
pub open spec fn all_ok(outs: Seq<CacheOutcomeModel>) -> bool {
    forall|i: int|
        0 <= i < outs.len() ==> (#[trigger] outs[i] matches CacheOutcomeModel::Answered(r)
            && is_ok_status(r))
}

/// The text a reply decodes to when a string is expected: a status line or
/// a bulk string carries its text, an integer reads as its decimal text,
/// and no other shape decodes.
pub open spec fn decoded_text(r: ReplyModel) -> Option<Seq<char>> {
    match r {
        ReplyModel::Status(s) => Some(s),
        ReplyModel::Bulk(s) => Some(s),
        ReplyModel::Integer(n) => Some(crate::decimal::decimal_of(n)),
        _ => None,
    }
}

/// The response the write operation owes for a batch of outcomes.
pub open spec fn set_decision(outs: Seq<CacheOutcomeModel>, v: Seq<char>) -> (int, Seq<char>) {
    if all_ok(outs) {
        (200int, "Set "@ + v)
    } else {
        (500int, "Something went wrong"@)
    }
}

/// The action the read operation owes for an outcome: a transport failure
/// is handed back to the framework; a cache-level error and an undecodable
/// reply each earn their own failure body; text earns a success body.
pub open spec fn get_decision(o: CacheOutcomeModel) -> Option<(int, Seq<char>)> {
    match o {
        CacheOutcomeModel::ChannelFailure => None,
        CacheOutcomeModel::CommandError => Some((500int, "Unable to connect"@)),
        CacheOutcomeModel::Answered(r) => match decoded_text(r) {
            Some(t) => Some((200int, "Get "@ + t)),
            None => Some((500int, "Key not exist"@)),
        },
    }
}

/// The response the delete operation owes for an outcome: success exactly
/// when the cache reports that one key was removed.
pub open spec fn delete_decision(o: CacheOutcomeModel) -> (int, Seq<char>) {
    if o matches CacheOutcomeModel::Answered(r) && r matches ReplyModel::Integer(n) && n == 1 {
        (200int, "Deleted"@)
    } else {
        (500int, Seq::<char>::empty())
    }
}

/// The greeting route: a fixed body, no side effects.
pub fn greet() -> (r: HttpOutcome)
    ensures
        r@ == (200int, "Hello World"@),
{
    HttpOutcome { status: 200, body: String::from_str("Hello World") }
}

/// Interpret the outcomes of a write batch: report the stored value if
/// every command in the batch was acknowledged, and a generic failure
/// otherwise.
pub fn set_value(value: &String, outcomes: &Vec<CacheOutcome>) -> (r: HttpOutcome)
    ensures
        r@ == set_decision(outcomes.deep_view(), value@),
{
    let ok = String::from_str("OK");
    let mut all_acknowledged = true;
    let mut i: usize = 0;
    while i < outcomes.len()
        invariant
            0 <= i <= outcomes.len(),
            ok@ == "OK"@,
            outcomes.deep_view().len() == outcomes.len(),
            forall|j: int|
                0 <= j < outcomes.len() ==> outcomes.deep_view()[j] == #[trigger] outcomes[j]@,
            all_acknowledged == all_ok(outcomes.deep_view().take(i as int)),
        decreases outcomes.len() - i,
    {
        let acknowledged = match &outcomes[i] {
            CacheOutcome::Answered(Reply::Status(s)) => *s == ok,
            _ => false,
        };
        proof {
            assert(outcomes.deep_view().take(i + 1) =~= outcomes.deep_view().take(
                i as int,
            ).push(outcomes[i as int]@));
            if !acknowledged {
                assert(!(outcomes.deep_view().take(i + 1)[i as int]
                    matches CacheOutcomeModel::Answered(r) && is_ok_status(r)));
            }
        }
        all_acknowledged = all_acknowledged && acknowledged;
        i = i + 1;
    }
    proof {
        assert(outcomes.deep_view().take(outcomes.len() as int) =~= outcomes.deep_view());
    }
    if all_acknowledged {
        let mut body = String::from_str("Set ");
        body.append(value.as_str());
        HttpOutcome { status: 200, body }
    } else {
        HttpOutcome { status: 500, body: String::from_str("Something went wrong") }
    }
}

/// Decode a reply as text, the way the read operation expects its value.
pub fn reply_text(r: &Reply) -> (res: Option<String>)
    ensures
        res.deep_view() == decoded_text(r@),
{
    match r {
        Reply::Status(s) => Some(s.clone()),
        Reply::Bulk(s) => Some(s.clone()),
        Reply::Integer(n) => Some(crate::decimal::decimal_string(*n)),
        _ => None,
    }
}

/// Interpret the outcome of the read operation. The three failure branches
/// stay distinct: a transport failure is propagated to the framework, a
/// cache-level error and an absent (undecodable) value each get their own
/// body.
pub fn get_value(outcome: &CacheOutcome) -> (r: GetAction)
    ensures
        r@ == get_decision(outcome@),
{
    match outcome {
        CacheOutcome::ChannelFailure => GetAction::Propagate,
        CacheOutcome::CommandError => GetAction::Respond(
            HttpOutcome { status: 500, body: String::from_str("Unable to connect") },
        ),
        CacheOutcome::Answered(rep) => match reply_text(rep) {
            Some(t) => {
                let mut body = String::from_str("Get ");
                body.append(t.as_str());
                GetAction::Respond(HttpOutcome { status: 200, body })
            },
            None => GetAction::Respond(
                HttpOutcome { status: 500, body: String::from_str("Key not exist") },
            ),
        },
    }
}

/// Interpret the outcome of the delete operation: success exactly when the
/// cache removed one key; anything else, a transport failure included, is
/// the plain failure response.
pub fn delete_value(outcome: &CacheOutcome) -> (r: HttpOutcome)
    ensures
        r@ == delete_decision(outcome@),
{
    match outcome {
        CacheOutcome::Answered(Reply::Integer(n)) if *n == 1 => HttpOutcome {
            status: 200,
            body: String::from_str("Deleted"),
        },
        _ => HttpOutcome { status: 500, body: String::new() },
    }
}

} // verus!
