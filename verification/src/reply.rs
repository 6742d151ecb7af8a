//! The reply values that the cache server can return.

use vstd::prelude::*;

verus! {

broadcast use vstd::std_specs::vec::group_vec_axioms, vstd::seq::group_seq_axioms;

/// A reply from the cache server: a tagged value with one variant per
/// shape the wire protocol can carry.
pub enum Reply {
    /// A simple status line, such as the acknowledgement of a write.
    Status(String),
    /// An error reported by the server itself.
    Error(String),
    /// A signed integer, such as the number of keys a deletion removed.
    Integer(i64),
    /// A bulk string: the value stored under a key.
    Bulk(String),
    /// The null reply: the requested key holds nothing.
    Nil,
    /// An array of further replies.
    Array(Vec<Reply>),
}

/// The mathematical shape of a [`Reply`], with strings as character
/// sequences and integers unbounded.
pub enum ReplyModel {
    Status(Seq<char>),
    Error(Seq<char>),
    Integer(int),
    Bulk(Seq<char>),
    Nil,
    Array(Seq<ReplyModel>),
}

impl View for Reply {
    type V = ReplyModel;

    open spec fn view(&self) -> ReplyModel
        decreases self,
    {
        match self {
            Reply::Status(s) => ReplyModel::Status(s@),
            Reply::Error(s) => ReplyModel::Error(s@),
            Reply::Integer(n) => ReplyModel::Integer(*n as int),
            Reply::Bulk(s) => ReplyModel::Bulk(s@),
            Reply::Nil => ReplyModel::Nil,
            Reply::Array(items) => ReplyModel::Array(
                Seq::new(
                    items@.len(),
                    // the bound keeps the recursion on elements of the
                    // vector, where the measure decreases
                    |i: int| if 0 <= i < items@.len() {
                        items[i]@
                    } else {
                        ReplyModel::Nil
                    },
                ),
            ),
        }
    }
}

} // verus!
