use vstd::prelude::*;

use crate::state::{Coin, Post};

verus! {

/// Initialization request. The administrator identity is fixed by
/// configuration, so a supplied value is ignored.
#[derive(Debug, Clone, PartialEq)]
pub struct InstantiateMsg {
    pub admin: Option<String>,
}

/// The state-changing requests.
#[derive(Debug, Clone, PartialEq)]
pub enum ExecuteMsg {
    CreatePost { post_title: String, external_id: String, text: String, tags: Vec<String> },
    EditPost { post_id: u64, external_id: String, text: String, tags: Vec<String> },
    DeletePost { post_id: u64 },
    Withdraw {},
}

/// The read-only requests.
#[derive(Debug, Clone, PartialEq)]
pub enum QueryMsg {
    AllPosts { limit: Option<u32>, start_after: Option<u64> },
    Post { post_id: u64 },
}

/// One page of the ledger, ascending by post id.
#[derive(Debug, Clone, PartialEq)]
pub struct AllPostsResponse {
    pub posts: Vec<Post>,
}

/// A point lookup: absence is a valid result, never a failure.
#[derive(Debug, Clone, PartialEq)]
pub struct PostResponse {
    pub post: Option<Post>,
}

/// The answer to a `QueryMsg`, one variant per request.
#[derive(Debug, Clone, PartialEq)]
pub enum QueryResponse {
    AllPosts(AllPostsResponse),
    Post(PostResponse),
}

/// A migration request. Migration carries no payload; the single variant
/// stands in for the empty message of the request surface.
#[derive(Debug, Clone, PartialEq)]
pub enum MigrateMsg {
    Noop {},
}

#[derive(Debug, Clone, PartialEq)]
pub struct CustomResponse {
    pub val: String,
}

/// One key/value pair of a response.
#[derive(Debug, Clone, PartialEq)]
pub struct Attribute {
    pub key: String,
    pub value: String,
}

/// An outgoing native transfer instruction, settled by the host
/// atomically with the rest of the request.
#[derive(Debug, Clone, PartialEq)]
pub struct BankSend {
    pub to_address: String,
    pub amount: Vec<Coin>,
}

/// What a successful state-changing request hands back to the host:
/// attributes to record and transfers to perform.
#[derive(Debug, Clone, PartialEq)]
pub struct Response {
    pub attributes: Vec<Attribute>,
    pub messages: Vec<BankSend>,
}

/// The attribute carries exactly this key and value.
pub open spec fn attr_is(a: Attribute, key: Seq<char>, value: Seq<char>) -> bool {
    a.key@ == key && a.value@ == value
}

impl Response {
    /// An empty response: no attributes, no transfers.
    pub fn new() -> (r: Response)
        ensures
            r.attributes@ =~= Seq::<Attribute>::empty(),
            r.messages@ =~= Seq::<BankSend>::empty(),
    {
        Response { attributes: Vec::new(), messages: Vec::new() }
    }

    /// Appends one key/value attribute.
    pub fn add_attribute(&mut self, key: &str, value: String)
        ensures
            final(self).attributes@.len() == old(self).attributes@.len() + 1,
            final(self).attributes@ == old(self).attributes@.push(final(self).attributes@.last()),
            attr_is(final(self).attributes@.last(), key@, value@),
            final(self).attributes@.last().value == value,
            final(self).messages@ == old(self).messages@,
    {
        self.attributes.push(Attribute { key: String::from_str(key), value });
    }

    /// Appends one outgoing transfer.
    pub fn add_message(&mut self, msg: BankSend)
        ensures
            final(self).attributes@ == old(self).attributes@,
            final(self).messages@ == old(self).messages@.push(msg),
    {
        self.messages.push(msg);
    }
}

} // verus!
