use vstd::prelude::*;

verus! {

/// A quantity of one native currency denomination.
#[derive(Debug, Clone, PartialEq)]
pub struct Coin {
    pub amount: u128,
    pub denom: String,
}

/// The caller identity and funds that the hosting environment attaches to a
/// request. The host has already verified the sender address.
#[derive(Debug, Clone, PartialEq)]
pub struct MessageInfo {
    pub sender: String,
    pub funds: Vec<Coin>,
}

/// What the hosting environment reports about the block a request runs in:
/// a monotonic timestamp in nanoseconds.
#[derive(Debug, Clone, PartialEq)]
pub struct Env {
    pub time: u64,
}

/// The singleton configuration: the administrator identity, set once at
/// initialization.
#[derive(Debug, Clone, PartialEq)]
pub struct Config {
    pub admin: String,
}

/// One record of the ledger. Deletion is soft: the record stays, with its
/// content fields replaced by fixed sentinel values.
#[derive(Debug, Clone, PartialEq)]
pub struct Post {
    pub post_id: u64,
    pub post_title: String,
    pub external_id: String,
    pub text: String,
    pub tags: Vec<String>,
    pub author: String,
    pub creation_date: u64,
    pub last_edit_date: Option<u64>,
    pub deleter: Option<String>,
    pub editor: Option<String>,
    pub deletion_date: Option<u64>,
}

/// The mathematical model of a post: every string as a sequence of
/// characters.
#[verifier::ext_equal]
pub ghost struct PostView {
    pub post_id: u64,
    pub post_title: Seq<char>,
    pub external_id: Seq<char>,
    pub text: Seq<char>,
    pub tags: Seq<Seq<char>>,
    pub author: Seq<char>,
    pub creation_date: u64,
    pub last_edit_date: Option<u64>,
    pub deleter: Option<Seq<char>>,
    pub editor: Option<Seq<char>>,
    pub deletion_date: Option<u64>,
}

impl View for Post {
    type V = PostView;

    open spec fn view(&self) -> PostView {
        PostView {
            post_id: self.post_id,
            post_title: self.post_title@,
            external_id: self.external_id@,
            text: self.text@,
            tags: self.tags.deep_view(),
            author: self.author@,
            creation_date: self.creation_date,
            last_edit_date: self.last_edit_date,
            deleter: self.deleter.deep_view(),
            editor: self.editor.deep_view(),
            deletion_date: self.deletion_date,
        }
    }
}

impl DeepView for Post {
    type V = PostView;

    open spec fn deep_view(&self) -> PostView {
        self.view()
    }
}

/// The whole persistent state of the module: configuration, the id
/// sequencer, and the post ledger ordered by ascending post id.
#[derive(Debug, Clone, PartialEq)]
pub struct ContractState {
    pub config: Config,
    pub last_post_id: u64,
    pub posts: Vec<Post>,
}

/// The mathematical model of the whole state.
#[verifier::ext_equal]
pub ghost struct StateView {
    pub admin: Seq<char>,
    pub last_post_id: u64,
    pub posts: Seq<PostView>,
}

impl View for ContractState {
    type V = StateView;

    open spec fn view(&self) -> StateView {
        StateView {
            admin: self.config.admin@,
            last_post_id: self.last_post_id,
            posts: self.posts.deep_view(),
        }
    }
}

/// Point lookup in a sequence of posts: the first record carrying the id,
/// or `None` where no record carries it.
pub open spec fn seq_find_post(posts: Seq<PostView>, post_id: u64) -> Option<PostView>
    decreases posts.len(),
{
    if posts.len() == 0 {
        None
    } else if posts[0].post_id == post_id {
        Some(posts[0])
    } else {
        seq_find_post(posts.drop_first(), post_id)
    }
}

impl StateView {
    /// Well-formedness: ids are assigned from 1 up to the sequencer's last
    /// value, and the ledger is strictly ascending by id (so ids are unique).
    pub open spec fn wf(self) -> bool {
        &&& forall|i: int|
            0 <= i < self.posts.len() ==> 1 <= (#[trigger] self.posts[i]).post_id
                <= self.last_post_id
        &&& forall|i: int, j: int|
            0 <= i < j < self.posts.len() ==> self.posts[i].post_id < self.posts[j].post_id
    }

    /// The ledger record under the given id, if any.
    pub open spec fn spec_get_post(self, post_id: u64) -> Option<PostView> {
        seq_find_post(self.posts, post_id)
    }

}

impl ContractState {
    /// Well-formedness of the state behind the model.
    pub open spec fn wf(self) -> bool {
        self@.wf()
    }
}

/// Copies a vector of strings, value for value.
pub fn clone_string_vec(v: &Vec<String>) -> (r: Vec<String>)
    ensures
        r@ == v@,
{
    let mut r: Vec<String> = Vec::new();
    let mut i: usize = 0;
    while i < v.len()
        invariant
            i <= v@.len(),
            r@ == v@.subrange(0, i as int),
        decreases v@.len() - i,
    {
        r.push(v[i].clone());
        proof {
            assert(v@.subrange(0, i + 1) =~= v@.subrange(0, i as int).push(v@[i as int]));
        }
        i += 1;
    }
    proof {
        assert(v@.subrange(0, i as int) =~= v@);
    }
    r
}

impl Coin {
    /// An exact copy.
    pub fn duplicate(&self) -> (r: Coin)
        ensures
            r == *self,
    {
        let r = Coin { amount: self.amount, denom: self.denom.clone() };
        proof {
            assert(r == *self);
        }
        r
    }
}

/// Copies a vector of coins, value for value.
pub fn clone_coin_vec(v: &Vec<Coin>) -> (r: Vec<Coin>)
    ensures
        r@ == v@,
{
    let mut r: Vec<Coin> = Vec::new();
    let mut i: usize = 0;
    while i < v.len()
        invariant
            i <= v@.len(),
            r@ == v@.subrange(0, i as int),
        decreases v@.len() - i,
    {
        r.push(v[i].duplicate());
        proof {
            assert(v@.subrange(0, i + 1) =~= v@.subrange(0, i as int).push(v@[i as int]));
        }
        i += 1;
    }
    proof {
        assert(v@.subrange(0, i as int) =~= v@);
    }
    r
}

/// Copies an optional string, value for value.
fn clone_opt_string(v: &Option<String>) -> (r: Option<String>)
    ensures
        r == *v,
{
    match v {
        Some(s) => Some(s.clone()),
        None => None,
    }
}

impl Post {
    /// A copy of the record, field-identical in the model.
    pub fn duplicate(&self) -> (r: Post)
        ensures
            r@ == self@,
    {
        let r = Post {
            post_id: self.post_id,
            post_title: self.post_title.clone(),
            external_id: self.external_id.clone(),
            text: self.text.clone(),
            tags: clone_string_vec(&self.tags),
            author: self.author.clone(),
            creation_date: self.creation_date,
            last_edit_date: self.last_edit_date,
            deleter: clone_opt_string(&self.deleter),
            editor: clone_opt_string(&self.editor),
            deletion_date: self.deletion_date,
        };
        proof {
            assert(r@ =~= self@);
        }
        r
    }
}

impl ContractState {
    /// The position of the record under the given id, if any.
    pub fn find_post_index(&self, post_id: u64) -> (r: Option<usize>)
        ensures
            match r {
                Some(i) => i < self@.posts.len() && self@.posts[i as int].post_id == post_id
                    && self@.spec_get_post(post_id) == Some(self@.posts[i as int]),
                None => self@.spec_get_post(post_id) is None,
            },
    {
        let ghost model = self@.posts;
        let mut i: usize = 0;
        proof {
            assert(model.skip(0) =~= model);
        }
        while i < self.posts.len()
            invariant
                model == self@.posts,
                self.posts@.len() == model.len(),
                i <= model.len(),
                seq_find_post(model, post_id) == seq_find_post(model.skip(i as int), post_id),
            decreases model.len() - i,
        {
            if self.posts[i].post_id == post_id {
                proof {
                    assert(model.skip(i as int)[0] == model[i as int]);
                    assert(model[i as int] == self.posts@[i as int]@);
                }
                return Some(i);
            }
            proof {
                assert(model.skip(i as int)[0] == model[i as int]);
                assert(model[i as int] == self.posts@[i as int]@);
                assert(model.skip(i as int).drop_first() =~= model.skip(i + 1));
            }
            i += 1;
        }
        proof {
            assert(model.skip(i as int) =~= Seq::<PostView>::empty());
        }
        None
    }
}

/// Whatever `seq_find_post` returns carries the id it was asked for and
/// stands in the sequence.
pub proof fn lemma_seq_find_post_found(posts: Seq<PostView>, post_id: u64)
    requires
        seq_find_post(posts, post_id) is Some,
    ensures
        seq_find_post(posts, post_id)->Some_0.post_id == post_id,
        exists|i: int|
            0 <= i < posts.len() && posts[i] == seq_find_post(posts, post_id)->Some_0,
    decreases posts.len(),
{
    if posts.len() > 0 && posts[0].post_id != post_id {
        lemma_seq_find_post_found(posts.drop_first(), post_id);
        let p = seq_find_post(posts.drop_first(), post_id)->Some_0;
        let i = choose|i: int| 0 <= i < posts.drop_first().len() && posts.drop_first()[i] == p;
        assert(posts[i + 1] == p);
    }
}

} // verus!
