use vstd::prelude::*;

use crate::coin_helpers::spec_funds_exact;
use crate::constants::{
    spec_admin, spec_denom, spec_payout_address, AUTHOR_SHARE, CREATE_FEE, MAX_ID_LENGTH,
    MAX_TEXT_LENGTH,
};
use crate::contract::{
    create_post_outcome, created_post_view, delete_post_outcome, deleted_post_view,
    edit_post_outcome, edited_post_view, instantiate_outcome, withdraw_outcome,
};
use crate::error::ContractError;
use crate::msg::Response;
use crate::state::{
    lemma_seq_find_post_found, seq_find_post, ContractState, Env, MessageInfo, PostView, StateView,
};
use crate::validation::spec_starts_with;

verus! {

/// The ledger's ids are exactly `1..N` in order, with the sequencer at `N`.
pub open spec fn ids_complete(s: StateView) -> bool {
    &&& s.posts.len() == s.last_post_id
    &&& forall|k: int| 0 <= k < s.posts.len() ==> (#[trigger] s.posts[k]).post_id == k + 1
}

/// Initialization starts the id sequence: no posts, sequencer at zero.
pub proof fn lemma_instantiate_ids(
    info: MessageInfo,
    r: Result<(ContractState, Response), ContractError>,
)
    requires
        instantiate_outcome(info, r),
        r is Ok,
    ensures
        ids_complete(r->Ok_0.0@),
{
}

/// A successful create assigns exactly the next id: starting from a ledger
/// whose ids are `1..N`, the new ledger's ids are `1..N+1` and the new
/// record carries `N+1`. By induction, any sequence of successful creates
/// from initialization assigns `1..N` with no gap and no reuse.
pub proof fn lemma_create_extends_ids(
    pre: ContractState,
    post: ContractState,
    env: Env,
    info: MessageInfo,
    post_title: String,
    external_id: String,
    text: String,
    tags: Vec<String>,
    r: Result<Response, ContractError>,
)
    requires
        create_post_outcome(pre, post, env, info, post_title, external_id, text, tags, r),
        r is Ok,
        ids_complete(pre@),
    ensures
        ids_complete(post@),
        post@.posts.len() == pre@.posts.len() + 1,
        post@.posts.last().post_id == pre@.posts.len() + 1,
{
    assert(post@.posts.last() == created_post_view(
        (pre@.last_post_id + 1) as u64,
        env,
        info,
        post_title,
        external_id,
        text,
        tags,
    ));
}

/// An edit never changes any id, the ledger's length or the sequencer,
/// so it preserves the completeness of the id sequence.
pub proof fn lemma_edit_preserves_ids(
    pre: ContractState,
    post: ContractState,
    env: Env,
    info: MessageInfo,
    post_id: u64,
    external_id: String,
    text: String,
    tags: Vec<String>,
    r: Result<Response, ContractError>,
)
    requires
        edit_post_outcome(pre, post, env, info, post_id, external_id, text, tags, r),
        ids_complete(pre@),
    ensures
        ids_complete(post@),
{
    if r is Ok {
        lemma_seq_find_post_found(pre@.posts, post_id);
    }
}

/// A delete never changes any id, the ledger's length or the sequencer,
/// so it preserves the completeness of the id sequence.
pub proof fn lemma_delete_preserves_ids(
    pre: ContractState,
    post: ContractState,
    env: Env,
    info: MessageInfo,
    post_id: u64,
    r: Result<Response, ContractError>,
)
    requires
        delete_post_outcome(pre, post, env, info, post_id, r),
        ids_complete(pre@),
    ensures
        ids_complete(post@),
{
    if r is Ok {
        lemma_seq_find_post_found(pre@.posts, post_id);
    }
}

/// Any funds other than exactly the creation fee make a create fail as a
/// wrong payment and leave the state unchanged, underpayment and
/// overpayment alike.
pub proof fn lemma_create_wrong_payment(
    pre: ContractState,
    post: ContractState,
    env: Env,
    info: MessageInfo,
    post_title: String,
    external_id: String,
    text: String,
    tags: Vec<String>,
    r: Result<Response, ContractError>,
)
    requires
        create_post_outcome(pre, post, env, info, post_title, external_id, text, tags, r),
        !spec_funds_exact(info.funds@, CREATE_FEE, spec_denom()),
    ensures
        r == Err::<Response, ContractError>(ContractError::WrongPaymentAmount),
        post == pre,
{
}

/// An external reference that does not start with the approved gateway
/// prefix makes a create fail on the gateway rule, even with the payment
/// exact and both lengths in range.
pub proof fn lemma_create_needs_gateway(
    pre: ContractState,
    post: ContractState,
    env: Env,
    info: MessageInfo,
    post_title: String,
    external_id: String,
    text: String,
    tags: Vec<String>,
    r: Result<Response, ContractError>,
)
    requires
        create_post_outcome(pre, post, env, info, post_title, external_id, text, tags, r),
        spec_funds_exact(info.funds@, CREATE_FEE, spec_denom()),
        text@.len() <= MAX_TEXT_LENGTH as int,
        external_id@.len() <= MAX_ID_LENGTH as int,
        !spec_starts_with(external_id@, crate::constants::spec_gateway_prefix()),
    ensures
        r == Err::<Response, ContractError>(ContractError::MustUseApprovedGateway),
        post == pre,
{
}

/// A successful edit preserves the record's author, creation date, title
/// and id; sets the editor to the caller and the edit date to the block
/// time; and produces exactly one transfer, of the fixed reward, to the
/// original author.
pub proof fn lemma_edit_effects(
    pre: ContractState,
    post: ContractState,
    env: Env,
    info: MessageInfo,
    post_id: u64,
    external_id: String,
    text: String,
    tags: Vec<String>,
    r: Result<Response, ContractError>,
)
    requires
        pre.wf(),
        edit_post_outcome(pre, post, env, info, post_id, external_id, text, tags, r),
        r is Ok,
    ensures
        pre@.spec_get_post(post_id) is Some,
        ({
            let old_p = pre@.spec_get_post(post_id)->Some_0;
            let new_p = edited_post_view(old_p, env, info, external_id, text, tags);
            &&& post@.spec_get_post(post_id) == Some(new_p)
            &&& new_p.author == old_p.author
            &&& new_p.creation_date == old_p.creation_date
            &&& new_p.post_title == old_p.post_title
            &&& new_p.post_id == old_p.post_id
            &&& new_p.editor == Some(info.sender@)
            &&& new_p.last_edit_date == Some(env.time)
            &&& r->Ok_0.messages@.len() == 1
            &&& r->Ok_0.messages@[0].to_address@ == old_p.author
            &&& r->Ok_0.messages@[0].amount@.len() == 1
            &&& r->Ok_0.messages@[0].amount@[0].amount == AUTHOR_SHARE
            &&& r->Ok_0.messages@[0].amount@[0].denom@ == spec_denom()
        }),
{
    let old_p = pre@.spec_get_post(post_id)->Some_0;
    let new_p = edited_post_view(old_p, env, info, external_id, text, tags);
    lemma_seq_find_post_found(pre@.posts, post_id);
    let i = choose|i: int|
        #![auto]
        0 <= i < pre@.posts.len() && pre@.posts[i] == old_p && post@.posts == pre@.posts.update(
            i,
            new_p,
        );
    lemma_find_post_update(pre@.posts, i, new_p, post_id);
}

/// A successful delete preserves the record's author and creation date;
/// replaces the text with the fixed notice, the tags with the single
/// sentinel tag and the external reference with the empty string; and
/// sets the deleter to the caller and the deletion date to the block time.
pub proof fn lemma_delete_effects(
    pre: ContractState,
    post: ContractState,
    env: Env,
    info: MessageInfo,
    post_id: u64,
    r: Result<Response, ContractError>,
)
    requires
        pre.wf(),
        delete_post_outcome(pre, post, env, info, post_id, r),
        r is Ok,
    ensures
        pre@.spec_get_post(post_id) is Some,
        ({
            let old_p = pre@.spec_get_post(post_id)->Some_0;
            let new_p = deleted_post_view(old_p, env, info);
            &&& post@.spec_get_post(post_id) == Some(new_p)
            &&& new_p.author == old_p.author
            &&& new_p.creation_date == old_p.creation_date
            &&& new_p.text == crate::constants::spec_deletion_notice()
            &&& new_p.tags == seq![crate::constants::spec_deleted_tag()]
            &&& new_p.external_id == Seq::<char>::empty()
            &&& new_p.deleter == Some(info.sender@)
            &&& new_p.deletion_date == Some(env.time)
        }),
{
    let old_p = pre@.spec_get_post(post_id)->Some_0;
    let new_p = deleted_post_view(old_p, env, info);
    lemma_seq_find_post_found(pre@.posts, post_id);
    let i = choose|i: int|
        #![auto]
        0 <= i < pre@.posts.len() && pre@.posts[i] == old_p && post@.posts == pre@.posts.update(
            i,
            new_p,
        );
    lemma_find_post_update(pre@.posts, i, new_p, post_id);
}

/// A sweep by a non-administrator fails as unauthorized, with no transfer
/// and no state change; one by the administrator transfers the whole
/// reported balance to the fixed payout address, in a single instruction,
/// again with no state change.
pub proof fn lemma_withdraw_effects(
    pre: ContractState,
    post: ContractState,
    info: MessageInfo,
    balance: Vec<crate::state::Coin>,
    r: Result<Response, ContractError>,
)
    requires
        withdraw_outcome(pre, post, info, balance, r),
    ensures
        post == pre,
        info.sender@ != spec_admin() ==> r == Err::<Response, ContractError>(
            ContractError::Unauthorized,
        ),
        info.sender@ == spec_admin() ==> r is Ok && r->Ok_0.messages@.len() == 1
            && r->Ok_0.messages@[0].to_address@ == spec_payout_address()
            && r->Ok_0.messages@[0].amount@ == balance@,
{
}

/// Point lookups are repeatable: with no intervening mutation, two
/// lookups of the same id answer with field-identical records.
pub proof fn lemma_get_post_repeatable(
    state: ContractState,
    post_id: u64,
    first: Option<PostView>,
    second: Option<PostView>,
)
    requires
        first == state@.spec_get_post(post_id),
        second == state@.spec_get_post(post_id),
    ensures
        first == second,
{
}

/// Replacing the record at a position by one carrying the same id changes
/// exactly what a lookup of that id finds, when ids are unique.
pub proof fn lemma_find_post_update(posts: Seq<PostView>, i: int, q: PostView, post_id: u64)
    requires
        0 <= i < posts.len(),
        posts[i].post_id == post_id,
        q.post_id == post_id,
        forall|k: int, l: int|
            0 <= k < l < posts.len() ==> (#[trigger] posts[k]).post_id != (#[trigger] posts[l]).post_id,
    ensures
        seq_find_post(posts.update(i, q), post_id) == Some(q),
    decreases posts.len(),
{
    let updated = posts.update(i, q);
    if i == 0 {
        assert(updated[0] == q);
    } else {
        assert(posts[0].post_id != post_id);
        assert(updated[0] == posts[0]);
        assert(updated.drop_first() =~= posts.drop_first().update(i - 1, q));
        assert forall|k: int, l: int|
            0 <= k < l < posts.drop_first().len() implies (#[trigger] posts.drop_first()[k]).post_id
            != (#[trigger] posts.drop_first()[l]).post_id by {
            assert(posts[k + 1].post_id != posts[l + 1].post_id);
        }
        lemma_find_post_update(posts.drop_first(), i - 1, q, post_id);
    }
}

} // verus!
