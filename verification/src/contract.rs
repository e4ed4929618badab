use vstd::prelude::*;

use crate::coin_helpers::{assert_sent_exact_coin, spec_funds_exact};
use crate::constants::{
    admin, denom, spec_admin, spec_denom, AUTHOR_SHARE, CREATE_FEE, DEFAULT_LIMIT, DELETE_FEE,
    EDIT_FEE, MAX_LIMIT,
};
use crate::error::ContractError;
use crate::msg::{
    attr_is, AllPostsResponse, ExecuteMsg, InstantiateMsg, MigrateMsg, PostResponse, QueryMsg,
    QueryResponse, Response,
};
use crate::numeral::{spec_decimal, u64_to_decimal};
use crate::state::{
    seq_find_post, Coin, Config, ContractState, Env, MessageInfo, Post, PostView, StateView,
};
use crate::validation::{spec_validate, validate};

verus! {

/// What initialization does: only the configured administrator may run it;
/// on success the state starts empty, with the sequencer at zero.
pub open spec fn instantiate_outcome(
    info: MessageInfo,
    r: Result<(ContractState, Response), ContractError>,
) -> bool {
    if info.sender@ != spec_admin() {
        r == Err::<(ContractState, Response), ContractError>(ContractError::Unauthorized)
    } else {
        &&& r is Ok
        &&& r->Ok_0.0@.admin == spec_admin()
        &&& r->Ok_0.0@.last_post_id == 0
        &&& r->Ok_0.0@.posts == Seq::<PostView>::empty()
        &&& r->Ok_0.0@.wf()
        &&& r->Ok_0.1.messages@.len() == 0
        &&& r->Ok_0.1.attributes@.len() == 2
        &&& attr_is(r->Ok_0.1.attributes@[0], "action"@, "instantiate"@)
        &&& attr_is(r->Ok_0.1.attributes@[1], "admin"@, spec_admin())
    }
}

/// Initializes the module. The administrator identity is fixed; a caller
/// other than the administrator is rejected and nothing is created.
pub fn instantiate(info: &MessageInfo, _msg: InstantiateMsg) -> (r: Result<
    (ContractState, Response),
    ContractError,
>)
    ensures
        instantiate_outcome(*info, r),
{
    let validated_admin = String::from_str(admin());
    if !(info.sender == validated_admin) {
        return Err(ContractError::Unauthorized);
    }
    let config = Config { admin: validated_admin };
    let state = ContractState { config, last_post_id: 0, posts: Vec::new() };
    let mut resp = Response::new();
    resp.add_attribute("action", String::from_str("instantiate"));
    resp.add_attribute("admin", String::from_str(admin()));
    proof {
        assert(state@.posts =~= Seq::<PostView>::empty());
    }
    Ok((state, resp))
}

/// The record a successful create appends: the next id, the given content,
/// the caller as author, the block time as creation date, and every
/// optional provenance field empty.
pub open spec fn created_post_view(
    post_id: u64,
    env: Env,
    info: MessageInfo,
    post_title: String,
    external_id: String,
    text: String,
    tags: Vec<String>,
) -> PostView {
    PostView {
        post_id,
        post_title: post_title@,
        external_id: external_id@,
        text: text@,
        tags: tags.deep_view(),
        author: info.sender@,
        creation_date: env.time,
        last_edit_date: None,
        deleter: None,
        editor: None,
        deletion_date: None,
    }
}

/// What creating a post does, for every input: payment is checked first,
/// then content; any failure leaves the state unchanged; success appends
/// exactly one record under the next id and advances the sequencer.
pub open spec fn create_post_outcome(
    pre: ContractState,
    post: ContractState,
    env: Env,
    info: MessageInfo,
    post_title: String,
    external_id: String,
    text: String,
    tags: Vec<String>,
    r: Result<Response, ContractError>,
) -> bool {
    let payment = spec_funds_exact(info.funds@, CREATE_FEE, spec_denom());
    let content = spec_validate(text@, external_id@);
    if !payment {
        r == Err::<Response, ContractError>(ContractError::WrongPaymentAmount) && post == pre
    } else if content is Err {
        r == Err::<Response, ContractError>(content->Err_0) && post == pre
    } else {
        let id = (pre@.last_post_id + 1) as u64;
        &&& r is Ok
        &&& post@.admin == pre@.admin
        &&& post@.last_post_id == pre@.last_post_id + 1
        &&& post@.posts == pre@.posts.push(
            created_post_view(id, env, info, post_title, external_id, text, tags),
        )
        &&& r->Ok_0.messages@.len() == 0
        &&& r->Ok_0.attributes@.len() == 3
        &&& attr_is(r->Ok_0.attributes@[0], "action"@, "create_post"@)
        &&& attr_is(r->Ok_0.attributes@[1], "post_id"@, spec_decimal(id as int))
        &&& attr_is(r->Ok_0.attributes@[2], "author"@, info.sender@)
    }
}

/// Creates a post for the exact creation fee. The caller becomes the
/// author; the new id is one past the sequencer's last value.
pub fn execute_create_post(
    state: &mut ContractState,
    env: &Env,
    info: &MessageInfo,
    post_title: String,
    external_id: String,
    text: String,
    tags: Vec<String>,
) -> (r: Result<Response, ContractError>)
    requires
        old(state).wf(),
        spec_funds_exact(info.funds@, CREATE_FEE, spec_denom()) && spec_validate(
            text@,
            external_id@,
        ) is Ok ==> old(state).last_post_id < u64::MAX,
    ensures
        final(state).wf(),
        create_post_outcome(
            *old(state),
            *final(state),
            *env,
            *info,
            post_title,
            external_id,
            text,
            tags,
            r,
        ),
{
    if let Err(e) = assert_sent_exact_coin(
        &info.funds,
        Some(Coin { amount: CREATE_FEE, denom: String::from_str(denom()) }),
    ) {
        return Err(e);
    }
    if let Err(e) = validate(text.as_str(), external_id.as_str()) {
        return Err(e);
    }
    let incremented_id = state.last_post_id + 1;
    let ghost new_view = created_post_view(
        incremented_id,
        *env,
        *info,
        post_title,
        external_id,
        text,
        tags,
    );
    let post = Post {
        post_id: incremented_id,
        post_title,
        external_id,
        text,
        tags,
        author: info.sender.clone(),
        creation_date: env.time,
        last_edit_date: None,
        deleter: None,
        editor: None,
        deletion_date: None,
    };
    proof {
        assert(post@ =~= new_view);
    }
    state.last_post_id = incremented_id;
    state.posts.push(post);
    proof {
        let pre = *old(state);
        assert(state@.posts =~= pre@.posts.push(new_view));
        assert forall|i: int, j: int|
            0 <= i < j < state@.posts.len() implies state@.posts[i].post_id
            < state@.posts[j].post_id by {
            if j < pre@.posts.len() {
                assert(pre@.wf());
            } else {
                assert(state@.posts[i] == pre@.posts[i]);
            }
        }
        assert forall|i: int|
            0 <= i < state@.posts.len() implies 1 <= (#[trigger] state@.posts[i]).post_id
            <= state@.last_post_id by {
            if i < pre@.posts.len() {
                assert(state@.posts[i] == pre@.posts[i]);
            }
        }
    }
    let mut resp = Response::new();
    resp.add_attribute("action", String::from_str("create_post"));
    resp.add_attribute("post_id", u64_to_decimal(incremented_id));
    resp.add_attribute("author", info.sender.clone());
    Ok(resp)
}

/// The record an edit leaves in place of the old one: id, title, author
/// and creation date preserved; content replaced; editor and edit date
/// set to the caller and the block time; deletion provenance cleared.
pub open spec fn edited_post_view(
    old_p: PostView,
    env: Env,
    info: MessageInfo,
    external_id: String,
    text: String,
    tags: Vec<String>,
) -> PostView {
    PostView {
        post_id: old_p.post_id,
        post_title: old_p.post_title,
        external_id: external_id@,
        text: text@,
        tags: tags.deep_view(),
        author: old_p.author,
        creation_date: old_p.creation_date,
        last_edit_date: Some(env.time),
        deleter: None,
        editor: Some(info.sender@),
        deletion_date: None,
    }
}

/// What editing a post does, for every input: payment first, then
/// content, then existence; any failure leaves the state unchanged;
/// success replaces the record in place and rewards the original author.
pub open spec fn edit_post_outcome(
    pre: ContractState,
    post: ContractState,
    env: Env,
    info: MessageInfo,
    post_id: u64,
    external_id: String,
    text: String,
    tags: Vec<String>,
    r: Result<Response, ContractError>,
) -> bool {
    let payment = spec_funds_exact(info.funds@, EDIT_FEE, spec_denom());
    let content = spec_validate(text@, external_id@);
    if !payment {
        r == Err::<Response, ContractError>(ContractError::WrongPaymentAmount) && post == pre
    } else if content is Err {
        r == Err::<Response, ContractError>(content->Err_0) && post == pre
    } else if pre@.spec_get_post(post_id) is None {
        r == Err::<Response, ContractError>(ContractError::PostNotFound) && post == pre
    } else {
        let old_p = pre@.spec_get_post(post_id)->Some_0;
        let new_p = edited_post_view(old_p, env, info, external_id, text, tags);
        &&& r is Ok
        &&& post@.admin == pre@.admin
        &&& post@.last_post_id == pre@.last_post_id
        &&& exists|i: int|
            #![auto]
            0 <= i < pre@.posts.len() && pre@.posts[i] == old_p && post@.posts
                == pre@.posts.update(i, new_p)
        &&& r->Ok_0.messages@.len() == 1
        &&& r->Ok_0.messages@[0].to_address@ == old_p.author
        &&& r->Ok_0.messages@[0].amount@.len() == 1
        &&& r->Ok_0.messages@[0].amount@[0].amount == AUTHOR_SHARE
        &&& r->Ok_0.messages@[0].amount@[0].denom@ == spec_denom()
        &&& r->Ok_0.attributes@.len() == 3
        &&& attr_is(r->Ok_0.attributes@[0], "action"@, "edit_post"@)
        &&& attr_is(r->Ok_0.attributes@[1], "post_id"@, spec_decimal(post_id as int))
        &&& attr_is(r->Ok_0.attributes@[2], "editor"@, info.sender@)
    }
}

/// Edits a post for the exact edit fee. The caller becomes the editor and
/// the original author is sent the fixed reward. A record that was already
/// deleted can still be edited: deletion is not a terminal state, and no
/// guard rejects mutations of a redacted record.
pub fn execute_edit_post(
    state: &mut ContractState,
    env: &Env,
    info: &MessageInfo,
    post_id: u64,
    external_id: String,
    text: String,
    tags: Vec<String>,
) -> (r: Result<Response, ContractError>)
    requires
        old(state).wf(),
    ensures
        final(state).wf(),
        edit_post_outcome(
            *old(state),
            *final(state),
            *env,
            *info,
            post_id,
            external_id,
            text,
            tags,
            r,
        ),
{
    if let Err(e) = assert_sent_exact_coin(
        &info.funds,
        Some(Coin { amount: EDIT_FEE, denom: String::from_str(denom()) }),
    ) {
        return Err(e);
    }
    if let Err(e) = validate(text.as_str(), external_id.as_str()) {
        return Err(e);
    }
    let idx = match state.find_post_index(post_id) {
        Some(i) => i,
        None => {
            return Err(ContractError::PostNotFound);
        },
    };
    let old_post = state.posts[idx].duplicate();
    let ghost old_p = old(state)@.spec_get_post(post_id)->Some_0;
    let ghost new_p = edited_post_view(old_p, *env, *info, external_id, text, tags);
    let author_addr = old_post.author.clone();
    let new_post = Post {
        post_id: old_post.post_id,
        post_title: old_post.post_title,
        external_id,
        text,
        tags,
        author: old_post.author,
        creation_date: old_post.creation_date,
        last_edit_date: Some(env.time),
        deleter: None,
        editor: Some(info.sender.clone()),
        deletion_date: None,
    };
    proof {
        assert(new_post@ =~= new_p);
    }
    state.posts.set(idx, new_post);
    proof {
        let pre = *old(state);
        assert(state@.posts =~= pre@.posts.update(idx as int, new_p));
        assert forall|k: int|
            0 <= k < state@.posts.len() implies (#[trigger] state@.posts[k]).post_id
            == pre@.posts[k].post_id by {}
        assert forall|i: int, j: int|
            0 <= i < j < state@.posts.len() implies state@.posts[i].post_id
            < state@.posts[j].post_id by {
            assert(pre@.posts[i].post_id < pre@.posts[j].post_id);
        }
        assert(state.wf());
    }
    let mut resp = Response::new();
    let mut share_amount: Vec<Coin> = Vec::new();
    share_amount.push(Coin { amount: AUTHOR_SHARE, denom: String::from_str(denom()) });
    resp.add_message(crate::msg::BankSend { to_address: author_addr, amount: share_amount });
    resp.add_attribute("action", String::from_str("edit_post"));
    resp.add_attribute("post_id", u64_to_decimal(post_id));
    resp.add_attribute("editor", info.sender.clone());
    Ok(resp)
}

/// The record a delete leaves in place of the old one: content replaced
/// by the fixed sentinels, author, creation date and edit provenance
/// preserved, deleter and deletion date set.
pub open spec fn deleted_post_view(old_p: PostView, env: Env, info: MessageInfo) -> PostView {
    PostView {
        post_id: old_p.post_id,
        post_title: old_p.post_title,
        external_id: Seq::<char>::empty(),
        text: crate::constants::spec_deletion_notice(),
        tags: seq![crate::constants::spec_deleted_tag()],
        author: old_p.author,
        creation_date: old_p.creation_date,
        last_edit_date: old_p.last_edit_date,
        deleter: Some(info.sender@),
        editor: old_p.editor,
        deletion_date: Some(env.time),
    }
}

/// What deleting a post does, for every input: payment first, then
/// existence; any failure leaves the state unchanged; success redacts the
/// record in place, keeping it queryable.
pub open spec fn delete_post_outcome(
    pre: ContractState,
    post: ContractState,
    env: Env,
    info: MessageInfo,
    post_id: u64,
    r: Result<Response, ContractError>,
) -> bool {
    let payment = spec_funds_exact(info.funds@, DELETE_FEE, spec_denom());
    if !payment {
        r == Err::<Response, ContractError>(ContractError::WrongPaymentAmount) && post == pre
    } else if pre@.spec_get_post(post_id) is None {
        r == Err::<Response, ContractError>(ContractError::PostNotFound) && post == pre
    } else {
        let old_p = pre@.spec_get_post(post_id)->Some_0;
        let new_p = deleted_post_view(old_p, env, info);
        &&& r is Ok
        &&& post@.admin == pre@.admin
        &&& post@.last_post_id == pre@.last_post_id
        &&& exists|i: int|
            #![auto]
            0 <= i < pre@.posts.len() && pre@.posts[i] == old_p && post@.posts
                == pre@.posts.update(i, new_p)
        &&& r->Ok_0.messages@.len() == 0
        &&& r->Ok_0.attributes@.len() == 3
        &&& attr_is(r->Ok_0.attributes@[0], "action"@, "delete_post"@)
        &&& attr_is(r->Ok_0.attributes@[1], "post_id"@, spec_decimal(post_id as int))
        &&& attr_is(r->Ok_0.attributes@[2], "deleter"@, info.sender@)
    }
}

/// Deletes a post for the exact deletion fee. Deletion is soft: the
/// record stays under its id with its content redacted, and it can be
/// deleted again or edited afterwards; no guard enforces a terminal state.
pub fn execute_delete_post(
    state: &mut ContractState,
    env: &Env,
    info: &MessageInfo,
    post_id: u64,
) -> (r: Result<Response, ContractError>)
    requires
        old(state).wf(),
    ensures
        final(state).wf(),
        delete_post_outcome(*old(state), *final(state), *env, *info, post_id, r),
{
    if let Err(e) = assert_sent_exact_coin(
        &info.funds,
        Some(Coin { amount: DELETE_FEE, denom: String::from_str(denom()) }),
    ) {
        return Err(e);
    }
    let idx = match state.find_post_index(post_id) {
        Some(i) => i,
        None => {
            return Err(ContractError::PostNotFound);
        },
    };
    let old_post = state.posts[idx].duplicate();
    let ghost old_p = old(state)@.spec_get_post(post_id)->Some_0;
    let ghost new_p = deleted_post_view(old_p, *env, *info);
    let mut sentinel_tags: Vec<String> = Vec::new();
    sentinel_tags.push(String::from_str(crate::constants::deleted_tag()));
    let new_post = Post {
        post_id: old_post.post_id,
        post_title: old_post.post_title,
        external_id: String::new(),
        text: String::from_str(crate::constants::deletion_notice()),
        tags: sentinel_tags,
        author: old_post.author,
        creation_date: old_post.creation_date,
        last_edit_date: old_post.last_edit_date,
        deleter: Some(info.sender.clone()),
        editor: old_post.editor,
        deletion_date: Some(env.time),
    };
    proof {
        assert(new_post@ =~= new_p);
    }
    state.posts.set(idx, new_post);
    proof {
        let pre = *old(state);
        assert(state@.posts =~= pre@.posts.update(idx as int, new_p));
        assert forall|i: int, j: int|
            0 <= i < j < state@.posts.len() implies state@.posts[i].post_id
            < state@.posts[j].post_id by {
            assert(pre@.posts[i].post_id < pre@.posts[j].post_id);
        }
        assert(state.wf());
    }
    let mut resp = Response::new();
    resp.add_attribute("action", String::from_str("delete_post"));
    resp.add_attribute("post_id", u64_to_decimal(post_id));
    resp.add_attribute("deleter", info.sender.clone());
    Ok(resp)
}

/// What the treasury sweep does: a non-administrator is rejected with no
/// transfer; the administrator gets the whole reported balance sent to
/// the fixed payout address. The ledger is never touched.
pub open spec fn withdraw_outcome(
    pre: ContractState,
    post: ContractState,
    info: MessageInfo,
    balance: Vec<Coin>,
    r: Result<Response, ContractError>,
) -> bool {
    &&& post == pre
    &&& if info.sender@ != spec_admin() {
        r == Err::<Response, ContractError>(ContractError::Unauthorized)
    } else {
        &&& r is Ok
        &&& r->Ok_0.messages@.len() == 1
        &&& r->Ok_0.messages@[0].to_address@ == crate::constants::spec_payout_address()
        &&& r->Ok_0.messages@[0].amount@ == balance@
        &&& r->Ok_0.attributes@.len() == 1
        &&& attr_is(r->Ok_0.attributes@[0], "action"@, "withdraw"@)
    }
}

/// Sweeps the treasury: admin only. `balance` is the full current balance
/// of the module's account as the host reports it; the single transfer
/// moves all of it, leaving the balance at zero once the host settles it.
pub fn execute_withdraw(
    state: &mut ContractState,
    info: &MessageInfo,
    balance: &Vec<Coin>,
) -> (r: Result<Response, ContractError>)
    requires
        old(state).wf(),
    ensures
        final(state).wf(),
        withdraw_outcome(*old(state), *final(state), *info, *balance, r),
{
    let admin_addr = String::from_str(admin());
    if !(info.sender == admin_addr) {
        return Err(ContractError::Unauthorized);
    }
    let mut resp = Response::new();
    resp.add_message(
        crate::msg::BankSend {
            to_address: String::from_str(crate::constants::payout_address()),
            amount: crate::state::clone_coin_vec(balance),
        },
    );
    resp.add_attribute("action", String::from_str("withdraw"));
    Ok(resp)
}

/// Dispatches a state-changing request to its handler. The balance is the
/// module account's current holdings as reported by the host; only the
/// treasury sweep reads it.
pub fn execute(
    state: &mut ContractState,
    env: &Env,
    info: &MessageInfo,
    balance: &Vec<Coin>,
    msg: ExecuteMsg,
) -> (r: Result<Response, ContractError>)
    requires
        old(state).wf(),
        msg matches ExecuteMsg::CreatePost { external_id, text, .. } ==> (spec_funds_exact(
            info.funds@,
            CREATE_FEE,
            spec_denom(),
        ) && spec_validate(text@, external_id@) is Ok ==> old(state).last_post_id < u64::MAX),
    ensures
        final(state).wf(),
        msg matches ExecuteMsg::CreatePost { post_title, external_id, text, tags }
            ==> create_post_outcome(
            *old(state),
            *final(state),
            *env,
            *info,
            post_title,
            external_id,
            text,
            tags,
            r,
        ),
        msg matches ExecuteMsg::EditPost { post_id, external_id, text, tags }
            ==> edit_post_outcome(
            *old(state),
            *final(state),
            *env,
            *info,
            post_id,
            external_id,
            text,
            tags,
            r,
        ),
        msg matches ExecuteMsg::DeletePost { post_id } ==> delete_post_outcome(
            *old(state),
            *final(state),
            *env,
            *info,
            post_id,
            r,
        ),
        msg is Withdraw ==> withdraw_outcome(*old(state), *final(state), *info, *balance, r),
{
    match msg {
        ExecuteMsg::CreatePost { post_title, external_id, text, tags } => execute_create_post(
            state,
            env,
            info,
            post_title,
            external_id,
            text,
            tags,
        ),
        ExecuteMsg::EditPost { post_id, external_id, text, tags } => execute_edit_post(
            state,
            env,
            info,
            post_id,
            external_id,
            text,
            tags,
        ),
        ExecuteMsg::DeletePost { post_id } => execute_delete_post(state, env, info, post_id),
        ExecuteMsg::Withdraw {} => execute_withdraw(state, info, balance),
    }
}

/// The name this module records for itself in the host's version store.
pub open spec fn spec_contract_name() -> Seq<char> {
    "rome_contract"@
}

/// The version this module records for itself.
pub open spec fn spec_contract_version() -> Seq<char> {
    "0.1.0"@
}

pub fn contract_name() -> (r: &'static str)
    ensures
        r@ == spec_contract_name(),
{
    "rome_contract"
}

pub fn contract_version() -> (r: &'static str)
    ensures
        r@ == spec_contract_version(),
{
    "0.1.0"
}

/// What migration does: an upgrade is accepted only from a store that
/// recorded the same module name; the state itself is untouched.
pub open spec fn migrate_outcome(
    stored_contract: String,
    r: Result<Response, ContractError>,
) -> bool {
    if stored_contract@ != spec_contract_name() {
        &&& r is Err
        &&& r->Err_0 matches ContractError::Std { msg } && msg@
            == "Can only upgrade from same type"@
    } else {
        &&& r is Ok
        &&& r->Ok_0.messages@.len() == 0
        &&& r->Ok_0.attributes@.len() == 3
        &&& attr_is(r->Ok_0.attributes@[0], "action"@, "migration"@)
        &&& attr_is(r->Ok_0.attributes@[1], "version"@, spec_contract_version())
        &&& attr_is(r->Ok_0.attributes@[2], "contract"@, spec_contract_name())
    }
}

/// Decides a migration request. `stored_contract` is the module name the
/// host's version store holds; on success the caller re-records the
/// current name and version there.
pub fn migrate(stored_contract: &String, _msg: MigrateMsg) -> (r: Result<
    Response,
    ContractError,
>)
    ensures
        migrate_outcome(*stored_contract, r),
{
    let name = String::from_str(contract_name());
    if !(*stored_contract == name) {
        return Err(
            ContractError::Std { msg: String::from_str("Can only upgrade from same type") },
        );
    }
    let mut resp = Response::new();
    resp.add_attribute("action", String::from_str("migration"));
    resp.add_attribute("version", String::from_str(contract_version()));
    resp.add_attribute("contract", String::from_str(contract_name()));
    Ok(resp)
}

/// Whether a record belongs to a page: its id is strictly above the
/// exclusive lower bound, where one is given.
pub open spec fn page_pred(p: PostView, start_after: Option<u64>) -> bool {
    match start_after {
        Some(s) => p.post_id > s,
        None => true,
    }
}

/// All records past the cursor, in ledger order.
pub open spec fn spec_filtered(posts: Seq<PostView>, start_after: Option<u64>) -> Seq<PostView> {
    posts.filter(|p: PostView| page_pred(p, start_after))
}

/// The page size actually used: the caller's value, the default where
/// none is given, and never above the hard cap.
pub open spec fn spec_effective_limit(limit: Option<u32>) -> int {
    let l = match limit {
        Some(l) => l as int,
        None => DEFAULT_LIMIT as int,
    };
    if l > MAX_LIMIT as int {
        MAX_LIMIT as int
    } else {
        l
    }
}

/// One page of a listing: the records past the cursor, ascending by id,
/// truncated to the effective limit.
pub open spec fn spec_page(
    posts: Seq<PostView>,
    limit: Option<u32>,
    start_after: Option<u64>,
) -> Seq<PostView> {
    let f = spec_filtered(posts, start_after);
    let lim = spec_effective_limit(limit);
    if f.len() <= lim {
        f
    } else {
        f.take(lim)
    }
}

/// Lists one page of posts. Never fails; an empty page is a valid result.
pub fn query_all_posts(
    state: &ContractState,
    limit: Option<u32>,
    start_after: Option<u64>,
) -> (r: AllPostsResponse)
    ensures
        r.posts.deep_view() == spec_page(state@.posts, limit, start_after),
{
    let lim_u32 = match limit {
        Some(l) => {
            if l > MAX_LIMIT {
                MAX_LIMIT
            } else {
                l
            }
        },
        None => DEFAULT_LIMIT,
    };
    let lim = lim_u32 as usize;
    let ghost model = state@.posts;
    let ghost pred = |p: PostView| page_pred(p, start_after);
    let mut out: Vec<Post> = Vec::new();
    let mut i: usize = 0;
    proof {
        assert(model.subrange(0, 0).filter(pred) =~= Seq::<PostView>::empty());
        assert(out.deep_view() =~= Seq::<PostView>::empty());
    }
    while i < state.posts.len() && out.len() < lim
        invariant
            model == state@.posts,
            state.posts@.len() == model.len(),
            pred == (|p: PostView| page_pred(p, start_after)),
            lim == spec_effective_limit(limit),
            i <= model.len(),
            out.deep_view() == model.subrange(0, i as int).filter(pred),
            out@.len() <= lim,
        decreases model.len() - i,
    {
        let matched = match start_after {
            Some(s) => state.posts[i].post_id > s,
            None => true,
        };
        proof {
            assert(state.posts@[i as int]@ == model[i as int]);
            assert(matched == pred(model[i as int]));
            let prefix = model.subrange(0, i as int);
            let next = model.subrange(0, i + 1);
            assert(next.drop_last() =~= prefix);
            assert(next.last() == model[i as int]);
            reveal(Seq::filter);
        }
        if matched {
            out.push(state.posts[i].duplicate());
            proof {
                assert(out.deep_view() =~= model.subrange(0, i + 1).filter(pred));
            }
        } else {
            proof {
                assert(out.deep_view() =~= model.subrange(0, i + 1).filter(pred));
            }
        }
        i += 1;
    }
    proof {
        let filtered = spec_filtered(model, start_after);
        if i == model.len() {
            assert(model.subrange(0, i as int) =~= model);
            if filtered.len() > lim {
                assert(out.deep_view().len() == filtered.len());
                assert(false);
            }
        } else {
            let prefix = model.subrange(0, i as int);
            let rest = model.subrange(i as int, model.len() as int);
            assert(model =~= prefix + rest);
            Seq::<PostView>::filter_distributes_over_add(prefix, rest, pred);
            assert(filtered.take(lim as int) =~= prefix.filter(pred));
            assert(filtered.len() >= lim);
            if filtered.len() <= lim as int {
                assert(filtered =~= prefix.filter(pred));
            }
        }
    }
    AllPostsResponse { posts: out }
}

/// Point lookup. Absence is a valid, empty result, never a failure.
pub fn query_post(state: &ContractState, post_id: u64) -> (r: PostResponse)
    ensures
        r.post.deep_view() == state@.spec_get_post(post_id),
{
    match state.find_post_index(post_id) {
        Some(i) => PostResponse { post: Some(state.posts[i].duplicate()) },
        None => PostResponse { post: None },
    }
}

/// Dispatches a read-only request to its handler. Queries never fail and
/// never change the state.
pub fn query(state: &ContractState, msg: QueryMsg) -> (r: QueryResponse)
    ensures
        msg matches QueryMsg::AllPosts { limit, start_after } ==> r matches QueryResponse::AllPosts(a)
            && a.posts.deep_view() == spec_page(state@.posts, limit, start_after),
        msg matches QueryMsg::Post { post_id } ==> r matches QueryResponse::Post(p)
            && p.post.deep_view() == state@.spec_get_post(post_id),
{
    match msg {
        QueryMsg::AllPosts { limit, start_after } => QueryResponse::AllPosts(
            query_all_posts(state, limit, start_after),
        ),
        QueryMsg::Post { post_id } => QueryResponse::Post(query_post(state, post_id)),
    }
}

} // verus!
