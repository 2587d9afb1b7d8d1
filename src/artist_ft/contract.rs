//! The calls of the token contract.
use vstd::prelude::*;

use crate::artist_ft::msg::{AssetMsg, AssetQuery, ExecuteMsg, MsgDto, QueryMsg};
use crate::error::ContractError;
use crate::ident::{derive_id, derived_id, label_prefix, label_prefix_of};
use crate::response::Response;
use crate::state::{guarded_identifier, Env, MessageInfo, Store};

verus! {

/// Decimal places of every token this contract issues.
pub const PRECISION: u32 = 6;

/// The asset module's feature code for minting, the one feature issued tokens have.
pub const FEATURE_MINTING: u32 = 0;

/// The character of the decimal digit `d`.
pub open spec fn digit_char(d: nat) -> char {
    (('0' as nat) + d) as char
}

/// The decimal digits of `n`, most significant first, without leading zeros.
pub open spec fn decimal(n: nat) -> Seq<char>
    decreases n,
{
    if n < 10 {
        seq![digit_char(n)]
    } else {
        decimal(n / 10).push(digit_char(n % 10))
    }
}

/// Relies on `u128`'s `Display`, through `ToString::to_string`: the decimal
/// digits of the number, with no sign and no leading zero.
#[verifier::external_body]
fn decimal_string(n: u128) -> (r: String)
    ensures
        r@ == decimal(n as nat),
{
    n.to_string()
}

/// `m` issues a token with `symbol` and `subunit`, this contract's precision,
/// nothing minted yet, minting as its feature, and no burn rate or send
/// commission.
pub open spec fn is_issue(m: AssetMsg, symbol: Seq<char>, subunit: Seq<char>) -> bool {
    m matches AssetMsg::Issue {
        symbol: s,
        subunit: u,
        precision,
        initial_amount,
        features,
        burn_rate,
        send_commission_rate,
    } && s@ == symbol && u@ == subunit && precision == PRECISION && initial_amount == 0
        && features@ == seq![FEATURE_MINTING] && burn_rate@ == "0"@ && send_commission_rate@
        == "0"@
}

/// What issuing a token under `label` owes, on a store without identifier:
/// refused for a label without a prefix, with the store unchanged; else the
/// derived denom is stored, the owner becomes `owner`, one `Issue` message
/// with `symbol` and `subunit` is sent, and the attributes are `owner` and
/// `denom`.
pub open spec fn issued(
    pre: Store,
    post: Store,
    address: Seq<char>,
    owner: Option<String>,
    label: Seq<char>,
    symbol: Seq<char>,
    subunit: Seq<char>,
    sender: Seq<char>,
    r: Result<Response<AssetMsg>, ContractError>,
) -> bool {
    match derived_id(label, address) {
        None => r == Err::<Response<AssetMsg>, ContractError>(ContractError::InvalidLabel) && post
            == pre,
        Some(denom) => {
            &&& post.owner == owner
            &&& post.identifier matches Some(d) && d@ == denom
            &&& r matches Ok(resp) && resp.messages@.len() == 1 && is_issue(
                resp.messages@[0],
                symbol,
                subunit,
            ) && resp.attrs() == seq![("owner"@, sender), ("denom"@, denom)]
        },
    }
}

/// What a mint owes: refused as the guard says, or one `Mint` message of
/// `amount` of the stored denom, and the attributes `method`, `denom` and
/// `amount` in decimal.
pub open spec fn minted(
    store: Store,
    sender: Seq<char>,
    amount: u128,
    r: Result<Response<AssetMsg>, ContractError>,
) -> bool {
    match guarded_identifier(store, sender) {
        Err(e) => r == Err::<Response<AssetMsg>, ContractError>(e),
        Ok(denom) => r matches Ok(resp) && resp.messages@ == seq![AssetMsg::Mint { denom, amount }]
            && resp.attrs() == seq![
            ("method"@, "mint"@),
            ("denom"@, denom@),
            ("amount"@, decimal(amount as nat)),
        ],
    }
}

/// What the call `msg` from `sender` owes, on the store `pre` that it leaves
/// as `post`: a mint leaves the store as it was, and a second creation is
/// refused with `AlreadyCreated`.
pub open spec fn executed(
    pre: Store,
    post: Store,
    address: Seq<char>,
    sender: Seq<char>,
    msg: ExecuteMsg,
    r: Result<Response<AssetMsg>, ContractError>,
) -> bool {
    match msg {
        ExecuteMsg::Mint { amount } => post == pre && minted(pre, sender, amount, r),
        ExecuteMsg::InstantiateArtistToken { artist } => if pre.identifier is Some {
            r == Err::<Response<AssetMsg>, ContractError>(ContractError::AlreadyCreated) && post
                == pre
        } else {
            issued(
                pre,
                post,
                address,
                pre.owner,
                artist@,
                label_prefix(artist@),
                artist@,
                sender,
                r,
            )
        },
    }
}

/// Only the owner mints: a mint from any other sender is refused with
/// `Unauthorized`, sends no message and changes nothing.
pub proof fn lemma_only_owner_mints(
    pre: Store,
    post: Store,
    address: Seq<char>,
    sender: Seq<char>,
    msg: ExecuteMsg,
    r: Result<Response<AssetMsg>, ContractError>,
)
    requires
        executed(pre, post, address, sender, msg, r),
        msg is Mint,
        !pre.is_owner(sender),
    ensures
        r == Err::<Response<AssetMsg>, ContractError>(ContractError::Unauthorized),
        post == pre,
{
}

/// Before the token is created, the owner's mint is refused with `NotFound`
/// and changes nothing.
pub proof fn lemma_no_mint_before_creation(
    pre: Store,
    post: Store,
    address: Seq<char>,
    sender: Seq<char>,
    msg: ExecuteMsg,
    r: Result<Response<AssetMsg>, ContractError>,
)
    requires
        executed(pre, post, address, sender, msg, r),
        msg is Mint,
        pre.is_owner(sender),
        pre.identifier is None,
    ensures
        r == Err::<Response<AssetMsg>, ContractError>(ContractError::NotFound),
        post == pre,
{
}

/// Every successful call sends exactly one message to the asset module.
pub proof fn lemma_one_message_per_call(
    pre: Store,
    post: Store,
    address: Seq<char>,
    sender: Seq<char>,
    msg: ExecuteMsg,
    r: Result<Response<AssetMsg>, ContractError>,
)
    requires
        executed(pre, post, address, sender, msg, r),
        r is Ok,
    ensures
        r->Ok_0.messages@.len() == 1,
{
}

/// No call changes the owner, and once the token exists a second creation is
/// refused with `AlreadyCreated` and changes nothing.
pub proof fn lemma_owner_and_denom_kept(
    pre: Store,
    post: Store,
    address: Seq<char>,
    sender: Seq<char>,
    msg: ExecuteMsg,
    r: Result<Response<AssetMsg>, ContractError>,
)
    requires
        executed(pre, post, address, sender, msg, r),
    ensures
        post.owner == pre.owner,
        pre.identifier is Some && msg is InstantiateArtistToken ==> r == Err::<
            Response<AssetMsg>,
            ContractError,
        >(ContractError::AlreadyCreated) && post == pre,
{
}

/// The request that `msg` is forwarded as; the listing asks for the page at
/// `page_key`. The token and balance queries need the stored denom, and are
/// refused with `NotFound` without it.
pub open spec fn planned_query(
    identifier: Option<String>,
    msg: QueryMsg,
    page_key: Option<String>,
) -> Result<AssetQuery, ContractError> {
    match msg {
        QueryMsg::Params => Ok(AssetQuery::Params),
        QueryMsg::Tokens { issuer } => Ok(AssetQuery::Tokens { issuer, page_key }),
        QueryMsg::Token => match identifier {
            Some(denom) => Ok(AssetQuery::Token { denom }),
            None => Err(ContractError::NotFound),
        },
        QueryMsg::Balance { account } => match identifier {
            Some(denom) => Ok(AssetQuery::Balance { account, denom }),
            None => Err(ContractError::NotFound),
        },
    }
}

/// The `Issue` message for a token with `symbol` and `subunit`.
fn issue_msg(symbol: String, subunit: String) -> (m: AssetMsg)
    ensures
        is_issue(m, symbol@, subunit@),
{
    let mut features: Vec<u32> = Vec::new();
    features.push(FEATURE_MINTING);
    assert(features@ =~= seq![FEATURE_MINTING]);
    AssetMsg::Issue {
        symbol,
        subunit,
        precision: PRECISION,
        initial_amount: 0,
        features,
        burn_rate: "0".to_owned(),
        send_commission_rate: "0".to_owned(),
    }
}

/// Derives and stores the denom for `label`, and builds the response that
/// issues the token; refused, with the store unchanged, for a label without
/// a prefix.
fn issue_token(
    store: &mut Store,
    env: &Env,
    info: &MessageInfo,
    label: &str,
    symbol: String,
    subunit: String,
) -> (r: Result<Response<AssetMsg>, ContractError>)
    ensures
        issued(
            *old(store),
            *final(store),
            env.contract_address@,
            old(store).owner,
            label@,
            symbol@,
            subunit@,
            info.sender@,
            r,
        ),
{
    let denom = match derive_id(label, env.contract_address.as_str()) {
        Ok(d) => d,
        Err(e) => return Err(e),
    };
    store.identifier = Some(denom.clone());
    let issue = issue_msg(symbol, subunit);
    let resp = Response::new().add_attribute("owner", info.sender.clone()).add_attribute(
        "denom",
        denom,
    ).add_message(issue);
    assert(resp.attrs() =~= seq![("owner"@, info.sender@), ("denom"@, denom@)]);
    Ok(resp)
}

/// Instantiates the contract and issues its token at once: `info.sender`
/// becomes the owner, and the denom is derived from `msg.subunit`. An
/// instance that already has an owner or a denom is refused and left as it is.
pub fn instantiate(store: &mut Store, env: &Env, info: &MessageInfo, msg: MsgDto) -> (r: Result<
    Response<AssetMsg>,
    ContractError,
>)
    ensures
        old(store).owner is Some || old(store).identifier is Some ==> r == Err::<
            Response<AssetMsg>,
            ContractError,
        >(ContractError::AlreadyCreated) && *final(store) == *old(store),
        old(store).owner is None && old(store).identifier is None ==> issued(
            *old(store),
            *final(store),
            env.contract_address@,
            Some(info.sender),
            msg.subunit@,
            msg.symbol@,
            msg.subunit@,
            info.sender@,
            r,
        ),
{
    if store.owner.is_some() || store.identifier.is_some() {
        return Err(ContractError::AlreadyCreated);
    }
    let MsgDto { symbol, subunit } = msg;
    let label = subunit.clone();
    let r = issue_token(store, env, info, label.as_str(), symbol, subunit);
    if r.is_ok() {
        store.owner = Some(info.sender.clone());
    }
    r
}

/// Runs one call. The owner is never changed, and a successful call sends
/// exactly one message to the asset module.
pub fn execute(store: &mut Store, env: &Env, info: &MessageInfo, msg: ExecuteMsg) -> (r: Result<
    Response<AssetMsg>,
    ContractError,
>)
    ensures
        executed(*old(store), *final(store), env.contract_address@, info.sender@, msg, r),
        final(store).owner == old(store).owner,
        r matches Ok(resp) ==> resp.messages@.len() == 1,
{
    match msg {
        ExecuteMsg::Mint { amount } => mint(store, info, amount),
        ExecuteMsg::InstantiateArtistToken { artist } => instantate_artist_ft(
            store,
            env,
            info,
            artist,
        ),
    }
}

/// Mints `amount` of the stored denom, for the owner only.
fn mint(store: &Store, info: &MessageInfo, amount: u128) -> (r: Result<
    Response<AssetMsg>,
    ContractError,
>)
    ensures
        minted(*store, info.sender@, amount, r),
{
    let denom = match store.guarded_identifier(&info.sender) {
        Ok(d) => d,
        Err(e) => return Err(e),
    };
    let msg = AssetMsg::Mint { denom: denom.clone(), amount };
    let shown = decimal_string(amount);
    let resp = Response::new().add_attribute("method", "mint".to_owned()).add_attribute(
        "denom",
        denom,
    ).add_attribute("amount", shown).add_message(msg);
    assert(resp.attrs() =~= seq![
        ("method"@, "mint"@),
        ("denom"@, denom@),
        ("amount"@, decimal(amount as nat)),
    ]);
    assert(resp.messages@ =~= seq![msg]);
    Ok(resp)
}

/// Creates the token of `artist`: the label's prefix is its symbol, the whole
/// name its subunit, and the denom is derived from the name.
fn instantate_artist_ft(store: &mut Store, env: &Env, info: &MessageInfo, artist: String) -> (r:
    Result<Response<AssetMsg>, ContractError>)
    ensures
        final(store).owner == old(store).owner,
        old(store).identifier is Some ==> r == Err::<Response<AssetMsg>, ContractError>(
            ContractError::AlreadyCreated,
        ) && *final(store) == *old(store),
        old(store).identifier is None ==> issued(
            *old(store),
            *final(store),
            env.contract_address@,
            old(store).owner,
            artist@,
            label_prefix(artist@),
            artist@,
            info.sender@,
            r,
        ),
{
    if store.identifier.is_some() {
        return Err(ContractError::AlreadyCreated);
    }
    let symbol = match label_prefix_of(artist.as_str()) {
        Ok(p) => p.to_owned(),
        Err(e) => return Err(e),
    };
    let label = artist.clone();
    issue_token(store, env, info, label.as_str(), symbol, artist)
}

/// The request to send to the asset module for `msg`; the listing asks for
/// the page at `page_key`, which the other queries ignore.
pub fn query(store: &Store, msg: &QueryMsg, page_key: Option<String>) -> (r: Result<
    AssetQuery,
    ContractError,
>)
    ensures
        r == planned_query(store.identifier, *msg, page_key),
{
    match msg {
        QueryMsg::Params => Ok(AssetQuery::Params),
        QueryMsg::Tokens { issuer } => Ok(AssetQuery::Tokens { issuer: issuer.clone(), page_key }),
        QueryMsg::Token => match store.load_identifier() {
            Ok(denom) => Ok(AssetQuery::Token { denom }),
            Err(e) => Err(e),
        },
        QueryMsg::Balance { account } => match store.load_identifier() {
            Ok(denom) => Ok(AssetQuery::Balance { account: account.clone(), denom }),
            Err(e) => Err(e),
        },
    }
}

} // verus!
