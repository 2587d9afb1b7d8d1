//! The calls of the collection contract.
use vstd::prelude::*;

use crate::artist_collection::msg::{AssetMsg, AssetQuery, ExecuteMsg, MsgDto, QueryMsg};
use crate::error::ContractError;
use crate::ident::{derive_id, derived_id, label_prefix, label_prefix_of};
use crate::response::Response;
use crate::state::{guarded_identifier, Env, MessageInfo, Store};

verus! {

/// What a mint owes: refused as the guard says, or one `Mint` message for the
/// stored class with the caller's token, and the attributes `method`,
/// `class_id` and `id`.
pub open spec fn minted(
    store: Store,
    sender: Seq<char>,
    id: String,
    uri: Option<String>,
    uri_hash: Option<String>,
    data: Option<Vec<u8>>,
    r: Result<Response<AssetMsg>, ContractError>,
) -> bool {
    match guarded_identifier(store, sender) {
        Err(e) => r == Err::<Response<AssetMsg>, ContractError>(e),
        Ok(class_id) => r matches Ok(resp) && resp.messages@ == seq![
            AssetMsg::Mint { class_id, id, uri, uri_hash, data },
        ] && resp.attrs() == seq![
            ("method"@, "mint"@),
            ("class_id"@, class_id@),
            ("id"@, id@),
        ],
    }
}

/// What a burn owes: refused as the guard says, or one `Burn` message for
/// the stored class and the caller's token, and the attributes `method`,
/// `class_id` and `id`.
pub open spec fn burned(
    store: Store,
    sender: Seq<char>,
    id: String,
    r: Result<Response<AssetMsg>, ContractError>,
) -> bool {
    match guarded_identifier(store, sender) {
        Err(e) => r == Err::<Response<AssetMsg>, ContractError>(e),
        Ok(class_id) => r matches Ok(resp) && resp.messages@ == seq![
            AssetMsg::Burn { class_id, id },
        ] && resp.attrs() == seq![("method"@, "burn"@), ("class_id"@, class_id@), ("id"@, id@)],
    }
}

/// What creating the collection of `artist` owes: refused while a class is
/// stored, or for a label without a prefix, with the store unchanged; else
/// the derived class id is stored, the owner kept, and one `IssueClass`
/// message named after the artist with the label's prefix as symbol is sent,
/// with the attributes `owner` and `class_id`.
pub open spec fn created(
    pre: Store,
    post: Store,
    address: Seq<char>,
    sender: Seq<char>,
    artist: String,
    r: Result<Response<AssetMsg>, ContractError>,
) -> bool {
    if pre.identifier is Some {
        r == Err::<Response<AssetMsg>, ContractError>(ContractError::AlreadyCreated) && post == pre
    } else {
        match derived_id(artist@, address) {
            None => r == Err::<Response<AssetMsg>, ContractError>(ContractError::InvalidLabel)
                && post == pre,
            Some(class_id) => {
                &&& post.owner == pre.owner
                &&& post.identifier matches Some(s) && s@ == class_id
                &&& r matches Ok(resp) && resp.messages@.len() == 1 && (
                resp.messages@[0] matches AssetMsg::IssueClass { name, symbol } && name == artist
                    && symbol@ == label_prefix(artist@)) && resp.attrs() == seq![
                    ("owner"@, sender),
                    ("class_id"@, class_id),
                ]
            },
        }
    }
}

/// What the call `msg` from `sender` owes, on the store `pre` that it leaves
/// as `post`: a mint or burn leaves the store as it was.
pub open spec fn executed(
    pre: Store,
    post: Store,
    address: Seq<char>,
    sender: Seq<char>,
    msg: ExecuteMsg,
    r: Result<Response<AssetMsg>, ContractError>,
) -> bool {
    match msg {
        ExecuteMsg::Mint { id, uri, uri_hash, data } => post == pre && minted(
            pre,
            sender,
            id,
            uri,
            uri_hash,
            data,
            r,
        ),
        ExecuteMsg::Burn { id } => post == pre && burned(pre, sender, id, r),
        ExecuteMsg::InstantiateCollection { artist } => created(
            pre,
            post,
            address,
            sender,
            artist,
            r,
        ),
    }
}

/// Only the owner mints or burns: a mint or burn from any other sender is
/// refused with `Unauthorized`, sends no message and changes nothing.
pub proof fn lemma_only_owner_mints_or_burns(
    pre: Store,
    post: Store,
    address: Seq<char>,
    sender: Seq<char>,
    msg: ExecuteMsg,
    r: Result<Response<AssetMsg>, ContractError>,
)
    requires
        executed(pre, post, address, sender, msg, r),
        msg is Mint || msg is Burn,
        !pre.is_owner(sender),
    ensures
        r == Err::<Response<AssetMsg>, ContractError>(ContractError::Unauthorized),
        post == pre,
{
}

/// Before the collection is created, the owner's mint or burn is refused with
/// `NotFound` and changes nothing.
pub proof fn lemma_no_mint_or_burn_before_creation(
    pre: Store,
    post: Store,
    address: Seq<char>,
    sender: Seq<char>,
    msg: ExecuteMsg,
    r: Result<Response<AssetMsg>, ContractError>,
)
    requires
        executed(pre, post, address, sender, msg, r),
        msg is Mint || msg is Burn,
        pre.is_owner(sender),
        pre.identifier is None,
    ensures
        r == Err::<Response<AssetMsg>, ContractError>(ContractError::NotFound),
        post == pre,
{
}

/// Every successful call sends exactly one message to the asset module.
pub proof fn lemma_one_message_per_call(
    pre: Store,
    post: Store,
    address: Seq<char>,
    sender: Seq<char>,
    msg: ExecuteMsg,
    r: Result<Response<AssetMsg>, ContractError>,
)
    requires
        executed(pre, post, address, sender, msg, r),
        r is Ok,
    ensures
        r->Ok_0.messages@.len() == 1,
{
}

/// No call changes the owner, and once the collection exists a second
/// creation is refused with `AlreadyCreated` and changes nothing.
pub proof fn lemma_owner_and_class_kept(
    pre: Store,
    post: Store,
    address: Seq<char>,
    sender: Seq<char>,
    msg: ExecuteMsg,
    r: Result<Response<AssetMsg>, ContractError>,
)
    requires
        executed(pre, post, address, sender, msg, r),
    ensures
        post.owner == pre.owner,
        pre.identifier is Some && msg is InstantiateCollection ==> r == Err::<
            Response<AssetMsg>,
            ContractError,
        >(ContractError::AlreadyCreated) && post == pre,
{
}

/// The request that `msg` is forwarded as; a listing asks for the page at
/// `page_key`. Every query but the two listings by issuer needs the stored
/// class id, and is refused with `NotFound` without it.
pub open spec fn planned_query(
    identifier: Option<String>,
    msg: QueryMsg,
    page_key: Option<String>,
) -> Result<AssetQuery, ContractError> {
    match msg {
        QueryMsg::Classes { issuer } => Ok(AssetQuery::Classes { issuer, page_key }),
        QueryMsg::ClassesNft => Ok(AssetQuery::NftClasses { page_key }),
        _ => match identifier {
            None => Err(ContractError::NotFound),
            Some(class_id) => Ok(
                match msg {
                    QueryMsg::Balance { owner } => AssetQuery::NftBalance { class_id, owner },
                    QueryMsg::Owner { id } => AssetQuery::NftOwner { class_id, id },
                    QueryMsg::Supply => AssetQuery::NftSupply { class_id },
                    QueryMsg::Nft { id } => AssetQuery::Nft { class_id, id },
                    QueryMsg::Nfts { owner } => match owner {
                        None => AssetQuery::Nfts { class_id: Some(class_id), owner: None, page_key },
                        Some(o) => AssetQuery::Nfts { class_id: None, owner: Some(o), page_key },
                    },
                    QueryMsg::ClassNft => AssetQuery::NftClass { class_id },
                    QueryMsg::BurnNft { nft_id } => AssetQuery::BurntNft { class_id, nft_id },
                    QueryMsg::BurntNftsInClass => AssetQuery::BurntNftsInClass {
                        class_id,
                        page_key,
                    },
                    // `Param` and `Class`; the listings by issuer do not come here.
                    _ => AssetQuery::Class { id: class_id },
                },
            ),
        },
    }
}

/// Instantiates the contract: `info.sender` becomes the owner. The collection
/// itself is created later, by `InstantiateCollection`. An instance that
/// already has an owner is refused and left as it is.
pub fn instantiate(store: &mut Store, _env: &Env, info: &MessageInfo, _msg: &MsgDto) -> (r: Result<
    Response<AssetMsg>,
    ContractError,
>)
    ensures
        old(store).owner is Some ==> r == Err::<Response<AssetMsg>, ContractError>(
            ContractError::AlreadyCreated,
        ) && *final(store) == *old(store),
        old(store).owner is None ==> {
            &&& final(store).owner == Some(info.sender)
            &&& final(store).identifier == old(store).identifier
            &&& r matches Ok(resp) && resp.attrs().len() == 0 && resp.messages@.len() == 0
        },
{
    if store.owner.is_some() {
        return Err(ContractError::AlreadyCreated);
    }
    store.owner = Some(info.sender.clone());
    Ok(Response::new())
}

/// Runs one call. The owner is never changed, and a successful call sends
/// exactly one message to the asset module.
pub fn execute(store: &mut Store, env: &Env, info: &MessageInfo, msg: ExecuteMsg) -> (r: Result<
    Response<AssetMsg>,
    ContractError,
>)
    ensures
        executed(*old(store), *final(store), env.contract_address@, info.sender@, msg, r),
        final(store).owner == old(store).owner,
        r matches Ok(resp) ==> resp.messages@.len() == 1,
{
    match msg {
        ExecuteMsg::Mint { id, uri, uri_hash, data } => mint(store, info, id, uri, uri_hash, data),
        ExecuteMsg::Burn { id } => burn(store, info, id),
        ExecuteMsg::InstantiateCollection { artist } => instantiate_collection(
            store,
            info,
            env,
            artist,
        ),
    }
}

/// Mints a token of the stored class, for the owner only.
fn mint(
    store: &Store,
    info: &MessageInfo,
    id: String,
    uri: Option<String>,
    uri_hash: Option<String>,
    data: Option<Vec<u8>>,
) -> (r: Result<Response<AssetMsg>, ContractError>)
    ensures
        minted(*store, info.sender@, id, uri, uri_hash, data, r),
{
    let class_id = match store.guarded_identifier(&info.sender) {
        Ok(c) => c,
        Err(e) => return Err(e),
    };
    let msg = AssetMsg::Mint {
        class_id: class_id.clone(),
        id: id.clone(),
        uri,
        uri_hash,
        data,
    };
    let resp = Response::new().add_attribute("method", "mint".to_owned()).add_attribute(
        "class_id",
        class_id,
    ).add_attribute("id", id).add_message(msg);
    assert(resp.attrs() =~= seq![("method"@, "mint"@), ("class_id"@, class_id@), ("id"@, id@)]);
    assert(resp.messages@ =~= seq![msg]);
    Ok(resp)
}

/// Burns a token of the stored class, for the owner only.
fn burn(store: &Store, info: &MessageInfo, id: String) -> (r: Result<
    Response<AssetMsg>,
    ContractError,
>)
    ensures
        burned(*store, info.sender@, id, r),
{
    let class_id = match store.guarded_identifier(&info.sender) {
        Ok(c) => c,
        Err(e) => return Err(e),
    };
    let msg = AssetMsg::Burn { class_id: class_id.clone(), id: id.clone() };
    let resp = Response::new().add_attribute("method", "burn".to_owned()).add_attribute(
        "class_id",
        class_id,
    ).add_attribute("id", id).add_message(msg);
    assert(resp.attrs() =~= seq![("method"@, "burn"@), ("class_id"@, class_id@), ("id"@, id@)]);
    assert(resp.messages@ =~= seq![msg]);
    Ok(resp)
}

/// Creates the collection of `artist`: derives and stores its class id, and
/// asks the asset module to issue the class.
fn instantiate_collection(store: &mut Store, info: &MessageInfo, env: &Env, artist: String) -> (r:
    Result<Response<AssetMsg>, ContractError>)
    ensures
        created(*old(store), *final(store), env.contract_address@, info.sender@, artist, r),
{
    if store.identifier.is_some() {
        return Err(ContractError::AlreadyCreated);
    }
    let symbol = match label_prefix_of(artist.as_str()) {
        Ok(p) => p.to_owned(),
        Err(e) => return Err(e),
    };
    let class_id = match derive_id(artist.as_str(), env.contract_address.as_str()) {
        Ok(c) => c,
        Err(e) => return Err(e),
    };
    store.identifier = Some(class_id.clone());
    let issue = AssetMsg::IssueClass { name: artist, symbol };
    let resp = Response::new().add_attribute("owner", info.sender.clone()).add_attribute(
        "class_id",
        class_id,
    ).add_message(issue);
    assert(resp.attrs() =~= seq![("owner"@, info.sender@), ("class_id"@, class_id@)]);
    assert(resp.messages@ =~= seq![issue]);
    Ok(resp)
}

/// The request to send to the asset module for `msg`; a listing asks for the
/// page at `page_key`, which the other queries ignore.
pub fn query(store: &Store, msg: &QueryMsg, page_key: Option<String>) -> (r: Result<
    AssetQuery,
    ContractError,
>)
    ensures
        r == planned_query(store.identifier, *msg, page_key),
{
    match msg {
        QueryMsg::Classes { issuer } => {
            return Ok(AssetQuery::Classes { issuer: issuer.clone(), page_key });
        },
        QueryMsg::ClassesNft => {
            return Ok(AssetQuery::NftClasses { page_key });
        },
        _ => {},
    }
    let class_id = match store.load_identifier() {
        Ok(c) => c,
        Err(e) => return Err(e),
    };
    let request = match msg {
        QueryMsg::Balance { owner } => AssetQuery::NftBalance { class_id, owner: owner.clone() },
        QueryMsg::Owner { id } => AssetQuery::NftOwner { class_id, id: id.clone() },
        QueryMsg::Supply => AssetQuery::NftSupply { class_id },
        QueryMsg::Nft { id } => AssetQuery::Nft { class_id, id: id.clone() },
        QueryMsg::Nfts { owner } => match owner {
            None => AssetQuery::Nfts { class_id: Some(class_id), owner: None, page_key },
            Some(o) => AssetQuery::Nfts { class_id: None, owner: Some(o.clone()), page_key },
        },
        QueryMsg::ClassNft => AssetQuery::NftClass { class_id },
        QueryMsg::BurnNft { nft_id } => AssetQuery::BurntNft { class_id, nft_id: nft_id.clone() },
        QueryMsg::BurntNftsInClass => AssetQuery::BurntNftsInClass { class_id, page_key },
        _ => AssetQuery::Class { id: class_id },
    };
    Ok(request)
}

} // verus!
