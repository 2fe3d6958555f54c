//! The command handlers: Create, Donate, Withdraw, and the two queries. Each
//! handler validates its inputs and reads storage first, and only then
//! writes, so a failing command leaves no visible write behind.
//!
//! Donations follow the funded policy: the caller must attach exactly one
//! payment, of the expected denomination and at least the minimum amount; the
//! payment is credited to the caller's ledger entry and the transfer engine
//! moves it to the contract's custodial account, so the recorded amount and
//! the ledger stay consistent. A withdrawal by anyone but the campaign's
//! creator fails visibly with `Unauthorized`.

use vstd::prelude::*;
use vstd::string::StringExecFns;

use crate::error::Error;
use crate::msg::{Coin, Env, HandleAnswer, HandleMsg, InitMsg, QueryAnswer, QueryMsg};
use crate::state::{
    config, config_read, may_load, save, Campaign, CampaignView, State, Storage,
};
use crate::transfer::{deposit, transfer};

verus! {

/// The smallest donation accepted, in minimal units of the expected
/// denomination.
pub const MINIMUM_DONATION: u128 = 1000;

/// The one denomination donations are accepted in.
pub open spec fn donation_denom() -> Seq<char> {
    "uscrt"@
}

/// A donation's attached payment is acceptable when it is exactly one coin,
/// of the expected denomination, meeting the minimum.
pub open spec fn valid_payment(funds: Seq<Coin>) -> bool {
    &&& funds.len() == 1
    &&& funds[0].amount >= MINIMUM_DONATION
    &&& funds[0].denom@ == donation_denom()
}

/// What `try_create` guarantees: on success the name is appended to the
/// registry (a duplicate name is appended again) and a fresh record with a
/// zero amount is stored under it (overwriting any prior record); the ledger
/// is untouched. Before initialization it fails with `NotFound` and writes
/// nothing.
pub open spec fn create_post(
    prev: Storage,
    next: Storage,
    env: Env,
    name: String,
    description: String,
    r: Result<HandleAnswer, Error>,
) -> bool {
    match r {
        Ok(ans) => {
            &&& prev.registry() is Some
            &&& next.registry() == Some(prev.registry()->Some_0.push(name@))
            &&& next.campaigns_map() == prev.campaigns_map().insert(
                name@,
                (CampaignView { owner: env.sender@, description: description@, amount: 0 }),
            )
            &&& next.ledger == prev.ledger
            &&& (ans matches HandleAnswer::Create { status } && status@ == "Campaign "@ + name@
                + " created"@)
        },
        Err(e) => e == Error::NotFound && prev.registry() is None && next == prev,
    }
}

/// What `try_donate` guarantees. On success the attached payment is added to
/// the campaign's recorded amount, the contract's custodial balance grows by
/// exactly the payment, every other balance is as it was, and the sum of all
/// balances grows by exactly the payment (the payment arrives from outside
/// the ledger). Every failure leaves storage exactly as it was, and each
/// error comes precisely when stated: `NotFound` for an unknown campaign,
/// `InvalidDonation` for an unacceptable payment, `Overflow` when the
/// record's counter or a credited balance would overflow.
pub open spec fn donate_post(
    prev: Storage,
    next: Storage,
    env: Env,
    name: String,
    r: Result<HandleAnswer, Error>,
) -> bool {
    match r {
        Ok(ans) => {
            &&& prev.campaigns_map().contains_key(name@)
            &&& valid_payment(env.sent_funds@)
            &&& {
                let pay = env.sent_funds@[0].amount;
                let rec = prev.campaigns_map()[name@];
                &&& rec.amount + pay <= u128::MAX
                &&& prev.balance(env.sender@) + pay <= u128::MAX
                &&& (env.sender@ != env.contract_address@ ==> prev.balance(env.contract_address@)
                    + pay <= u128::MAX)
                &&& next.campaigns_map() == prev.campaigns_map().insert(
                    name@,
                    (CampaignView {
                        owner: rec.owner,
                        description: rec.description,
                        amount: (rec.amount + pay) as u128,
                    }),
                )
                &&& next.config == prev.config
                &&& next.balance(env.contract_address@) == prev.balance(env.contract_address@)
                    + pay
                &&& (env.sender@ != env.contract_address@ ==> next.balance(env.sender@)
                    == prev.balance(env.sender@))
                &&& (forall|a: Seq<char>|
                    a != env.contract_address@ && a != env.sender@ ==> next.balance(a)
                        == prev.balance(a))
                &&& next.total() == prev.total() + pay
                &&& (ans matches HandleAnswer::Donate { status, status_value } && status@
                    == "Campaign found! Donation sent!"@ && status_value == (rec.amount
                    + pay) as u128)
            }
        },
        Err(e) => next == prev && match e {
            Error::NotFound => !prev.campaigns_map().contains_key(name@),
            Error::InvalidDonation => prev.campaigns_map().contains_key(name@)
                && !valid_payment(env.sent_funds@),
            Error::Overflow => {
                &&& prev.campaigns_map().contains_key(name@)
                &&& valid_payment(env.sent_funds@)
                &&& {
                    let pay = env.sent_funds@[0].amount;
                    ||| prev.campaigns_map()[name@].amount + pay > u128::MAX
                    ||| prev.balance(env.sender@) + pay > u128::MAX
                    ||| (env.sender@ != env.contract_address@ && prev.balance(
                        env.contract_address@,
                    ) + pay > u128::MAX)
                }
            },
            _ => false,
        },
    }
}

/// What `try_withdraw` guarantees. On success — only for the campaign's
/// creator, only up to the recorded amount, and only when the custodial
/// balance covers it — the recorded amount shrinks by the withdrawal and the
/// transfer engine moves exactly that amount from the contract's custodial
/// account to the caller, leaving the sum of all balances unchanged. Every
/// failure leaves storage exactly as it was: `NotFound` for an unknown
/// campaign, `Unauthorized` for any caller but the creator, and
/// `InsufficientFunds` when the recorded amount or the custodial balance
/// would underflow.
pub open spec fn withdraw_post(
    prev: Storage,
    next: Storage,
    env: Env,
    name: String,
    amount: u128,
    r: Result<HandleAnswer, Error>,
) -> bool {
    match r {
        Ok(ans) => {
            &&& prev.campaigns_map().contains_key(name@)
            &&& {
                let rec = prev.campaigns_map()[name@];
                &&& rec.owner == env.sender@
                &&& rec.amount >= amount
                &&& prev.balance(env.contract_address@) >= amount
                &&& next.campaigns_map() == prev.campaigns_map().insert(
                    name@,
                    (CampaignView {
                        owner: rec.owner,
                        description: rec.description,
                        amount: (rec.amount - amount) as u128,
                    }),
                )
                &&& next.config == prev.config
                &&& (env.sender@ != env.contract_address@ ==> {
                    &&& prev.balance(env.sender@) + amount <= u128::MAX
                    &&& next.balance(env.sender@) == prev.balance(env.sender@) + amount
                    &&& next.balance(env.contract_address@) == prev.balance(
                        env.contract_address@,
                    ) - amount
                })
                &&& (env.sender@ == env.contract_address@ ==> next.balance(env.sender@)
                    == prev.balance(env.sender@))
                &&& (forall|a: Seq<char>|
                    a != env.contract_address@ && a != env.sender@ ==> next.balance(a)
                        == prev.balance(a))
                &&& next.total() == prev.total()
                &&& (ans matches HandleAnswer::Withdraw { status, status_value } && status@
                    == "Campaign found! Withdraw permitted and executed!"@ && status_value == (
                rec.amount - amount) as u128)
            }
        },
        Err(e) => next == prev && match e {
            Error::NotFound => !prev.campaigns_map().contains_key(name@),
            Error::Unauthorized => prev.campaigns_map().contains_key(name@)
                && prev.campaigns_map()[name@].owner != env.sender@,
            Error::InsufficientFunds => {
                &&& prev.campaigns_map().contains_key(name@)
                &&& prev.campaigns_map()[name@].owner == env.sender@
                &&& {
                    ||| prev.campaigns_map()[name@].amount < amount
                    ||| (prev.campaigns_map()[name@].amount >= amount && prev.balance(
                        env.contract_address@,
                    ) < amount)
                }
            },
            Error::Overflow => {
                &&& prev.campaigns_map().contains_key(name@)
                &&& prev.campaigns_map()[name@].owner == env.sender@
                &&& prev.campaigns_map()[name@].amount >= amount
                &&& prev.balance(env.contract_address@) >= amount
                &&& env.sender@ != env.contract_address@
                &&& prev.balance(env.sender@) + amount > u128::MAX
            },
            _ => false,
        },
    }
}

/// Conservation: internal movement never changes the sum of all ledger
/// balances. Across a run of successful commands the sum changes only by the
/// payments that funded donations bring in from outside: a successful
/// donation grows it by exactly the attached payment, and a successful
/// withdrawal leaves it unchanged.
pub proof fn lemma_conservation_of_funds(
    prev: Storage,
    mid: Storage,
    next: Storage,
    donate_env: Env,
    donate_name: String,
    donate_r: Result<HandleAnswer, Error>,
    withdraw_env: Env,
    withdraw_name: String,
    withdraw_amount: u128,
    withdraw_r: Result<HandleAnswer, Error>,
)
    requires
        donate_post(prev, mid, donate_env, donate_name, donate_r),
        donate_r is Ok,
        withdraw_post(mid, next, withdraw_env, withdraw_name, withdraw_amount, withdraw_r),
        withdraw_r is Ok,
    ensures
        mid.total() == prev.total() + donate_env.sent_funds@[0].amount,
        next.total() == mid.total(),
{
}

/// Initializes the contract: writes the empty registry. Records and ledger
/// entries are untouched.
pub fn init(storage: &mut Storage, _env: Env, _msg: InitMsg) -> (r: Result<(), Error>)
    ensures
        r == Ok::<(), Error>(()),
        final(storage).registry() == Some(Seq::<Seq<char>>::empty()),
        final(storage).campaigns == old(storage).campaigns,
        final(storage).ledger == old(storage).ledger,
{
    let state = State { campaign_names: Vec::new() };
    proof {
        assert(state@ =~= Seq::<Seq<char>>::empty());
    }
    config(storage, state);
    Ok(())
}

/// Dispatches one mutating command to its handler.
pub fn handle(storage: &mut Storage, env: Env, msg: HandleMsg) -> (r: Result<HandleAnswer, Error>)
    requires
        old(storage).wf(),
    ensures
        final(storage).wf(),
        match msg {
            HandleMsg::Create { name, description } => create_post(
                *old(storage),
                *final(storage),
                env,
                name,
                description,
                r,
            ),
            HandleMsg::Donate { name } => donate_post(*old(storage), *final(storage), env, name, r),
            HandleMsg::Withdraw { name, amount } => withdraw_post(
                *old(storage),
                *final(storage),
                env,
                name,
                amount as u128,
                r,
            ),
        },
{
    match msg {
        HandleMsg::Create { name, description } => try_create(storage, env, name, description),
        HandleMsg::Donate { name } => try_donate(storage, env, name),
        HandleMsg::Withdraw { name, amount } => try_withdraw(storage, env, name, amount as u128),
    }
}

/// Registers a campaign: appends the name to the registry and stores a fresh
/// record owned by the caller with a zero amount.
pub fn try_create(storage: &mut Storage, env: Env, name: String, desc: String) -> (r: Result<
    HandleAnswer,
    Error,
>)
    requires
        old(storage).wf(),
    ensures
        final(storage).wf(),
        create_post(*old(storage), *final(storage), env, name, desc, r),
{
    let mut state = match config_read(storage) {
        Ok(s) => s,
        Err(e) => {
            return Err(e);
        },
    };
    state.campaign_names.push(name.clone());
    proof {
        assert(state@ =~= old(storage).registry()->Some_0.push(name@));
    }
    config(storage, state);
    let stored_campaign = Campaign { owner: env.sender.clone(), description: desc, amount: 0 };
    save(storage, &name, stored_campaign);
    let status = String::from_str("Campaign ").concat(name.as_str()).concat(" created");
    Ok(HandleAnswer::Create { status })
}

/// Accepts a donation to a campaign: validates the attached payment, adds it
/// to the recorded amount, and moves it through the ledger into the
/// contract's custodial account. All validation precedes every write.
pub fn try_donate(storage: &mut Storage, env: Env, name: String) -> (r: Result<HandleAnswer, Error>)
    requires
        old(storage).wf(),
    ensures
        final(storage).wf(),
        donate_post(*old(storage), *final(storage), env, name, r),
{
    let stored = match may_load(storage, &name) {
        Ok(o) => o,
        Err(e) => {
            return Err(e);
        },
    };
    let mut stored_campaign = match stored {
        Some(c) => c,
        None => {
            return Err(Error::NotFound);
        },
    };
    if env.sent_funds.len() != 1 {
        return Err(Error::InvalidDonation);
    }
    let pay = env.sent_funds[0].amount;
    let expected_denom = String::from_str("uscrt");
    if pay < MINIMUM_DONATION || !(env.sent_funds[0].denom == expected_denom) {
        return Err(Error::InvalidDonation);
    }
    // Every checked addition is validated before the first write, so a
    // failure here leaves no partial state behind.
    let new_amount = match stored_campaign.amount.checked_add(pay) {
        Some(v) => v,
        None => {
            return Err(Error::Overflow);
        },
    };
    let caller_balance = storage.ledger.balance_of(&env.sender);
    if pay > u128::MAX - caller_balance {
        return Err(Error::Overflow);
    }
    if !(env.sender == env.contract_address) {
        let contract_balance = storage.ledger.balance_of(&env.contract_address);
        if pay > u128::MAX - contract_balance {
            return Err(Error::Overflow);
        }
    }
    // The attached payment arrives on the caller's entry from outside the
    // ledger; the transfer engine then moves it into custody.
    match deposit(&mut storage.ledger, &env.sender, pay) {
        Ok(()) => {},
        Err(e) => {
            return Err(e);
        },
    }
    match transfer(&mut storage.ledger, &env.sender, &env.contract_address, pay) {
        Ok(()) => {},
        Err(e) => {
            return Err(e);
        },
    }
    stored_campaign.amount = new_amount;
    save(storage, &name, stored_campaign);
    Ok(
        HandleAnswer::Donate {
            status: String::from_str("Campaign found! Donation sent!"),
            status_value: new_amount,
        },
    )
}

/// Pays accumulated funds out to the campaign's creator: checks ownership,
/// subtracts from the recorded amount, and moves the funds from the
/// contract's custodial account to the caller. The record is persisted only
/// if the transfer succeeded.
pub fn try_withdraw(storage: &mut Storage, env: Env, name: String, amount: u128) -> (r: Result<
    HandleAnswer,
    Error,
>)
    requires
        old(storage).wf(),
    ensures
        final(storage).wf(),
        withdraw_post(*old(storage), *final(storage), env, name, amount, r),
{
    let stored = match may_load(storage, &name) {
        Ok(o) => o,
        Err(e) => {
            return Err(e);
        },
    };
    let mut stored_campaign = match stored {
        Some(c) => c,
        None => {
            return Err(Error::NotFound);
        },
    };
    if !(stored_campaign.owner == env.sender) {
        return Err(Error::Unauthorized);
    }
    let new_amount = match stored_campaign.amount.checked_sub(amount) {
        Some(v) => v,
        None => {
            return Err(Error::InsufficientFunds);
        },
    };
    match transfer(&mut storage.ledger, &env.contract_address, &env.sender, amount) {
        Ok(()) => {},
        Err(e) => {
            return Err(e);
        },
    }
    stored_campaign.amount = new_amount;
    save(storage, &name, stored_campaign);
    Ok(
        HandleAnswer::Withdraw {
            status: String::from_str("Campaign found! Withdraw permitted and executed!"),
            status_value: new_amount,
        },
    )
}

/// Dispatches one query to its handler.
pub fn query(storage: &Storage, msg: QueryMsg) -> (r: Result<QueryAnswer, Error>)
    requires
        storage.wf(),
    ensures
        match msg {
            QueryMsg::Campaigns {} => match r {
                Ok(ans) => storage.registry() is Some && (ans matches QueryAnswer::Campaigns {
                    names,
                } && names.deep_view() == storage.registry()->Some_0),
                Err(e) => e == Error::NotFound && storage.registry() is None,
            },
            QueryMsg::Campaign { name } => match r {
                Ok(ans) => storage.campaigns_map().contains_key(name@) && (ans
                    matches QueryAnswer::Campaign { owner, description, amount } && owner@
                    == storage.campaigns_map()[name@].owner && description@
                    == storage.campaigns_map()[name@].description && amount
                    == storage.campaigns_map()[name@].amount),
                Err(e) => e == Error::NotFound && !storage.campaigns_map().contains_key(name@),
            },
        },
{
    match msg {
        QueryMsg::Campaigns {} => query_campaigns(storage),
        QueryMsg::Campaign { name } => query_campaign(storage, name),
    }
}

/// Returns the registry's contents, the full ordered list of campaign names.
fn query_campaigns(storage: &Storage) -> (r: Result<QueryAnswer, Error>)
    ensures
        match r {
            Ok(ans) => storage.registry() is Some && (ans matches QueryAnswer::Campaigns { names }
                && names.deep_view() == storage.registry()->Some_0),
            Err(e) => e == Error::NotFound && storage.registry() is None,
        },
{
    let state = match config_read(storage) {
        Ok(s) => s,
        Err(e) => {
            return Err(e);
        },
    };
    proof {
        assert(state.campaign_names.deep_view() =~= storage.registry()->Some_0);
    }
    Ok(QueryAnswer::Campaigns { names: state.campaign_names })
}

/// Returns one campaign's full record.
fn query_campaign(storage: &Storage, name: String) -> (r: Result<QueryAnswer, Error>)
    requires
        storage.wf(),
    ensures
        match r {
            Ok(ans) => storage.campaigns_map().contains_key(name@) && (ans
                matches QueryAnswer::Campaign { owner, description, amount } && owner@
                == storage.campaigns_map()[name@].owner && description@
                == storage.campaigns_map()[name@].description && amount
                == storage.campaigns_map()[name@].amount),
            Err(e) => e == Error::NotFound && !storage.campaigns_map().contains_key(name@),
        },
{
    let stored = match crate::state::load(storage, &name) {
        Ok(c) => c,
        Err(e) => {
            return Err(e);
        },
    };
    Ok(
        QueryAnswer::Campaign {
            owner: stored.owner,
            description: stored.description,
            amount: stored.amount,
        },
    )
}

} // verus!
