//! What the requests of JavaScript stand for.
//!
//! Each law speaks of whatever a call hands back: a request with acceptable arguments names the
//! accounts and amounts that the arguments stand for and goes to the network's own endpoint, and a
//! refusal names the first argument that is not acceptable.

use vstd::prelude::*;

use crate::keys::{keys_bytes, pubkey_from_text, reads_as, Pubkey};
use crate::node::args::{pubkey_arg, pubkeys_arg, Error, ErrorView, Status};
use crate::node::cheatcode::{
    fund_sol_request, fundings, Authority, Cheatcode, CheatcodeView, DeployOptions,
    ResetAccountOptions, SetTokenAccountUpdate, SolAccountFunding, StreamAccountOptions,
};
use crate::node::laws::law_addresses_one_by_one;
use crate::node::surfnet::{CheatcodeCall, Surfnet};
use crate::number::Number;
use crate::text::texts;

verus! {

/// Whether a call was refused because of an argument, with this reason.
pub open spec fn is_refused<T>(r: Result<T, Error>, reason: Seq<char>) -> bool {
    r matches Err(e) && e.status == Status::InvalidArg && e.reason@ == reason
}

/// Whether a text stands for an account.
pub open spec fn is_address(text: Seq<char>) -> bool {
    pubkey_from_text(text) is Ok
}

/// Whether a number stands for an amount.
pub open spec fn is_amount(number: Number) -> bool {
    number.unsigned() is Some
}

/// Whether a number, where it is given, stands for an amount.
pub open spec fn is_optional_amount(number: Option<Number>) -> bool {
    number matches Some(n) ==> is_amount(n)
}

/// Whether a text, where it is given, stands for an account.
pub open spec fn is_optional_address(text: Option<String>) -> bool {
    text matches Some(t) ==> is_address(t@)
}

/// Whether a key is the account that an optional text stands for: none where there is no text.
pub open spec fn reads_as_optional(text: Option<String>, key: Option<Pubkey>) -> bool {
    match (text, key) {
        (Some(t), Some(k)) => reads_as(t@, k@),
        (None, None) => true,
        _ => false,
    }
}

/// Whether a value is the amount that an optional number stands for: none where there is no number.
pub open spec fn counts_as_optional(number: Option<Number>, value: Option<u64>) -> bool {
    match (number, value) {
        (Some(n), Some(v)) => n.unsigned() == Some(v),
        (None, None) => true,
        _ => false,
    }
}

/// Whether two optional texts hold the same characters.
pub open spec fn same_optional_text(a: Option<String>, b: Option<String>) -> bool {
    match (a, b) {
        (Some(s), Some(t)) => s@ == t@,
        (None, None) => true,
        _ => false,
    }
}

/// Whether a call was refused for a text that stands for no account: the refusal names the argument
/// and gives the parser's complaint.
pub open spec fn refuses_address<T>(r: Result<T, Error>, text: Seq<char>, field: Seq<char>) -> bool {
    pubkey_from_text(text) matches Err(e) && is_refused(r, "Invalid "@ + field + ": "@ + e)
}

/// Whether a call was refused for a number that stands for no amount: the refusal names the
/// argument.
pub open spec fn refuses_number<T>(r: Result<T, Error>, field: Seq<char>) -> bool {
    is_refused(r, field + " must be a non-negative integer"@)
}

/// Funding an account asks for the account and the lamports that the arguments stand for.
pub proof fn law_fund_sol(
    surfnet: &Surfnet,
    address: String,
    lamports: Number,
    r: Result<CheatcodeCall, Error>,
)
    requires
        call_ensures(Surfnet::fund_sol, (surfnet, address, lamports), r),
    ensures
        !is_address(address@) ==> refuses_address(r, address@, "address"@),
        is_address(address@) && !is_amount(lamports) ==> refuses_number(r, "lamports"@),
        is_address(address@) && is_amount(lamports) ==> (r matches Ok(call) && {
            &&& call.rpc_url@ == surfnet@.rpc_url
            &&& call.code matches Cheatcode::FundSol { address: to, lamports: n } && {
                &&& reads_as(address@, to@)
                &&& lamports.unsigned() == Some(n)
            }
        }),
{
}

/// Whether an account to be funded is given by an address and an amount.
pub open spec fn is_funding(account: SolAccountFunding) -> bool {
    is_address(account.address@) && is_amount(account.lamports)
}

proof fn lemma_fundings(accounts: Seq<SolAccountFunding>)
    ensures
        match fundings(accounts) {
            Ok((addresses, lamports)) => {
                &&& addresses.len() == accounts.len()
                &&& lamports.len() == accounts.len()
                &&& forall|i: int|
                    0 <= i < accounts.len() ==> {
                        &&& is_funding(#[trigger] accounts[i])
                        &&& reads_as(accounts[i].address@, addresses[i])
                        &&& accounts[i].lamports.unsigned() == Some(lamports[i])
                    }
            },
            Err(e) => exists|i: int|
                {
                    &&& 0 <= i < accounts.len()
                    &&& !is_funding(#[trigger] accounts[i])
                    &&& fund_sol_request(accounts[i].address@, accounts[i].lamports) == Err::<
                        CheatcodeView,
                        ErrorView,
                    >(e)
                    &&& forall|j: int| 0 <= j < i ==> is_funding(#[trigger] accounts[j])
                },
        },
    decreases accounts.len(),
{
    if accounts.len() > 0 {
        let init = accounts.drop_last();
        lemma_fundings(init);
        assert(forall|i: int| 0 <= i < init.len() ==> #[trigger] accounts[i] == init[i]);
        assert(accounts.last() == accounts[accounts.len() - 1]);
        match fundings(init) {
            Ok(_) => {
                assert forall|i: int| 0 <= i < init.len() implies is_funding(
                    #[trigger] accounts[i],
                ) by {
                    assert(is_funding(init[i]));
                }
            },
            Err(e) => {
                let i = choose|i: int|
                    {
                        &&& 0 <= i < init.len()
                        &&& !is_funding(#[trigger] init[i])
                        &&& fund_sol_request(init[i].address@, init[i].lamports) == Err::<
                            CheatcodeView,
                            ErrorView,
                        >(e)
                        &&& forall|j: int| 0 <= j < i ==> is_funding(#[trigger] init[j])
                    };
                assert(!is_funding(accounts[i]));
                assert forall|j: int| 0 <= j < i implies is_funding(#[trigger] accounts[j]) by {
                    assert(is_funding(init[j]));
                }
            },
        }
    }
}

/// Funding several accounts asks for each account with its own lamports, in order. It is refused for
/// the first account that is not given by an address and an amount, of which the address is looked
/// at first.
pub proof fn law_fund_sol_many(
    surfnet: &Surfnet,
    accounts: Vec<SolAccountFunding>,
    r: Result<CheatcodeCall, Error>,
)
    requires
        call_ensures(Surfnet::fund_sol_many, (surfnet, accounts), r),
    ensures
        (forall|i: int| 0 <= i < accounts@.len() ==> is_funding(#[trigger] accounts@[i])) ==> (
        r matches Ok(call) && {
            &&& call.rpc_url@ == surfnet@.rpc_url
            &&& call.code matches Cheatcode::FundSolMany { addresses, lamports } && {
                &&& addresses@.len() == accounts@.len()
                &&& lamports@.len() == accounts@.len()
                &&& forall|i: int|
                    0 <= i < accounts@.len() ==> {
                        &&& reads_as((#[trigger] accounts@[i]).address@, addresses@[i]@)
                        &&& accounts@[i].lamports.unsigned() == Some(lamports@[i])
                    }
            }
        }),
        forall|i: int|
            0 <= i < accounts@.len() && !is_funding(#[trigger] accounts@[i]) && (forall|j: int|
                0 <= j < i ==> is_funding(#[trigger] accounts@[j])) ==> {
                &&& !is_address(accounts@[i].address@) ==> refuses_address(
                    r,
                    accounts@[i].address@,
                    "address"@,
                )
                &&& is_address(accounts@[i].address@) ==> refuses_number(r, "lamports"@)
            },
{
    lemma_fundings(accounts@);
    if let Ok((addresses, lamports)) = fundings(accounts@) {
        let code = r->Ok_0.code;
        let keys = code->FundSolMany_addresses;
        assert(keys_bytes(keys@) == addresses);
        assert forall|i: int| 0 <= i < accounts@.len() implies reads_as(
            (#[trigger] accounts@[i]).address@,
            keys@[i]@,
        ) by {
            assert(addresses[i] == keys@[i]@);
        }
    } else {
        let e = fundings(accounts@)->Err_0;
        let first = choose|i: int|
            {
                &&& 0 <= i < accounts@.len()
                &&& !is_funding(#[trigger] accounts@[i])
                &&& fund_sol_request(accounts@[i].address@, accounts@[i].lamports) == Err::<
                    CheatcodeView,
                    ErrorView,
                >(e)
                &&& forall|j: int| 0 <= j < i ==> is_funding(#[trigger] accounts@[j])
            };
        assert forall|i: int|
            0 <= i < accounts@.len() && !is_funding(#[trigger] accounts@[i]) && (forall|j: int|
                0 <= j < i ==> is_funding(#[trigger] accounts@[j])) implies i == first by {
            if i < first {
                assert(is_funding(accounts@[i]));
            } else if first < i {
                assert(is_funding(accounts@[first]));
            }
        }
    }
}

/// Funding a token account asks for the owner, the mint, the amount and the token program that the
/// arguments stand for.
pub proof fn law_fund_token(
    surfnet: &Surfnet,
    owner: String,
    mint: String,
    amount: Number,
    token_program: Option<String>,
    r: Result<CheatcodeCall, Error>,
)
    requires
        call_ensures(Surfnet::fund_token, (surfnet, owner, mint, amount, token_program), r),
    ensures
        refuses_in_order(r, owner@, mint@, token_program, amount),
        are_token_arguments(owner@, mint@, token_program, amount) ==> (r matches Ok(call) && {
            &&& call.rpc_url@ == surfnet@.rpc_url
            &&& call.code matches Cheatcode::FundToken {
                owner: to,
                mint: of,
                amount: n,
                token_program: by,
            } && {
                &&& reads_as(owner@, to@)
                &&& reads_as(mint@, of@)
                &&& amount.unsigned() == Some(n)
                &&& reads_as_optional(token_program, by)
            }
        }),
{
}

/// Whether the arguments of a token request are all acceptable.
pub open spec fn are_token_arguments(
    owner: Seq<char>,
    mint: Seq<char>,
    token_program: Option<String>,
    amount: Number,
) -> bool {
    is_address(owner) && is_address(mint) && is_optional_address(token_program) && is_amount(amount)
}

/// Whether a token request is refused for its first argument that is not acceptable: the owner, the
/// mint, the token program, the amount.
pub open spec fn refuses_in_order<T>(
    r: Result<T, Error>,
    owner: Seq<char>,
    mint: Seq<char>,
    token_program: Option<String>,
    amount: Number,
) -> bool {
    if !is_address(owner) {
        refuses_address(r, owner, "owner"@)
    } else if !is_address(mint) {
        refuses_address(r, mint, "mint"@)
    } else if !is_optional_address(token_program) {
        refuses_address(r, token_program->Some_0@, "tokenProgram"@)
    } else {
        !is_amount(amount) ==> refuses_number(r, "amount"@)
    }
}

/// Setting a token balance asks for the owner, the mint, the amount and the token program that the
/// arguments stand for.
pub proof fn law_set_token_balance(
    surfnet: &Surfnet,
    owner: String,
    mint: String,
    amount: Number,
    token_program: Option<String>,
    r: Result<CheatcodeCall, Error>,
)
    requires
        call_ensures(Surfnet::set_token_balance, (surfnet, owner, mint, amount, token_program), r),
    ensures
        refuses_in_order(r, owner@, mint@, token_program, amount),
        are_token_arguments(owner@, mint@, token_program, amount) ==> (r matches Ok(call) && {
            &&& call.rpc_url@ == surfnet@.rpc_url
            &&& call.code matches Cheatcode::SetTokenBalance {
                owner: to,
                mint: of,
                amount: n,
                token_program: by,
            } && {
                &&& reads_as(owner@, to@)
                &&& reads_as(mint@, of@)
                &&& amount.unsigned() == Some(n)
                &&& reads_as_optional(token_program, by)
            }
        }),
{
}

/// Funding several wallets asks for each owner in order, with one mint, amount and token program for
/// all. The first owner that stands for no account is complained of before anything else.
pub proof fn law_fund_token_many(
    surfnet: &Surfnet,
    owners: Vec<String>,
    mint: String,
    amount: Number,
    token_program: Option<String>,
    r: Result<CheatcodeCall, Error>,
)
    requires
        call_ensures(Surfnet::fund_token_many, (surfnet, owners, mint, amount, token_program), r),
    ensures
        forall|i: int|
            0 <= i < owners@.len() && !is_address((#[trigger] owners@[i])@) && (forall|j: int|
                0 <= j < i ==> is_address((#[trigger] owners@[j])@)) ==> refuses_address(
                r,
                owners@[i]@,
                "owner"@,
            ),
        (forall|i: int| 0 <= i < owners@.len() ==> is_address((#[trigger] owners@[i])@)) ==> {
            &&& !is_address(mint@) ==> refuses_address(r, mint@, "mint"@)
            &&& is_address(mint@) && !is_optional_address(token_program) ==> refuses_address(
                r,
                token_program->Some_0@,
                "tokenProgram"@,
            )
            &&& is_address(mint@) && is_optional_address(token_program) && !is_amount(amount)
                ==> refuses_number(r, "amount"@)
            &&& is_address(mint@) && is_optional_address(token_program) && is_amount(amount) ==> (
            r matches Ok(call) && {
                &&& call.rpc_url@ == surfnet@.rpc_url
                &&& call.code matches Cheatcode::FundTokenMany {
                    owners: to,
                    mint: of,
                    amount: n,
                    token_program: by,
                } && {
                    &&& to@.len() == owners@.len()
                    &&& forall|i: int|
                        0 <= i < owners@.len() ==> reads_as((#[trigger] owners@[i])@, to@[i]@)
                    &&& reads_as(mint@, of@)
                    &&& amount.unsigned() == Some(n)
                    &&& reads_as_optional(token_program, by)
                }
            })
        },
{
    let all = texts(owners@);
    law_addresses_one_by_one(all, "owner"@);
    assert(forall|i: int| 0 <= i < owners@.len() ==> all[i] == (#[trigger] owners@[i])@);
    assert forall|i: int| 0 <= i < owners@.len() implies (is_address((#[trigger] owners@[i])@)
        <==> pubkey_arg(pubkey_from_text(all[i]), "owner"@) is Ok) by {}
    if let Ok(keys) = pubkeys_arg(all, "owner"@) {
        if r is Ok {
            let to = r->Ok_0.code->FundTokenMany_owners;
            assert(keys_bytes(to@) == keys);
            assert forall|i: int| 0 <= i < owners@.len() implies reads_as(
                (#[trigger] owners@[i])@,
                to@[i]@,
            ) by {
                assert(pubkey_arg(pubkey_from_text(all[i]), "owner"@) is Ok);
                assert(keys[i] == to@[i]@);
            }
        }
        assert forall|i: int| 0 <= i < owners@.len() implies is_address(
            (#[trigger] owners@[i])@,
        ) by {
            assert(pubkey_arg(pubkey_from_text(all[i]), "owner"@) is Ok);
        }
    } else {
        let e = pubkeys_arg(all, "owner"@)->Err_0;
        let first = choose|i: int|
            {
                &&& 0 <= i < all.len()
                &&& #[trigger] pubkey_arg(pubkey_from_text(all[i]), "owner"@) == Err::<
                    Seq<u8>,
                    ErrorView,
                >(e)
                &&& forall|j: int|
                    0 <= j < i ==> #[trigger] pubkey_arg(
                        pubkey_from_text(all[j]),
                        "owner"@,
                    ) is Ok
            };
        assert(!is_address(owners@[first]@));
        assert forall|i: int|
            0 <= i < owners@.len() && !is_address((#[trigger] owners@[i])@) && (forall|j: int|
                0 <= j < i ==> is_address((#[trigger] owners@[j])@)) implies i == first by {
            if i < first {
                assert(pubkey_arg(pubkey_from_text(all[i]), "owner"@) is Ok);
            } else if first < i {
                assert(is_address(owners@[first]@));
            }
        }
    }
}

/// What a change may say about an authority: nothing, that it be cleared, or which account it is to
/// be. Not both of the last two.
pub open spec fn is_authority_change(set: Option<String>, clear: Option<bool>) -> bool {
    is_optional_address(set) && !(set is Some && clear == Some(true))
}

/// Whether an authority is what a change says of it.
pub open spec fn follows_change(
    set: Option<String>,
    clear: Option<bool>,
    authority: Authority,
) -> bool {
    match authority {
        Authority::Replace(key) => set matches Some(text) && reads_as(text@, key@),
        Authority::Clear => set is None && clear == Some(true),
        Authority::Keep => set is None && clear != Some(true),
    }
}

/// Changing a token account asks for the owner and the mint, the amounts, the state, the authorities
/// and the token program that the arguments stand for, and leaves out what they leave out.
pub proof fn law_set_token_account(
    surfnet: &Surfnet,
    owner: String,
    mint: String,
    update: SetTokenAccountUpdate,
    token_program: Option<String>,
    r: Result<CheatcodeCall, Error>,
)
    requires
        call_ensures(Surfnet::set_token_account, (surfnet, owner, mint, update, token_program), r),
    ensures
        r is Ok <==> {
            &&& is_address(owner@)
            &&& is_address(mint@)
            &&& is_optional_amount(update.amount)
            &&& is_optional_amount(update.delegated_amount)
            &&& is_authority_change(update.delegate, update.clear_delegate)
            &&& is_authority_change(update.close_authority, update.clear_close_authority)
            &&& is_optional_address(token_program)
        },
        r matches Ok(call) ==> {
            &&& call.rpc_url@ == surfnet@.rpc_url
            &&& call.code matches Cheatcode::SetTokenAccount {
                owner: to,
                mint: of,
                amount,
                state,
                delegated_amount,
                delegate,
                close_authority,
                token_program: by,
            } && {
                &&& reads_as(owner@, to@)
                &&& reads_as(mint@, of@)
                &&& counts_as_optional(update.amount, amount)
                &&& same_optional_text(update.state, state)
                &&& counts_as_optional(update.delegated_amount, delegated_amount)
                &&& follows_change(update.delegate, update.clear_delegate, delegate)
                &&& follows_change(
                    update.close_authority,
                    update.clear_close_authority,
                    close_authority,
                )
                &&& reads_as_optional(token_program, by)
            }
        },
{
}

/// A change to a token account is refused for its first argument that is not acceptable: the owner,
/// the mint, the amount, the delegated amount, the delegate, the authority to close the account, the
/// token program. An authority that is to be both set and cleared is refused before its text is
/// looked at.
pub proof fn law_set_token_account_refusals(
    surfnet: &Surfnet,
    owner: String,
    mint: String,
    update: SetTokenAccountUpdate,
    token_program: Option<String>,
    r: Result<CheatcodeCall, Error>,
)
    requires
        call_ensures(Surfnet::set_token_account, (surfnet, owner, mint, update, token_program), r),
    ensures
        if !is_address(owner@) {
            refuses_address(r, owner@, "owner"@)
        } else if !is_address(mint@) {
            refuses_address(r, mint@, "mint"@)
        } else if !is_optional_amount(update.amount) {
            refuses_number(r, "amount"@)
        } else if !is_optional_amount(update.delegated_amount) {
            refuses_number(r, "delegatedAmount"@)
        } else if update.delegate is Some && update.clear_delegate == Some(true) {
            is_refused(r, "delegate and clearDelegate are mutually exclusive"@)
        } else if !is_optional_address(update.delegate) {
            refuses_address(r, update.delegate->Some_0@, "delegate"@)
        } else if update.close_authority is Some && update.clear_close_authority == Some(true) {
            is_refused(r, "closeAuthority and clearCloseAuthority are mutually exclusive"@)
        } else if !is_optional_address(update.close_authority) {
            refuses_address(r, update.close_authority->Some_0@, "closeAuthority"@)
        } else {
            !is_optional_address(token_program) ==> refuses_address(
                r,
                token_program->Some_0@,
                "tokenProgram"@,
            )
        },
{
}

/// Setting an account asks for the account, the lamports, the bytes and the owner that the arguments
/// stand for.
pub proof fn law_set_account(
    surfnet: &Surfnet,
    address: String,
    lamports: Number,
    data: Vec<u8>,
    owner: String,
    r: Result<CheatcodeCall, Error>,
)
    requires
        call_ensures(Surfnet::set_account, (surfnet, address, lamports, data, owner), r),
    ensures
        !is_address(address@) ==> refuses_address(r, address@, "address"@),
        is_address(address@) && !is_address(owner@) ==> refuses_address(r, owner@, "owner"@),
        is_address(address@) && is_address(owner@) && !is_amount(lamports) ==> refuses_number(
            r,
            "lamports"@,
        ),
        is_address(address@) && is_address(owner@) && is_amount(lamports) ==> (r matches Ok(call)
            && {
            &&& call.rpc_url@ == surfnet@.rpc_url
            &&& call.code matches Cheatcode::SetAccount {
                address: at,
                lamports: n,
                data: bytes,
                owner: by,
            } && {
                &&& reads_as(address@, at@)
                &&& lamports.unsigned() == Some(n)
                &&& bytes@ == data@
                &&& reads_as(owner@, by@)
            }
        }),
{
}

/// Resetting an account asks for that account, with what the options say about owned accounts.
pub proof fn law_reset_account(
    surfnet: &Surfnet,
    address: String,
    options: Option<ResetAccountOptions>,
    r: Result<CheatcodeCall, Error>,
)
    requires
        call_ensures(Surfnet::reset_account, (surfnet, address, options), r),
    ensures
        !is_address(address@) ==> refuses_address(r, address@, "address"@),
        is_address(address@) ==> (r matches Ok(call) && {
            &&& call.rpc_url@ == surfnet@.rpc_url
            &&& call.code matches Cheatcode::ResetAccount { address: at, include_owned_accounts }
                && {
                &&& reads_as(address@, at@)
                &&& options matches Some(given) ==> include_owned_accounts
                    == given.include_owned_accounts
                &&& options is None ==> include_owned_accounts is None
            }
        }),
{
}

/// Streaming an account asks for that account, with what the options say about owned accounts.
pub proof fn law_stream_account(
    surfnet: &Surfnet,
    address: String,
    options: Option<StreamAccountOptions>,
    r: Result<CheatcodeCall, Error>,
)
    requires
        call_ensures(Surfnet::stream_account, (surfnet, address, options), r),
    ensures
        !is_address(address@) ==> refuses_address(r, address@, "address"@),
        is_address(address@) ==> (r matches Ok(call) && {
            &&& call.rpc_url@ == surfnet@.rpc_url
            &&& call.code matches Cheatcode::StreamAccount { address: at, include_owned_accounts }
                && {
                &&& reads_as(address@, at@)
                &&& options matches Some(given) ==> include_owned_accounts
                    == given.include_owned_accounts
                &&& options is None ==> include_owned_accounts is None
            }
        }),
{
}

/// Travelling in time goes to the epoch, the slot or the point in time that was asked for, each by
/// its own request.
pub proof fn law_time_travel(
    surfnet: &Surfnet,
    to: Number,
    epoch: Result<CheatcodeCall, Error>,
    slot: Result<CheatcodeCall, Error>,
    timestamp: Result<CheatcodeCall, Error>,
)
    requires
        call_ensures(Surfnet::time_travel_to_epoch, (surfnet, to), epoch),
        call_ensures(Surfnet::time_travel_to_slot, (surfnet, to), slot),
        call_ensures(Surfnet::time_travel_to_timestamp, (surfnet, to), timestamp),
    ensures
        !is_amount(to) ==> {
            &&& refuses_number(epoch, "epoch"@)
            &&& refuses_number(slot, "slot"@)
            &&& refuses_number(timestamp, "timestamp"@)
        },
        to.unsigned() matches Some(n) ==> {
            &&& epoch matches Ok(call) && call.rpc_url@ == surfnet@.rpc_url && call.code
                == Cheatcode::TimeTravelToEpoch(n)
            &&& slot matches Ok(call) && call.rpc_url@ == surfnet@.rpc_url && call.code
                == Cheatcode::TimeTravelToSlot(n)
            &&& timestamp matches Ok(call) && call.rpc_url@ == surfnet@.rpc_url && call.code
                == Cheatcode::TimeTravelToTimestamp(n)
        },
{
}

/// Deploying a program by its name hands on that name.
pub proof fn law_deploy_program(surfnet: &Surfnet, program_name: String, r: CheatcodeCall)
    requires
        call_ensures(Surfnet::deploy_program, (surfnet, program_name), r),
    ensures
        r.rpc_url@ == surfnet@.rpc_url,
        r.code matches Cheatcode::DeployProgram { program_name: name } && name@ == program_name@,
{
}

/// Deploying a program asks for the account that its address stands for, and hands on the path, the
/// bytes and the path of its description, each as it was given.
pub proof fn law_deploy(surfnet: &Surfnet, options: DeployOptions, r: Result<CheatcodeCall, Error>)
    requires
        call_ensures(Surfnet::deploy, (surfnet, options), r),
    ensures
        !is_address(options.program_id@) ==> refuses_address(
            r,
            options.program_id@,
            "programId"@,
        ),
        is_address(options.program_id@) && options.so_path is None && options.so_bytes is None
            ==> is_refused(r, "deploy requires either soPath or soBytes"@),
        is_address(options.program_id@) && (options.so_path is Some || options.so_bytes is Some)
            ==> (r matches Ok(call) && {
            &&& call.rpc_url@ == surfnet@.rpc_url
            &&& call.code matches Cheatcode::Deploy { program_id, so_path, so_bytes, idl_path } && {
                &&& reads_as(options.program_id@, program_id@)
                &&& same_optional_text(options.so_path, so_path)
                &&& same_optional_text(options.idl_path, idl_path)
                &&& options.so_bytes is Some <==> so_bytes is Some
                &&& options.so_bytes matches Some(given) ==> so_bytes->Some_0@ == given@
            }
        }),
{
}

/// Asking for an associated token address names the owner, the mint and the token program that the
/// arguments stand for.
pub proof fn law_get_ata(
    surfnet: &Surfnet,
    owner: String,
    mint: String,
    token_program: Option<String>,
    r: Result<CheatcodeCall, Error>,
)
    requires
        call_ensures(Surfnet::get_ata, (surfnet, owner, mint, token_program), r),
    ensures
        !is_address(owner@) ==> refuses_address(r, owner@, "owner"@),
        is_address(owner@) && !is_address(mint@) ==> refuses_address(r, mint@, "mint"@),
        is_address(owner@) && is_address(mint@) && !is_optional_address(token_program)
            ==> refuses_address(r, token_program->Some_0@, "tokenProgram"@),
        is_address(owner@) && is_address(mint@) && is_optional_address(token_program) ==> (
        r matches Ok(call) && {
            &&& call.rpc_url@ == surfnet@.rpc_url
            &&& call.code matches Cheatcode::GetAta { owner: to, mint: of, token_program: by } && {
                &&& reads_as(owner@, to@)
                &&& reads_as(mint@, of@)
                &&& reads_as_optional(token_program, by)
            }
        }),
{
}

} // verus!
