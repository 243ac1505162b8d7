//! Direct manipulation of a network's state, requested from JavaScript.
//!
//! Each request checks its arguments in a fixed order and stops at the first that is not
//! acceptable. An accepted request is handed to the network's RPC endpoint by the caller.

use vstd::prelude::*;
use vstd::string::*;

use crate::keys::{keys_bytes, option_bytes, pubkey_from_text, Pubkey};
use crate::node::args::{
    f64_to_u64, invalid, lent_text, number_arg, optional_pubkey_arg, parse_optional_pubkey,
    parse_pubkey, parse_pubkeys, pubkey_arg, pubkeys_arg, Error, ErrorView, Status,
};
use crate::node::config::{complaint, earlier, number_complaint};
use crate::number::Number;
use crate::text::{option_text, texts};

verus! {

/// An account that is to be funded.
#[derive(Debug)]
pub struct SolAccountFunding {
    pub address: String,
    pub lamports: Number,
}

/// What to do with accounts that belong to the account that is reset.
#[derive(Clone, Copy, Debug)]
pub struct ResetAccountOptions {
    pub include_owned_accounts: Option<bool>,
}

/// What to do with accounts that belong to the account that is streamed.
#[derive(Clone, Copy, Debug)]
pub struct StreamAccountOptions {
    pub include_owned_accounts: Option<bool>,
}

/// A change to a token account. What is left out stays as it is.
#[derive(Debug)]
pub struct SetTokenAccountUpdate {
    pub amount: Option<Number>,
    pub delegate: Option<String>,
    pub clear_delegate: Option<bool>,
    pub state: Option<String>,
    pub delegated_amount: Option<Number>,
    pub close_authority: Option<String>,
    pub clear_close_authority: Option<bool>,
}

/// A program that is to be deployed, from its bytes or from a file.
#[derive(Debug)]
pub struct DeployOptions {
    pub program_id: String,
    pub so_path: Option<String>,
    pub so_bytes: Option<Vec<u8>>,
    pub idl_path: Option<String>,
}

/// What happens to an authority of a token account.
#[derive(Clone, Copy, Debug)]
pub enum Authority {
    Keep,
    Clear,
    Replace(Pubkey),
}

/// What happens to an authority of a token account.
pub enum AuthorityView {
    Keep,
    Clear,
    Replace(Seq<u8>),
}

impl View for Authority {
    type V = AuthorityView;

    open spec fn view(&self) -> AuthorityView {
        match *self {
            Authority::Keep => AuthorityView::Keep,
            Authority::Clear => AuthorityView::Clear,
            Authority::Replace(key) => AuthorityView::Replace(key@),
        }
    }
}

/// A request with acceptable arguments.
#[allow(inconsistent_fields)]
#[derive(Debug)]
pub enum Cheatcode {
    FundSol { address: Pubkey, lamports: u64 },
    FundSolMany { addresses: Vec<Pubkey>, lamports: Vec<u64> },
    FundToken { owner: Pubkey, mint: Pubkey, amount: u64, token_program: Option<Pubkey> },
    SetTokenBalance { owner: Pubkey, mint: Pubkey, amount: u64, token_program: Option<Pubkey> },
    FundTokenMany {
        owners: Vec<Pubkey>,
        mint: Pubkey,
        amount: u64,
        token_program: Option<Pubkey>,
    },
    SetTokenAccount {
        owner: Pubkey,
        mint: Pubkey,
        amount: Option<u64>,
        state: Option<String>,
        delegated_amount: Option<u64>,
        delegate: Authority,
        close_authority: Authority,
        token_program: Option<Pubkey>,
    },
    SetAccount { address: Pubkey, lamports: u64, data: Vec<u8>, owner: Pubkey },
    ResetAccount { address: Pubkey, include_owned_accounts: Option<bool> },
    StreamAccount { address: Pubkey, include_owned_accounts: Option<bool> },
    TimeTravelToEpoch(u64),
    TimeTravelToSlot(u64),
    /// In milliseconds since the Unix epoch.
    TimeTravelToTimestamp(u64),
    DeployProgram { program_name: String },
    Deploy {
        program_id: Pubkey,
        so_path: Option<String>,
        so_bytes: Option<Vec<u8>>,
        idl_path: Option<String>,
    },
    GetAta { owner: Pubkey, mint: Pubkey, token_program: Option<Pubkey> },
}

/// A request with acceptable arguments.
#[allow(inconsistent_fields)]
pub enum CheatcodeView {
    FundSol { address: Seq<u8>, lamports: u64 },
    FundSolMany { addresses: Seq<Seq<u8>>, lamports: Seq<u64> },
    FundToken { owner: Seq<u8>, mint: Seq<u8>, amount: u64, token_program: Option<Seq<u8>> },
    SetTokenBalance { owner: Seq<u8>, mint: Seq<u8>, amount: u64, token_program: Option<Seq<u8>> },
    FundTokenMany {
        owners: Seq<Seq<u8>>,
        mint: Seq<u8>,
        amount: u64,
        token_program: Option<Seq<u8>>,
    },
    SetTokenAccount {
        owner: Seq<u8>,
        mint: Seq<u8>,
        amount: Option<u64>,
        state: Option<Seq<char>>,
        delegated_amount: Option<u64>,
        delegate: AuthorityView,
        close_authority: AuthorityView,
        token_program: Option<Seq<u8>>,
    },
    SetAccount { address: Seq<u8>, lamports: u64, data: Seq<u8>, owner: Seq<u8> },
    ResetAccount { address: Seq<u8>, include_owned_accounts: Option<bool> },
    StreamAccount { address: Seq<u8>, include_owned_accounts: Option<bool> },
    TimeTravelToEpoch(u64),
    TimeTravelToSlot(u64),
    TimeTravelToTimestamp(u64),
    DeployProgram { program_name: Seq<char> },
    Deploy {
        program_id: Seq<u8>,
        so_path: Option<Seq<char>>,
        so_bytes: Option<Seq<u8>>,
        idl_path: Option<Seq<char>>,
    },
    GetAta { owner: Seq<u8>, mint: Seq<u8>, token_program: Option<Seq<u8>> },
}

/// The bytes of an optional list of bytes.
pub open spec fn option_data(value: Option<Vec<u8>>) -> Option<Seq<u8>> {
    match value {
        Some(bytes) => Some(bytes@),
        None => None,
    }
}

impl View for Cheatcode {
    type V = CheatcodeView;

    open spec fn view(&self) -> CheatcodeView {
        match *self {
            Cheatcode::FundSol { address, lamports } => CheatcodeView::FundSol {
                address: address@,
                lamports,
            },
            Cheatcode::FundSolMany { addresses, lamports } => CheatcodeView::FundSolMany {
                addresses: keys_bytes(addresses@),
                lamports: lamports@,
            },
            Cheatcode::FundToken { owner, mint, amount, token_program } =>
                CheatcodeView::FundToken {
                    owner: owner@,
                    mint: mint@,
                    amount,
                    token_program: option_bytes(token_program),
                },
            Cheatcode::SetTokenBalance { owner, mint, amount, token_program } =>
                CheatcodeView::SetTokenBalance {
                    owner: owner@,
                    mint: mint@,
                    amount,
                    token_program: option_bytes(token_program),
                },
            Cheatcode::FundTokenMany { owners, mint, amount, token_program } =>
                CheatcodeView::FundTokenMany {
                    owners: keys_bytes(owners@),
                    mint: mint@,
                    amount,
                    token_program: option_bytes(token_program),
                },
            Cheatcode::SetTokenAccount {
                owner,
                mint,
                amount,
                state,
                delegated_amount,
                delegate,
                close_authority,
                token_program,
            } => CheatcodeView::SetTokenAccount {
                owner: owner@,
                mint: mint@,
                amount,
                state: option_text(state),
                delegated_amount,
                delegate: delegate@,
                close_authority: close_authority@,
                token_program: option_bytes(token_program),
            },
            Cheatcode::SetAccount { address, lamports, data, owner } =>
                CheatcodeView::SetAccount {
                    address: address@,
                    lamports,
                    data: data@,
                    owner: owner@,
                },
            Cheatcode::ResetAccount { address, include_owned_accounts } =>
                CheatcodeView::ResetAccount { address: address@, include_owned_accounts },
            Cheatcode::StreamAccount { address, include_owned_accounts } =>
                CheatcodeView::StreamAccount { address: address@, include_owned_accounts },
            Cheatcode::TimeTravelToEpoch(epoch) => CheatcodeView::TimeTravelToEpoch(epoch),
            Cheatcode::TimeTravelToSlot(slot) => CheatcodeView::TimeTravelToSlot(slot),
            Cheatcode::TimeTravelToTimestamp(ms) => CheatcodeView::TimeTravelToTimestamp(ms),
            Cheatcode::DeployProgram { program_name } => CheatcodeView::DeployProgram {
                program_name: program_name@,
            },
            Cheatcode::Deploy { program_id, so_path, so_bytes, idl_path } =>
                CheatcodeView::Deploy {
                    program_id: program_id@,
                    so_path: option_text(so_path),
                    so_bytes: option_data(so_bytes),
                    idl_path: option_text(idl_path),
                },
            Cheatcode::GetAta { owner, mint, token_program } => CheatcodeView::GetAta {
                owner: owner@,
                mint: mint@,
                token_program: option_bytes(token_program),
            },
        }
    }
}

/// A request, or the complaint about an argument.
pub open spec fn requested(r: Result<Cheatcode, Error>) -> Result<CheatcodeView, ErrorView> {
    match r {
        Ok(code) => Ok(code@),
        Err(e) => Err(e@),
    }
}

/// A request, unless there is a complaint about its arguments.
pub open spec fn unless(complaint: Option<ErrorView>, code: CheatcodeView) -> Result<
    CheatcodeView,
    ErrorView,
> {
    match complaint {
        Some(e) => Err(e),
        None => Ok(code),
    }
}

/// An address argument.
pub open spec fn address(text: Seq<char>, field: Seq<char>) -> Result<Seq<u8>, ErrorView> {
    pubkey_arg(pubkey_from_text(text), field)
}

/// The request to fund an account. The address is looked at before the amount.
pub open spec fn fund_sol_request(to: Seq<char>, lamports: Number) -> Result<
    CheatcodeView,
    ErrorView,
> {
    unless(
        earlier(
            complaint(address(to, "address"@)),
            complaint(number_arg(lamports, "lamports"@)),
        ),
        CheatcodeView::FundSol {
            address: address(to, "address"@)->Ok_0,
            lamports: number_arg(lamports, "lamports"@)->Ok_0,
        },
    )
}

/// Reads a request to fund an account.
pub fn fund_sol(to: &str, lamports: Number) -> (r: Result<Cheatcode, Error>)
    ensures
        requested(r) == fund_sol_request(to@, lamports),
{
    let address: Pubkey = match parse_pubkey(to, "address") {
        Ok(key) => key,
        Err(e) => {
            return Err(e);
        },
    };
    match f64_to_u64(lamports, "lamports") {
        Ok(lamports) => Ok(Cheatcode::FundSol { address, lamports }),
        Err(e) => Err(e),
    }
}

/// The addresses and amounts of a list of accounts to fund, or the first complaint: accounts are
/// looked at in order, each address before its amount.
pub open spec fn fundings(accounts: Seq<SolAccountFunding>) -> Result<
    (Seq<Seq<u8>>, Seq<u64>),
    ErrorView,
>
    decreases accounts.len(),
{
    if accounts.len() == 0 {
        Ok((Seq::empty(), Seq::empty()))
    } else {
        match fundings(accounts.drop_last()) {
            Err(e) => Err(e),
            Ok((addresses, lamports)) => match fund_sol_request(
                accounts.last().address@,
                accounts.last().lamports,
            ) {
                Err(e) => Err(e),
                Ok(code) => Ok(
                    (addresses.push(code->FundSol_address), lamports.push(code->FundSol_lamports)),
                ),
            },
        }
    }
}

/// The request to fund several accounts.
pub open spec fn fund_sol_many_request(accounts: Seq<SolAccountFunding>) -> Result<
    CheatcodeView,
    ErrorView,
> {
    match fundings(accounts) {
        Err(e) => Err(e),
        Ok((addresses, lamports)) => Ok(CheatcodeView::FundSolMany { addresses, lamports }),
    }
}

/// Once an account of the list is not acceptable, that is the complaint about the list, whatever
/// follows.
proof fn lemma_first_bad_funding(accounts: Seq<SolAccountFunding>, upto: int)
    requires
        0 <= upto <= accounts.len(),
        fundings(accounts.take(upto)) is Err,
    ensures
        fundings(accounts) == fundings(accounts.take(upto)),
    decreases accounts.len() - upto,
{
    if upto == accounts.len() {
        assert(accounts.take(upto) =~= accounts);
    } else {
        assert(accounts.take(upto + 1).drop_last() =~= accounts.take(upto));
        lemma_first_bad_funding(accounts, upto + 1);
    }
}

/// Reads a request to fund several accounts.
pub fn fund_sol_many(accounts: &Vec<SolAccountFunding>) -> (r: Result<Cheatcode, Error>)
    ensures
        requested(r) == fund_sol_many_request(accounts@),
{
    let mut addresses: Vec<Pubkey> = Vec::new();
    let mut amounts: Vec<u64> = Vec::new();
    assert(keys_bytes(addresses@) =~= Seq::empty());
    for i in 0..accounts.len()
        invariant
            fundings(accounts@.take(i as int)) == Ok::<(Seq<Seq<u8>>, Seq<u64>), ErrorView>(
                (keys_bytes(addresses@), amounts@),
            ),
    {
        proof {
            assert(accounts@.take(i + 1).drop_last() =~= accounts@.take(i as int));
            assert(accounts@.take(i + 1).last() == accounts@[i as int]);
        }
        match fund_sol(accounts[i].address.as_str(), accounts[i].lamports) {
            Ok(Cheatcode::FundSol { address, lamports }) => {
                let ghost before = keys_bytes(addresses@);
                addresses.push(address);
                amounts.push(lamports);
                assert(keys_bytes(addresses@) =~= before.push(address@));
            },
            Ok(_) => {
                assert(false);
            },
            Err(e) => {
                proof {
                    lemma_first_bad_funding(accounts@, i + 1);
                }
                return Err(e);
            },
        }
    }
    assert(accounts@.take(accounts@.len() as int) =~= accounts@);
    Ok(Cheatcode::FundSolMany { addresses, lamports: amounts })
}

/// The complaint about the arguments of a token request, if there is one: the owner, the mint, the
/// token program and the amount are looked at in this order.
pub open spec fn token_complaint(
    owner: Seq<char>,
    mint: Seq<char>,
    amount: Number,
    token_program: Option<Seq<char>>,
) -> Option<ErrorView> {
    earlier(
        complaint(address(owner, "owner"@)),
        earlier(
            complaint(address(mint, "mint"@)),
            earlier(
                complaint(optional_pubkey_arg(token_program, "tokenProgram"@)),
                complaint(number_arg(amount, "amount"@)),
            ),
        ),
    )
}

/// The arguments of a token request.
struct TokenArgs {
    owner: Pubkey,
    mint: Pubkey,
    amount: u64,
    token_program: Option<Pubkey>,
}

fn token_args(
    owner: &str,
    mint: &str,
    amount: Number,
    token_program: &Option<String>,
) -> (r: Result<TokenArgs, Error>)
    ensures
        match r {
            Err(e) => Some(e@) == token_complaint(owner@, mint@, amount, lent_text(token_program)),
            Ok(args) => {
                &&& token_complaint(owner@, mint@, amount, lent_text(token_program)) is None
                &&& args.owner@ == address(owner@, "owner"@)->Ok_0
                &&& args.mint@ == address(mint@, "mint"@)->Ok_0
                &&& args.amount == number_arg(amount, "amount"@)->Ok_0
                &&& option_bytes(args.token_program) == optional_pubkey_arg(
                    lent_text(token_program),
                    "tokenProgram"@,
                )->Ok_0
            },
        },
{
    let owner: Pubkey = match parse_pubkey(owner, "owner") {
        Ok(key) => key,
        Err(e) => {
            return Err(e);
        },
    };
    let mint: Pubkey = match parse_pubkey(mint, "mint") {
        Ok(key) => key,
        Err(e) => {
            return Err(e);
        },
    };
    let token_program: Option<Pubkey> = match parse_optional_pubkey(token_program, "tokenProgram") {
        Ok(key) => key,
        Err(e) => {
            return Err(e);
        },
    };
    match f64_to_u64(amount, "amount") {
        Ok(amount) => Ok(TokenArgs { owner, mint, amount, token_program }),
        Err(e) => Err(e),
    }
}

/// The request to fund a token account.
pub open spec fn fund_token_request(
    owner: Seq<char>,
    mint: Seq<char>,
    amount: Number,
    token_program: Option<Seq<char>>,
) -> Result<CheatcodeView, ErrorView> {
    unless(
        token_complaint(owner, mint, amount, token_program),
        CheatcodeView::FundToken {
            owner: address(owner, "owner"@)->Ok_0,
            mint: address(mint, "mint"@)->Ok_0,
            amount: number_arg(amount, "amount"@)->Ok_0,
            token_program: optional_pubkey_arg(token_program, "tokenProgram"@)->Ok_0,
        },
    )
}

/// Reads a request to fund a token account.
pub fn fund_token(
    owner: &str,
    mint: &str,
    amount: Number,
    token_program: &Option<String>,
) -> (r: Result<Cheatcode, Error>)
    ensures
        requested(r) == fund_token_request(owner@, mint@, amount, lent_text(token_program)),
{
    match token_args(owner, mint, amount, token_program) {
        Err(e) => Err(e),
        Ok(TokenArgs { owner, mint, amount, token_program }) => Ok(
            Cheatcode::FundToken { owner, mint, amount, token_program },
        ),
    }
}

/// The request to set the balance of a token account.
pub open spec fn set_token_balance_request(
    owner: Seq<char>,
    mint: Seq<char>,
    amount: Number,
    token_program: Option<Seq<char>>,
) -> Result<CheatcodeView, ErrorView> {
    unless(
        token_complaint(owner, mint, amount, token_program),
        CheatcodeView::SetTokenBalance {
            owner: address(owner, "owner"@)->Ok_0,
            mint: address(mint, "mint"@)->Ok_0,
            amount: number_arg(amount, "amount"@)->Ok_0,
            token_program: optional_pubkey_arg(token_program, "tokenProgram"@)->Ok_0,
        },
    )
}

/// Reads a request to set the balance of a token account.
pub fn set_token_balance(
    owner: &str,
    mint: &str,
    amount: Number,
    token_program: &Option<String>,
) -> (r: Result<Cheatcode, Error>)
    ensures
        requested(r) == set_token_balance_request(owner@, mint@, amount, lent_text(token_program)),
{
    match token_args(owner, mint, amount, token_program) {
        Err(e) => Err(e),
        Ok(TokenArgs { owner, mint, amount, token_program }) => Ok(
            Cheatcode::SetTokenBalance { owner, mint, amount, token_program },
        ),
    }
}

/// The request to fund several wallets with the same token and amount. The owners, the mint, the
/// token program and the amount are looked at in this order.
pub open spec fn fund_token_many_request(
    owners: Seq<Seq<char>>,
    mint: Seq<char>,
    amount: Number,
    token_program: Option<Seq<char>>,
) -> Result<CheatcodeView, ErrorView> {
    unless(
        earlier(
            complaint(pubkeys_arg(owners, "owner"@)),
            earlier(
                complaint(address(mint, "mint"@)),
                earlier(
                    complaint(optional_pubkey_arg(token_program, "tokenProgram"@)),
                    complaint(number_arg(amount, "amount"@)),
                ),
            ),
        ),
        CheatcodeView::FundTokenMany {
            owners: pubkeys_arg(owners, "owner"@)->Ok_0,
            mint: address(mint, "mint"@)->Ok_0,
            amount: number_arg(amount, "amount"@)->Ok_0,
            token_program: optional_pubkey_arg(token_program, "tokenProgram"@)->Ok_0,
        },
    )
}

/// Reads a request to fund several wallets with the same token and amount.
pub fn fund_token_many(
    owners: &Vec<String>,
    mint: &str,
    amount: Number,
    token_program: &Option<String>,
) -> (r: Result<Cheatcode, Error>)
    ensures
        requested(r) == fund_token_many_request(
            texts(owners@),
            mint@,
            amount,
            lent_text(token_program),
        ),
{
    let owners: Vec<Pubkey> = match parse_pubkeys(owners, "owner") {
        Ok(keys) => keys,
        Err(e) => {
            return Err(e);
        },
    };
    let mint: Pubkey = match parse_pubkey(mint, "mint") {
        Ok(key) => key,
        Err(e) => {
            return Err(e);
        },
    };
    let token_program: Option<Pubkey> = match parse_optional_pubkey(token_program, "tokenProgram") {
        Ok(key) => key,
        Err(e) => {
            return Err(e);
        },
    };
    match f64_to_u64(amount, "amount") {
        Ok(amount) => Ok(Cheatcode::FundTokenMany { owners, mint, amount, token_program }),
        Err(e) => Err(e),
    }
}

/// What a change says about an authority: a new one, that it be cleared, or nothing. It cannot say
/// both of the first two.
pub open spec fn authority_arg(
    set: Option<Seq<char>>,
    clear: Option<bool>,
    field: Seq<char>,
    conflict: Seq<char>,
) -> Result<AuthorityView, ErrorView> {
    match (set, clear == Some(true)) {
        (Some(text), false) => match address(text, field) {
            Ok(key) => Ok(AuthorityView::Replace(key)),
            Err(e) => Err(e),
        },
        (None, true) => Ok(AuthorityView::Clear),
        (Some(_), true) => Err(invalid(conflict)),
        (None, false) => Ok(AuthorityView::Keep),
    }
}

/// An authority, or the complaint about it.
pub open spec fn checked_authority(r: Result<Authority, Error>) -> Result<
    AuthorityView,
    ErrorView,
> {
    match r {
        Ok(authority) => Ok(authority@),
        Err(e) => Err(e@),
    }
}

/// Reads what a change says about an authority.
pub fn parse_authority(
    set: &Option<String>,
    clear: Option<bool>,
    field_name: &str,
    conflict: &str,
) -> (r: Result<Authority, Error>)
    ensures
        checked_authority(r) == authority_arg(lent_text(set), clear, field_name@, conflict@),
{
    let clear: bool = match clear {
        Some(clear) => clear,
        None => false,
    };
    match set {
        Some(text) => {
            if clear {
                Err(Error { status: Status::InvalidArg, reason: conflict.to_owned() })
            } else {
                match parse_pubkey(text.as_str(), field_name) {
                    Ok(key) => Ok(Authority::Replace(key)),
                    Err(e) => Err(e),
                }
            }
        },
        None => if clear {
            Ok(Authority::Clear)
        } else {
            Ok(Authority::Keep)
        },
    }
}

/// What a change says about the delegate.
pub open spec fn delegate_arg(update: SetTokenAccountUpdate) -> Result<AuthorityView, ErrorView> {
    authority_arg(
        option_text(update.delegate),
        update.clear_delegate,
        "delegate"@,
        "delegate and clearDelegate are mutually exclusive"@,
    )
}

/// What a change says about the authority to close the account.
pub open spec fn close_authority_arg(update: SetTokenAccountUpdate) -> Result<
    AuthorityView,
    ErrorView,
> {
    authority_arg(
        option_text(update.close_authority),
        update.clear_close_authority,
        "closeAuthority"@,
        "closeAuthority and clearCloseAuthority are mutually exclusive"@,
    )
}

/// The value of an optional number that is acceptable.
pub open spec fn optional_value(value: Option<Number>) -> Option<u64> {
    match value {
        Some(number) => number.unsigned(),
        None => None,
    }
}

/// The request to change a token account. The owner, the mint, the amount, the delegated amount,
/// the delegate, the authority to close the account and the token program are looked at in this
/// order.
pub open spec fn set_token_account_request(
    owner: Seq<char>,
    mint: Seq<char>,
    update: SetTokenAccountUpdate,
    token_program: Option<Seq<char>>,
) -> Result<CheatcodeView, ErrorView> {
    unless(
        earlier(
            complaint(address(owner, "owner"@)),
            earlier(
                complaint(address(mint, "mint"@)),
                earlier(
                    number_complaint(update.amount, "amount"@),
                    earlier(
                        number_complaint(update.delegated_amount, "delegatedAmount"@),
                        earlier(
                            complaint(delegate_arg(update)),
                            earlier(
                                complaint(close_authority_arg(update)),
                                complaint(optional_pubkey_arg(token_program, "tokenProgram"@)),
                            ),
                        ),
                    ),
                ),
            ),
        ),
        CheatcodeView::SetTokenAccount {
            owner: address(owner, "owner"@)->Ok_0,
            mint: address(mint, "mint"@)->Ok_0,
            amount: optional_value(update.amount),
            state: option_text(update.state),
            delegated_amount: optional_value(update.delegated_amount),
            delegate: delegate_arg(update)->Ok_0,
            close_authority: close_authority_arg(update)->Ok_0,
            token_program: optional_pubkey_arg(token_program, "tokenProgram"@)->Ok_0,
        },
    )
}

/// Reads an optional number.
fn optional_number(value: Option<Number>, field_name: &str) -> (r: Result<Option<u64>, Error>)
    ensures
        match r {
            Ok(n) => number_complaint(value, field_name@) is None && n == optional_value(value),
            Err(e) => number_complaint(value, field_name@) == Some(e@),
        },
{
    match value {
        None => Ok(None),
        Some(number) => match f64_to_u64(number, field_name) {
            Ok(n) => Ok(Some(n)),
            Err(e) => Err(e),
        },
    }
}

/// Reads a request to change a token account.
pub fn set_token_account(
    owner: &str,
    mint: &str,
    update: SetTokenAccountUpdate,
    token_program: &Option<String>,
) -> (r: Result<Cheatcode, Error>)
    ensures
        requested(r) == set_token_account_request(owner@, mint@, update, lent_text(token_program)),
{
    let owner: Pubkey = match parse_pubkey(owner, "owner") {
        Ok(key) => key,
        Err(e) => {
            return Err(e);
        },
    };
    let mint: Pubkey = match parse_pubkey(mint, "mint") {
        Ok(key) => key,
        Err(e) => {
            return Err(e);
        },
    };
    let amount: Option<u64> = match optional_number(update.amount, "amount") {
        Ok(n) => n,
        Err(e) => {
            return Err(e);
        },
    };
    let delegated_amount: Option<u64> = match optional_number(
        update.delegated_amount,
        "delegatedAmount",
    ) {
        Ok(n) => n,
        Err(e) => {
            return Err(e);
        },
    };
    let delegate: Authority = match parse_authority(
        &update.delegate,
        update.clear_delegate,
        "delegate",
        "delegate and clearDelegate are mutually exclusive",
    ) {
        Ok(authority) => authority,
        Err(e) => {
            return Err(e);
        },
    };
    let close_authority: Authority = match parse_authority(
        &update.close_authority,
        update.clear_close_authority,
        "closeAuthority",
        "closeAuthority and clearCloseAuthority are mutually exclusive",
    ) {
        Ok(authority) => authority,
        Err(e) => {
            return Err(e);
        },
    };
    match parse_optional_pubkey(token_program, "tokenProgram") {
        Err(e) => Err(e),
        Ok(token_program) => Ok(
            Cheatcode::SetTokenAccount {
                owner,
                mint,
                amount,
                state: update.state,
                delegated_amount,
                delegate,
                close_authority,
                token_program,
            },
        ),
    }
}

/// The request to set an account's data. The address, the owner and the lamports are looked at in
/// this order.
pub open spec fn set_account_request(
    at: Seq<char>,
    lamports: Number,
    data: Seq<u8>,
    owner: Seq<char>,
) -> Result<CheatcodeView, ErrorView> {
    unless(
        earlier(
            complaint(address(at, "address"@)),
            earlier(
                complaint(address(owner, "owner"@)),
                complaint(number_arg(lamports, "lamports"@)),
            ),
        ),
        CheatcodeView::SetAccount {
            address: address(at, "address"@)->Ok_0,
            lamports: number_arg(lamports, "lamports"@)->Ok_0,
            data,
            owner: address(owner, "owner"@)->Ok_0,
        },
    )
}

/// Reads a request to set an account's data.
pub fn set_account(at: &str, lamports: Number, data: Vec<u8>, owner: &str) -> (r: Result<
    Cheatcode,
    Error,
>)
    ensures
        requested(r) == set_account_request(at@, lamports, data@, owner@),
{
    let address: Pubkey = match parse_pubkey(at, "address") {
        Ok(key) => key,
        Err(e) => {
            return Err(e);
        },
    };
    let owner: Pubkey = match parse_pubkey(owner, "owner") {
        Ok(key) => key,
        Err(e) => {
            return Err(e);
        },
    };
    match f64_to_u64(lamports, "lamports") {
        Ok(lamports) => Ok(Cheatcode::SetAccount { address, lamports, data, owner }),
        Err(e) => Err(e),
    }
}

/// What reset options say about owned accounts.
pub open spec fn reset_owned(options: Option<ResetAccountOptions>) -> Option<bool> {
    match options {
        Some(options) => options.include_owned_accounts,
        None => None,
    }
}

/// The request to reset an account.
pub open spec fn reset_account_request(
    at: Seq<char>,
    options: Option<ResetAccountOptions>,
) -> Result<CheatcodeView, ErrorView> {
    unless(
        complaint(address(at, "address"@)),
        CheatcodeView::ResetAccount {
            address: address(at, "address"@)->Ok_0,
            include_owned_accounts: reset_owned(options),
        },
    )
}

/// Reads a request to reset an account.
pub fn reset_account(at: &str, options: Option<ResetAccountOptions>) -> (r: Result<
    Cheatcode,
    Error,
>)
    ensures
        requested(r) == reset_account_request(at@, options),
{
    match parse_pubkey(at, "address") {
        Err(e) => Err(e),
        Ok(address) => Ok(
            Cheatcode::ResetAccount {
                address,
                include_owned_accounts: match options {
                    Some(options) => options.include_owned_accounts,
                    None => None,
                },
            },
        ),
    }
}

/// What stream options say about owned accounts.
pub open spec fn stream_owned(options: Option<StreamAccountOptions>) -> Option<bool> {
    match options {
        Some(options) => options.include_owned_accounts,
        None => None,
    }
}

/// The request to stream an account.
pub open spec fn stream_account_request(
    at: Seq<char>,
    options: Option<StreamAccountOptions>,
) -> Result<CheatcodeView, ErrorView> {
    unless(
        complaint(address(at, "address"@)),
        CheatcodeView::StreamAccount {
            address: address(at, "address"@)->Ok_0,
            include_owned_accounts: stream_owned(options),
        },
    )
}

/// Reads a request to stream an account.
pub fn stream_account(at: &str, options: Option<StreamAccountOptions>) -> (r: Result<
    Cheatcode,
    Error,
>)
    ensures
        requested(r) == stream_account_request(at@, options),
{
    match parse_pubkey(at, "address") {
        Err(e) => Err(e),
        Ok(address) => Ok(
            Cheatcode::StreamAccount {
                address,
                include_owned_accounts: match options {
                    Some(options) => options.include_owned_accounts,
                    None => None,
                },
            },
        ),
    }
}

/// The request to move time forward to an epoch.
pub open spec fn time_travel_to_epoch_request(epoch: Number) -> Result<CheatcodeView, ErrorView> {
    unless(
        complaint(number_arg(epoch, "epoch"@)),
        CheatcodeView::TimeTravelToEpoch(number_arg(epoch, "epoch"@)->Ok_0),
    )
}

/// Reads a request to move time forward to an epoch.
pub fn time_travel_to_epoch(epoch: Number) -> (r: Result<Cheatcode, Error>)
    ensures
        requested(r) == time_travel_to_epoch_request(epoch),
{
    match f64_to_u64(epoch, "epoch") {
        Ok(epoch) => Ok(Cheatcode::TimeTravelToEpoch(epoch)),
        Err(e) => Err(e),
    }
}

/// The request to move time forward to a slot.
pub open spec fn time_travel_to_slot_request(slot: Number) -> Result<CheatcodeView, ErrorView> {
    unless(
        complaint(number_arg(slot, "slot"@)),
        CheatcodeView::TimeTravelToSlot(number_arg(slot, "slot"@)->Ok_0),
    )
}

/// Reads a request to move time forward to a slot.
pub fn time_travel_to_slot(slot: Number) -> (r: Result<Cheatcode, Error>)
    ensures
        requested(r) == time_travel_to_slot_request(slot),
{
    match f64_to_u64(slot, "slot") {
        Ok(slot) => Ok(Cheatcode::TimeTravelToSlot(slot)),
        Err(e) => Err(e),
    }
}

/// The request to move time forward to a point in time.
pub open spec fn time_travel_to_timestamp_request(timestamp: Number) -> Result<
    CheatcodeView,
    ErrorView,
> {
    unless(
        complaint(number_arg(timestamp, "timestamp"@)),
        CheatcodeView::TimeTravelToTimestamp(number_arg(timestamp, "timestamp"@)->Ok_0),
    )
}

/// Reads a request to move time forward to a point in time.
pub fn time_travel_to_timestamp(timestamp: Number) -> (r: Result<Cheatcode, Error>)
    ensures
        requested(r) == time_travel_to_timestamp_request(timestamp),
{
    match f64_to_u64(timestamp, "timestamp") {
        Ok(timestamp) => Ok(Cheatcode::TimeTravelToTimestamp(timestamp)),
        Err(e) => Err(e),
    }
}

/// The request to deploy a program. The program's address is looked at before its source; one of
/// the two sources has to be given, and both may be.
pub open spec fn deploy_request(options: DeployOptions) -> Result<CheatcodeView, ErrorView> {
    unless(
        earlier(
            complaint(address(options.program_id@, "programId"@)),
            if options.so_path is None && options.so_bytes is None {
                Some(invalid("deploy requires either soPath or soBytes"@))
            } else {
                None
            },
        ),
        CheatcodeView::Deploy {
            program_id: address(options.program_id@, "programId"@)->Ok_0,
            so_path: option_text(options.so_path),
            so_bytes: option_data(options.so_bytes),
            idl_path: option_text(options.idl_path),
        },
    )
}

/// Reads a request to deploy a program.
pub fn deploy(options: DeployOptions) -> (r: Result<Cheatcode, Error>)
    ensures
        requested(r) == deploy_request(options),
{
    let program_id: Pubkey = match parse_pubkey(options.program_id.as_str(), "programId") {
        Ok(key) => key,
        Err(e) => {
            return Err(e);
        },
    };
    if options.so_path.is_none() && options.so_bytes.is_none() {
        return Err(
            Error {
                status: Status::InvalidArg,
                reason: "deploy requires either soPath or soBytes".to_owned(),
            },
        );
    }
    Ok(
        Cheatcode::Deploy {
            program_id,
            so_path: options.so_path,
            so_bytes: options.so_bytes,
            idl_path: options.idl_path,
        },
    )
}

/// The request for an associated token address. The owner, the mint and the token program are
/// looked at in this order.
pub open spec fn get_ata_request(
    owner: Seq<char>,
    mint: Seq<char>,
    token_program: Option<Seq<char>>,
) -> Result<CheatcodeView, ErrorView> {
    unless(
        earlier(
            complaint(address(owner, "owner"@)),
            earlier(
                complaint(address(mint, "mint"@)),
                complaint(optional_pubkey_arg(token_program, "tokenProgram"@)),
            ),
        ),
        CheatcodeView::GetAta {
            owner: address(owner, "owner"@)->Ok_0,
            mint: address(mint, "mint"@)->Ok_0,
            token_program: optional_pubkey_arg(token_program, "tokenProgram"@)->Ok_0,
        },
    )
}

/// Reads a request for an associated token address.
pub fn get_ata(owner: &str, mint: &str, token_program: &Option<String>) -> (r: Result<
    Cheatcode,
    Error,
>)
    ensures
        requested(r) == get_ata_request(owner@, mint@, lent_text(token_program)),
{
    let owner: Pubkey = match parse_pubkey(owner, "owner") {
        Ok(key) => key,
        Err(e) => {
            return Err(e);
        },
    };
    let mint: Pubkey = match parse_pubkey(mint, "mint") {
        Ok(key) => key,
        Err(e) => {
            return Err(e);
        },
    };
    match parse_optional_pubkey(token_program, "tokenProgram") {
        Err(e) => Err(e),
        Ok(token_program) => Ok(Cheatcode::GetAta { owner, mint, token_program }),
    }
}

} // verus!
