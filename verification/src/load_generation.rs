//! Decisions of the candy-machine load generator: funding the payer and sizing accounts.
use vstd::prelude::*;

verus! {

/// Lamports in one SOL.
pub const LAMPORTS_PER_SOL: u64 = 1_000_000_000;

/// Bytes of a candy machine account before its config lines.
pub const CONFIG_ARRAY_START: usize = 8 // key
    + 32 // authority
    + 32 // wallet
    + 33 // token mint
    + 4 + 6 // uuid
    + 8 // price
    + 8 // items available
    + 9 // go live
    + 10 // end settings
    + 4 + 10 // symbol
    + 2 // seller fee basis points
    + 4 + 5 * 34 // creators
    + 8 // max supply
    + 1 // is mutable
    + 1 // retain authority
    + 1 // hidden settings option
    + 4 + 32 // name
    + 4 + 200 // uri
    + 32 // hash
    + 4 // number of lines
    + 8 // items redeemed
    + 1 // whitelist option
    + 1 // whitelist mint mode
    + 1 // presale
    + 9 // discount price
    + 32 // whitelist mint
    + 1 + 32 + 1; // gatekeeper

/// Bytes of one config line: a name and a URI, each with its length.
pub const CONFIG_LINE_SIZE: usize = 4 + 32 + 4 + 200;

/// What to do about the payer's balance.
#[derive(Clone, Copy, Debug, PartialEq, Eq, Structural)]
pub enum BalanceAction {
    /// The payer holds at least one SOL.
    Sufficient,
    /// Ask for an airdrop of this many lamports.
    RequestAirdrop(u64),
    /// The payer holds less than one SOL and no airdrop may be asked for: "Not Enough Sol".
    NotEnoughSol,
}

/// The decision on a payer holding `balance` lamports: at least one SOL is enough; below
/// that, an airdrop of 100 SOL is asked for where airdrops are allowed, and the run fails
/// otherwise.
pub open spec fn balance_action(balance: u64, airdrop: bool) -> BalanceAction {
    if balance >= LAMPORTS_PER_SOL {
        BalanceAction::Sufficient
    } else if airdrop {
        BalanceAction::RequestAirdrop((100 * LAMPORTS_PER_SOL) as u64)
    } else {
        BalanceAction::NotEnoughSol
    }
}

/// Decides what a payer with `balance` lamports needs before the next round.
pub fn check_balance(balance: u64, airdrop: bool) -> (r: BalanceAction)
    ensures
        r == balance_action(balance, airdrop),
{
    if balance / LAMPORTS_PER_SOL < 1 {
        if airdrop {
            BalanceAction::RequestAirdrop(LAMPORTS_PER_SOL * 100)
        } else {
            BalanceAction::NotEnoughSol
        }
    } else {
        BalanceAction::Sufficient
    }
}

/// The size of a candy machine account: the fixed part alone when the items are hidden;
/// otherwise also the line count, one config line per item, an 8-byte bitmask length, and
/// two bytes for every started group of eight items.
pub open spec fn account_size(hidden_settings: bool, items_available: u64) -> int {
    if hidden_settings {
        CONFIG_ARRAY_START as int
    } else {
        CONFIG_ARRAY_START + 4 + items_available * CONFIG_LINE_SIZE + 8 + 2 * (items_available / 8 + 1)
    }
}

/// Whether the account size of a candy machine fits in a `usize`.
pub fn account_size_fits(hidden_settings: bool, items_available: u64) -> (r: bool)
    ensures
        r == (account_size(hidden_settings, items_available) <= usize::MAX),
{
    if hidden_settings {
        return true;
    }
    let items = items_available as u128;
    let start = CONFIG_ARRAY_START as u128;
    let line = CONFIG_LINE_SIZE as u128;
    assert(items * 240 <= 0xffff_ffff_ffff_ffff * 240) by (nonlinear_arith)
        requires
            items <= 0xffff_ffff_ffff_ffff,
    ;
    let size: u128 = start + 4 + items * line + 8 + 2 * (items / 8 + 1);
    size <= usize::MAX as u128
}

/// The size of the account for a candy machine; the size must fit in a `usize`.
pub fn candy_account_size(hidden_settings: bool, items_available: u64) -> (r: usize)
    requires
        account_size(hidden_settings, items_available) <= usize::MAX,
    ensures
        r == account_size(hidden_settings, items_available),
{
    if hidden_settings {
        CONFIG_ARRAY_START
    } else {
        assert(items_available * 240 >= items_available) by (nonlinear_arith);
        assert(CONFIG_LINE_SIZE == 240);
        let items = items_available as usize;
        assert(items == items_available);
        CONFIG_ARRAY_START + 4 + items * CONFIG_LINE_SIZE + 8 + 2 * (items / 8 + 1)
    }
}


/// A payer with at least one SOL needs nothing, whether or not airdrops are allowed; below
/// one SOL the airdrop asked for is 100 SOL.
pub proof fn lemma_balance_action(balance: u64, airdrop: bool)
    ensures
        LAMPORTS_PER_SOL == 1_000_000_000,
        balance_action(balance, airdrop) == BalanceAction::Sufficient <==> balance >= LAMPORTS_PER_SOL,
        balance < LAMPORTS_PER_SOL && airdrop ==> balance_action(balance, airdrop) is RequestAirdrop,
        balance < LAMPORTS_PER_SOL && !airdrop ==> balance_action(balance, airdrop) == BalanceAction::NotEnoughSol,
        balance_action(balance, airdrop) is RequestAirdrop ==> balance_action(balance, airdrop)->0
            == 100_000_000_000u64,
        balance >= LAMPORTS_PER_SOL ==> balance_action(balance, true) == balance_action(balance, false),
{
}

/// With hidden items the account has the fixed size whatever the item count; otherwise it
/// grows strictly with the item count and is always larger than the fixed part.
pub proof fn lemma_account_size(items: u64, more_items: u64)
    requires
        items <= more_items,
    ensures
        CONFIG_ARRAY_START == 713,
        CONFIG_LINE_SIZE == 240,
        account_size(true, items) == account_size(true, more_items),
        account_size(true, items) == CONFIG_ARRAY_START,
        account_size(false, items) <= account_size(false, more_items),
        items < more_items ==> account_size(false, items) < account_size(false, more_items),
        account_size(false, items) > account_size(true, items),
{
    assert(items * 240 <= more_items * 240) by (nonlinear_arith)
        requires
            items <= more_items,
    ;
    assert(items / 8 <= more_items / 8) by (nonlinear_arith)
        requires
            items <= more_items,
    ;
    assert(items * 240 >= 0) by (nonlinear_arith);
    assert(items < more_items ==> items * 240 + 240 <= more_items * 240) by (nonlinear_arith);
}


/// Without hidden items, an account for no items is 727 bytes, and each further item adds
/// one 240-byte config line, plus two bytes of bitmask whenever the item count reaches a
/// multiple of eight.
pub proof fn lemma_account_size_steps(items: u64)
    requires
        items < u64::MAX,
    ensures
        account_size(false, 0) == 727,
        account_size(false, (items + 1) as u64) == account_size(false, items) + 240 + if (items + 1) % 8 == 0 {
            2int
        } else {
            0int
        },
{
    assert((items + 1) * 240 == items * 240 + 240) by (nonlinear_arith);
    assert((items + 1) % 8 == 0 ==> (items + 1) / 8 == items / 8 + 1) by (nonlinear_arith);
    assert((items + 1) % 8 != 0 ==> (items + 1) / 8 == items / 8) by (nonlinear_arith);
}

} // verus!
