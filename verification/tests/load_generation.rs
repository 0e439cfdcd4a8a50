use nft_ingester::load_generation::{
    account_size_fits,
    candy_account_size, check_balance, BalanceAction, CONFIG_ARRAY_START, CONFIG_LINE_SIZE, LAMPORTS_PER_SOL,
};

#[test]
fn layout_constants() {
    assert_eq!(CONFIG_ARRAY_START, 713);
    assert_eq!(CONFIG_LINE_SIZE, 240);
    assert_eq!(LAMPORTS_PER_SOL, 1_000_000_000);
}

#[test]
fn one_sol_is_enough() {
    assert_eq!(check_balance(1_000_000_000, false), BalanceAction::Sufficient);
    assert_eq!(check_balance(1_000_000_000, true), BalanceAction::Sufficient);
    assert_eq!(check_balance(u64::MAX, false), BalanceAction::Sufficient);
}

#[test]
fn below_one_sol_asks_for_an_airdrop() {
    assert_eq!(check_balance(999_999_999, true), BalanceAction::RequestAirdrop(100_000_000_000));
    assert_eq!(check_balance(0, true), BalanceAction::RequestAirdrop(100_000_000_000));
}

#[test]
fn below_one_sol_without_airdrop_is_not_enough() {
    assert_eq!(check_balance(999_999_999, false), BalanceAction::NotEnoughSol);
    assert_eq!(check_balance(0, false), BalanceAction::NotEnoughSol);
}

#[test]
fn hidden_items_take_the_fixed_size() {
    assert_eq!(candy_account_size(true, 0), 713);
    assert_eq!(candy_account_size(true, 10_000), 713);
}

#[test]
fn visible_items_take_lines_and_a_bitmask() {
    assert_eq!(candy_account_size(false, 0), 713 + 4 + 8 + 2);
    assert_eq!(candy_account_size(false, 7), 713 + 4 + 7 * 240 + 8 + 2);
    assert_eq!(candy_account_size(false, 8), 713 + 4 + 8 * 240 + 8 + 4);
    assert_eq!(candy_account_size(false, 10), 3129);
}

#[test]
fn account_size_grows_with_items() {
    let mut previous = candy_account_size(false, 0);
    for items in 1..100u64 {
        let size = candy_account_size(false, items);
        assert!(size > previous);
        assert!(size > candy_account_size(true, items));
        previous = size;
    }
}

#[test]
fn account_sizes_fit_unless_the_item_count_is_huge() {

    assert!(account_size_fits(true, u64::MAX));
    assert!(account_size_fits(false, 0));
    assert!(account_size_fits(false, 1_000_000));
    assert_eq!(account_size_fits(false, u64::MAX), false);
}
