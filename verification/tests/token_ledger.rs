use neurowealth_vault::TestToken;

fn acct(name: &str) -> String {
    name.to_string()
}

#[test]
fn test_mock_token_transfer_from_uses_and_decrements_allowance() {
    // A fresh test environment starts at ledger sequence 0.
    let ledger_sequence: u32 = 0;
    let mut token = TestToken::new();

    let owner = acct("GOWNER");
    let spender = acct("GSPENDER");
    let recipient = acct("GRECIPIENT");

    token.mint(owner.clone(), 10_000_000_i128);
    token.approve(owner.clone(), spender.clone(), 6_000_000_i128, 10_000_u32);

    assert_eq!(token.allowance(&owner, &spender, ledger_sequence), 6_000_000_i128);

    token.transfer_from(
        spender.clone(),
        owner.clone(),
        recipient.clone(),
        4_000_000_i128,
        ledger_sequence,
    );

    assert_eq!(token.balance(owner.clone()), 6_000_000_i128);
    assert_eq!(token.balance(recipient.clone()), 4_000_000_i128);
    assert_eq!(token.allowance(&owner, &spender, ledger_sequence), 2_000_000_i128);
}

#[test]
fn new_token_holds_nothing() {
    let token = TestToken::new();
    assert_eq!(token.balance(acct("GANY")), 0);
    assert_eq!(token.allowance(&acct("GA"), &acct("GB"), 0), 0);
    assert_eq!(token.stored_allowance(&acct("GA"), &acct("GB")), None);
}

#[test]
fn mint_credits_only_the_receiver() {
    let mut token = TestToken::new();
    token.mint(acct("GALICE"), 5_000_000);
    assert_eq!(token.balance(acct("GALICE")), 5_000_000);
    assert_eq!(token.balance(acct("GBOB")), 0);
    token.mint(acct("GALICE"), 1);
    assert_eq!(token.balance(acct("GALICE")), 5_000_001);
}

#[test]
fn mint_accepts_a_negative_amount() {
    let mut token = TestToken::new();
    token.mint(acct("GALICE"), 10);
    token.mint(acct("GALICE"), -25);
    assert_eq!(token.balance(acct("GALICE")), -15);
}

#[test]
fn two_mints_equal_one_mint_of_the_sum() {
    let mut split = TestToken::new();
    split.mint(acct("GALICE"), 7);
    split.mint(acct("GALICE"), 35);
    let mut whole = TestToken::new();
    whole.mint(acct("GALICE"), 42);
    assert_eq!(split.balance(acct("GALICE")), whole.balance(acct("GALICE")));
}

#[test]
fn mint_up_to_the_largest_balance() {
    let mut token = TestToken::new();
    token.mint(acct("GALICE"), i128::MAX - 1);
    token.mint(acct("GALICE"), 1);
    assert_eq!(token.balance(acct("GALICE")), i128::MAX);
}

#[test]
fn transfer_moves_the_amount() {
    let mut token = TestToken::new();
    token.mint(acct("GALICE"), 100);
    token.mint(acct("GCAROL"), 9);
    token.transfer(acct("GALICE"), acct("GBOB"), 30);
    assert_eq!(token.balance(acct("GALICE")), 70);
    assert_eq!(token.balance(acct("GBOB")), 30);
    assert_eq!(token.balance(acct("GCAROL")), 9);
}

#[test]
fn transfer_of_the_whole_balance() {
    let mut token = TestToken::new();
    token.mint(acct("GALICE"), 100);
    token.transfer(acct("GALICE"), acct("GBOB"), 100);
    assert_eq!(token.balance(acct("GALICE")), 0);
    assert_eq!(token.balance(acct("GBOB")), 100);
}

#[test]
fn transfer_keeps_total_supply() {
    let mut token = TestToken::new();
    token.mint(acct("GALICE"), 100);
    token.mint(acct("GBOB"), 50);
    token.transfer(acct("GALICE"), acct("GBOB"), 60);
    token.transfer(acct("GBOB"), acct("GCAROL"), 110);
    let total = token.balance(acct("GALICE"))
        + token.balance(acct("GBOB"))
        + token.balance(acct("GCAROL"));
    assert_eq!(total, 150);
    assert_eq!(token.balance(acct("GCAROL")), 110);
}

#[test]
fn transfer_to_oneself_credits_the_amount() {
    let mut token = TestToken::new();
    token.mint(acct("GALICE"), 100);
    token.transfer(acct("GALICE"), acct("GALICE"), 40);
    assert_eq!(token.balance(acct("GALICE")), 140);
}

#[test]
fn transfer_there_and_back_restores_balances() {
    let mut token = TestToken::new();
    token.mint(acct("GALICE"), 80);
    token.mint(acct("GBOB"), 5);
    token.transfer(acct("GALICE"), acct("GBOB"), 25);
    token.transfer(acct("GBOB"), acct("GALICE"), 25);
    assert_eq!(token.balance(acct("GALICE")), 80);
    assert_eq!(token.balance(acct("GBOB")), 5);
}

#[test]
fn approve_replaces_the_earlier_allowance() {
    let mut token = TestToken::new();
    token.approve(acct("GALICE"), acct("GSPENDER"), 500, 0);
    token.approve(acct("GALICE"), acct("GSPENDER"), 200, 0);
    assert_eq!(token.allowance(&acct("GALICE"), &acct("GSPENDER"), 1_000_000), 200);
    assert_eq!(token.stored_allowance(&acct("GALICE"), &acct("GSPENDER")), Some(200));
    assert_eq!(token.allowance(&acct("GSPENDER"), &acct("GALICE"), 0), 0);
    assert_eq!(token.balance(acct("GALICE")), 0);
}

#[test]
fn allowance_expires_after_its_ledger() {
    let mut token = TestToken::new();
    token.approve(acct("GALICE"), acct("GSPENDER"), 500, 100);
    assert_eq!(token.allowance(&acct("GALICE"), &acct("GSPENDER"), 99), 500);
    assert_eq!(token.allowance(&acct("GALICE"), &acct("GSPENDER"), 100), 500);
    assert_eq!(token.allowance(&acct("GALICE"), &acct("GSPENDER"), 101), 0);
    assert_eq!(token.stored_allowance(&acct("GALICE"), &acct("GSPENDER")), Some(500));
}

#[test]
fn allowance_with_zero_expiration_never_expires() {
    let mut token = TestToken::new();
    token.approve(acct("GALICE"), acct("GSPENDER"), 7, 0);
    assert_eq!(token.allowance(&acct("GALICE"), &acct("GSPENDER"), u32::MAX), 7);
}

#[test]
fn transfer_from_keeps_other_allowances() {
    let mut token = TestToken::new();
    token.mint(acct("GALICE"), 1_000);
    token.approve(acct("GALICE"), acct("GS1"), 300, 0);
    token.approve(acct("GALICE"), acct("GS2"), 400, 0);
    token.transfer_from(acct("GS1"), acct("GALICE"), acct("GBOB"), 300, 5);
    assert_eq!(token.allowance(&acct("GALICE"), &acct("GS1"), 5), 0);
    assert_eq!(token.allowance(&acct("GALICE"), &acct("GS2"), 5), 400);
    assert_eq!(token.balance(acct("GALICE")), 700);
    assert_eq!(token.balance(acct("GBOB")), 300);
}

#[test]
fn transfer_from_at_the_expiration_ledger() {
    let mut token = TestToken::new();
    token.mint(acct("GALICE"), 50);
    token.approve(acct("GALICE"), acct("GSPENDER"), 50, 20);
    token.transfer_from(acct("GSPENDER"), acct("GALICE"), acct("GBOB"), 20, 20);
    assert_eq!(token.allowance(&acct("GALICE"), &acct("GSPENDER"), 20), 30);
    assert_eq!(token.allowance(&acct("GALICE"), &acct("GSPENDER"), 21), 0);
    assert_eq!(token.balance(acct("GBOB")), 20);
}

#[test]
fn loaded_entries_are_read_back() {
    let mut token = TestToken::new();
    token.load_balance(acct("GALICE"), 12);
    token.load_allowance(acct("GALICE"), acct("GSPENDER"), 9);
    token.load_expiration(acct("GALICE"), acct("GSPENDER"), 3);
    assert_eq!(token.balance(acct("GALICE")), 12);
    assert_eq!(token.allowance(&acct("GALICE"), &acct("GSPENDER"), 3), 9);
    assert_eq!(token.allowance(&acct("GALICE"), &acct("GSPENDER"), 4), 0);
    assert_eq!(token.stored_allowance(&acct("GALICE"), &acct("GSPENDER")), Some(9));
}
