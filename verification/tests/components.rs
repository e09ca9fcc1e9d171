use launchpad::entropy::{get_pseudo_random, number_from_digest, push_be_bytes};
use launchpad::pool::TokenPool;
use launchpad::refund::{compute_refund_due, compute_refund_share, find_open_window};
use launchpad::token_uri::{append_decimal, token_exists, token_uri};
use launchpad::{AccountId, Allowlist, Config, Data, MintingStatus, RefundWindow, Shiden34Error};

fn account(tag: u8) -> AccountId {
    AccountId::new([tag; 32])
}

#[test]
fn pseudo_random_follows_the_digest() {
    // keccak-256 of sixteen zero bytes starts with 244, 144
    let mut salt: u64 = 0;
    assert_eq!(get_pseudo_random(&mut salt, 0, 9), 6);
    assert_eq!(salt, 1);
    // timestamp 5, salt 0: the digest starts with 242, 228
    let mut salt: u64 = 0;
    assert_eq!(get_pseudo_random(&mut salt, 5, 9), 6);
    let mut salt: u64 = 0;
    assert_eq!(get_pseudo_random(&mut salt, 5, u64::MAX), 55176);
    let mut salt: u64 = 0;
    assert_eq!(get_pseudo_random(&mut salt, 5, 0), 0);
    // timestamp 5, salt 1: the digest starts with 180, 48
    let mut salt: u64 = 1;
    assert_eq!(get_pseudo_random(&mut salt, 5, 8), 0);
    assert_eq!(salt, 2);
    let mut salt: u64 = 1;
    assert_eq!(get_pseudo_random(&mut salt, 5, 9999), 8640);
    // timestamp 1000, salt 3: the digest starts with 3, 206
    let mut salt: u64 = 3;
    assert_eq!(get_pseudo_random(&mut salt, 1000, 99), 18);
    assert_eq!(salt, 4);
}

#[test]
fn pseudo_random_stays_in_range() {
    let mut salt: u64 = 0;
    for round in 0..200u64 {
        let max_value = round % 7;
        let number = get_pseudo_random(&mut salt, round * 13, max_value);
        assert!(number <= max_value);
        assert_eq!(salt, round + 1);
    }
}

#[test]
fn number_is_the_product_of_two_bytes_reduced() {
    let mut digest = [0u8; 32];
    digest[0] = 7;
    digest[1] = 9;
    digest[2] = 200;
    assert_eq!(number_from_digest(&digest, 9), 3);
    assert_eq!(number_from_digest(&digest, 62), 0);
    assert_eq!(number_from_digest(&digest, 63), 63);
    assert_eq!(number_from_digest(&digest, 0), 0);
    assert_eq!(number_from_digest(&digest, u64::MAX), 63);
    digest[0] = 255;
    digest[1] = 255;
    assert_eq!(number_from_digest(&digest, u64::MAX), 65025);
    assert_eq!(number_from_digest(&digest, 65024), 0);
    assert_eq!(number_from_digest(&digest, 999), 25);
    digest[1] = 0;
    assert_eq!(number_from_digest(&digest, 999), 0);
}

#[test]
fn bytes_come_most_significant_first() {
    let mut out: Vec<u8> = vec![9];
    push_be_bytes(&mut out, 0x0102030405060708);
    assert_eq!(out, vec![9, 1, 2, 3, 4, 5, 6, 7, 8]);
    let mut out: Vec<u8> = Vec::new();
    push_be_bytes(&mut out, 0);
    push_be_bytes(&mut out, u64::MAX);
    push_be_bytes(&mut out, 258);
    assert_eq!(
        out,
        vec![
            0, 0, 0, 0, 0, 0, 0, 0, 255, 255, 255, 255, 255, 255, 255, 255, 0, 0, 0, 0, 0, 0, 1,
            2
        ]
    );
}

#[test]
fn pool_hands_out_every_token_once() {
    let mut pool = TokenPool::new(10);
    assert_eq!(pool.max_supply(), 10);
    assert_eq!(pool.tokens_left(), 10);
    assert_eq!(pool.minted_count(), 0);
    assert!(pool.contains(1) && pool.contains(10));
    assert!(!pool.contains(0) && !pool.contains(11));
    let mut drawn: Vec<u64> = Vec::new();
    for round in 0..10u64 {
        let token_id = pool.get_mint_id(5);
        assert!(!pool.contains(token_id));
        assert!(!drawn.contains(&token_id));
        drawn.push(token_id);
        assert_eq!(pool.tokens_left(), 9 - round);
        assert_eq!(pool.minted_count(), round + 1);
    }
    drawn.sort();
    assert_eq!(drawn, vec![1, 2, 3, 4, 5, 6, 7, 8, 9, 10]);
}

#[test]
fn pool_of_nothing_is_empty() {
    let pool = TokenPool::new(0);
    assert_eq!(pool.tokens_left(), 0);
    assert_eq!(pool.minted_count(), 0);
    assert!(!pool.contains(1));
    let mut single = TokenPool::new(1);
    assert_eq!(single.get_mint_id(123), 1);
    assert_eq!(single.tokens_left(), 0);
}

#[test]
fn allowlist_keeps_one_entry_per_account() {
    let mut list = Allowlist::new();
    assert_eq!(list.get(account(1)), None);
    assert_eq!(list.allowance(account(1)), 0);
    list.insert(account(1), 4);
    list.insert(account(2), 0);
    assert_eq!(list.get(account(1)), Some(4));
    assert_eq!(list.get(account(2)), Some(0));
    assert_eq!(list.get(account(3)), None);
    list.insert(account(1), 9);
    assert_eq!(list.get(account(1)), Some(9));
    assert_eq!(list.allowance(account(1)), 9);
    assert_eq!(list.allowance(account(2)), 0);
    assert_eq!(list.get(account(2)), Some(0));
}

#[test]
fn accounts_are_compared_by_their_bytes() {
    let mut bytes = [3u8; 32];
    assert!(account(3) == AccountId::new(bytes));
    bytes[31] = 4;
    assert!(account(3) != AccountId::new(bytes));
    bytes[31] = 3;
    bytes[0] = 0;
    assert!(account(3) != AccountId::new(bytes));
}

#[test]
fn refund_share_is_rounded_down_and_capped() {
    assert_eq!(compute_refund_share(100, 50), 50);
    assert_eq!(compute_refund_share(99, 50), 49);
    assert_eq!(compute_refund_share(1, 99), 0);
    assert_eq!(compute_refund_share(0, 100), 0);
    assert_eq!(compute_refund_share(12345, 0), 0);
    assert_eq!(compute_refund_share(12345, 100), 12345);
    assert_eq!(compute_refund_share(199, 150), 298);
    assert_eq!(compute_refund_share(u128::MAX, 100), u128::MAX);
    assert_eq!(compute_refund_share(u128::MAX, 50), u128::MAX / 2);
    assert_eq!(compute_refund_share(u128::MAX, 99), u128::MAX - u128::MAX / 100 - 1);
    assert_eq!(compute_refund_share(u128::MAX, 101), u128::MAX);
    assert_eq!(compute_refund_share(u128::MAX, u128::MAX), u128::MAX);
    assert_eq!(compute_refund_share(99, u128::MAX), u128::MAX / 100 * 99 + 54);
    assert_eq!(compute_refund_share(100, u128::MAX), u128::MAX);
}

#[test]
fn first_open_window_decides() {
    let schedule = vec![
        RefundWindow { duration: 10, percentage: 90 },
        RefundWindow { duration: 20, percentage: 60 },
        RefundWindow { duration: 30, percentage: 30 },
    ];
    assert_eq!(find_open_window(&schedule, 100, 109), Some(schedule[0]));
    assert_eq!(find_open_window(&schedule, 100, 110), Some(schedule[1]));
    assert_eq!(find_open_window(&schedule, 100, 129), Some(schedule[2]));
    assert_eq!(find_open_window(&schedule, 100, 130), None);
    assert_eq!(find_open_window(&Vec::new(), 100, 0), None);
    assert_eq!(compute_refund_due(1000, &schedule, 100, 0), 900);
    assert_eq!(compute_refund_due(1000, &schedule, 100, 110), 600);
    assert_eq!(compute_refund_due(1000, &schedule, 100, 120), 300);
    assert_eq!(compute_refund_due(1000, &schedule, 100, 130), 0);
    // the end of a window may lie beyond the largest timestamp
    let far = vec![RefundWindow { duration: u64::MAX, percentage: 10 }];
    assert_eq!(compute_refund_due(1000, &far, u64::MAX, u64::MAX), 100);
}

#[test]
fn schedule_out_of_order_is_taken_as_it_comes() {
    let schedule = vec![
        RefundWindow { duration: 30, percentage: 30 },
        RefundWindow { duration: 10, percentage: 90 },
    ];
    assert_eq!(compute_refund_due(1000, &schedule, 100, 105), 300);
    assert_eq!(compute_refund_due(1000, &schedule, 100, 129), 300);
    assert_eq!(compute_refund_due(1000, &schedule, 100, 130), 0);
}

#[test]
fn stage_positions() {
    assert_eq!(MintingStatus::Closed.to_index(), 0);
    assert_eq!(MintingStatus::Prepresale.to_index(), 1);
    assert_eq!(MintingStatus::Presale.to_index(), 2);
    assert_eq!(MintingStatus::Public.to_index(), 3);
    assert_eq!(MintingStatus::End.to_index(), 4);
    for index in 0..=4u8 {
        assert_eq!(MintingStatus::from_index(index).unwrap().to_index(), index);
    }
    assert_eq!(MintingStatus::from_index(5), None);
    assert_eq!(MintingStatus::from_index(255), None);
    assert_eq!(MintingStatus::Presale.name(), "presale");
}

#[test]
fn error_names() {
    assert_eq!(Shiden34Error::BadMintValue.as_str(), "BadMintValue");
    assert_eq!(Shiden34Error::CannotMintZeroTokens.as_str(), "CannotMintZeroTokens");
    assert_eq!(Shiden34Error::CollectionIsFull.as_str(), "CollectionIsFull");
    assert_eq!(Shiden34Error::TooManyTokensToMint.as_str(), "TooManyTokensToMint");
    assert_eq!(Shiden34Error::WithdrawalFailed.as_str(), "WithdrawalFailed");
    assert_eq!(Shiden34Error::UnableToMint.as_str(), "UnableToMint");
    assert_eq!(Shiden34Error::RefundFailed.as_str(), "RefundFailed");
    assert_eq!(Shiden34Error::NotMintingTime.as_str(), "NotMintingTime");
    assert_eq!(Shiden34Error::TokenNotExists.as_str(), "TokenNotExists");
    assert_eq!(Shiden34Error::NotOwner.as_str(), "NotOwner");
    assert_eq!(Shiden34Error::InvalidMintingStatus.as_str(), "InvalidMintingStatus");
}

#[test]
fn token_address_is_base_number_and_suffix() {
    let owner = Some(account(1));
    assert_eq!(token_uri(0, &owner, "a/"), Ok(String::from("a/0.json")));
    assert_eq!(token_uri(7, &owner, "a/"), Ok(String::from("a/7.json")));
    assert_eq!(token_uri(10, &owner, "a/"), Ok(String::from("a/10.json")));
    assert_eq!(token_uri(1090, &owner, ""), Ok(String::from("1090.json")));
    assert_eq!(
        token_uri(u64::MAX, &owner, "ipfs://x/"),
        Ok(String::from("ipfs://x/18446744073709551615.json"))
    );
    assert_eq!(token_uri(7, &None, "a/"), Err(Shiden34Error::TokenNotExists));
    assert_eq!(token_exists(&None), Err(Shiden34Error::TokenNotExists));
    assert_eq!(token_exists(&owner), Ok(()));
    let mut text = String::from("n=");
    append_decimal(&mut text, 1234567890);
    assert_eq!(text, "n=1234567890");
}

#[test]
fn check_allowed_to_mint_charges_the_stage() {
    let config = Config {
        max_supply: 5,
        price_per_mint: 1,
        prepresale_price_per_mint: 1,
        presale_price_per_mint: 1,
        prepresale_start_at: 0,
        presale_start_at: 0,
        public_sale_start_at: 0,
        public_sale_end_at: 0,
        project_account_id: account(9),
        refund_address: account(9),
    };
    let mut data = Data::new(config, Vec::new());
    data.add_whitelisted_account_to_prepresale(account(1), 2);
    assert_eq!(
        data.check_allowed_to_mint(account(1), 1, &MintingStatus::Closed),
        Err(Shiden34Error::UnableToMint)
    );
    assert_eq!(
        data.check_allowed_to_mint(account(1), 1, &MintingStatus::End),
        Err(Shiden34Error::UnableToMint)
    );
    assert_eq!(data.check_allowed_to_mint(account(1), 1, &MintingStatus::Public), Ok(()));
    assert_eq!(data.allowance(&MintingStatus::Prepresale, account(1)), 2);
    assert_eq!(
        data.check_allowed_to_mint(account(1), 3, &MintingStatus::Prepresale),
        Err(Shiden34Error::UnableToMint)
    );
    assert_eq!(data.check_allowed_to_mint(account(1), 2, &MintingStatus::Prepresale), Ok(()));
    assert_eq!(data.allowance(&MintingStatus::Prepresale, account(1)), 0);
    assert_eq!(
        data.check_allowed_to_mint(account(1), 1, &MintingStatus::Presale),
        Err(Shiden34Error::UnableToMint)
    );
    assert_eq!(data.check_value(3, 3, &MintingStatus::Presale), Ok(()));
    assert_eq!(
        data.check_value(3, 3, &MintingStatus::Closed),
        Err(Shiden34Error::UnableToMint)
    );
    assert_eq!(data.check_value(0, 0, &MintingStatus::End), Err(Shiden34Error::UnableToMint));
}

#[test]
fn draw_and_record_by_hand() {
    let config = Config {
        max_supply: 3,
        price_per_mint: 10,
        prepresale_price_per_mint: 10,
        presale_price_per_mint: 20,
        prepresale_start_at: 0,
        presale_start_at: 0,
        public_sale_start_at: 0,
        public_sale_end_at: 50,
        project_account_id: account(9),
        refund_address: account(9),
    };
    let mut data = Data::new(config, vec![RefundWindow { duration: 10, percentage: 50 }]);
    let token_id = data.get_mint_id(7);
    assert!(data.is_minted(token_id));
    assert_eq!(data.tokens_left(), 2);
    assert_eq!(data.get_refund_amount(token_id, 0), 0);
    data.record_mint(token_id, MintingStatus::Presale);
    assert_eq!(data.get_refund_amount(token_id, 0), 10);
    assert_eq!(data.get_refund_amount(token_id, 59), 10);
    assert_eq!(data.get_refund_amount(token_id, 60), 0);
}

#[test]
fn stored_state_comes_back_as_it_was() {
    let config = Config {
        max_supply: 6,
        price_per_mint: 10,
        prepresale_price_per_mint: 4,
        presale_price_per_mint: 7,
        prepresale_start_at: 10,
        presale_start_at: 20,
        public_sale_start_at: 30,
        public_sale_end_at: 40,
        project_account_id: account(9),
        refund_address: account(8),
    };
    let mut data = Data::new(config, vec![RefundWindow { duration: 100, percentage: 50 }]);
    data.add_whitelisted_account_to_presale(account(1), 3);
    data.add_whitelisted_account_to_prepresale(account(2), 1);
    data.set_max_mint_amount(4);
    let tokens = data.mint(account(1), 2, 14, 25).ok().unwrap();
    let snapshot = data.snapshot();
    assert_eq!(snapshot.token_set.len(), 4);
    assert_eq!(snapshot.pseudo_random_salt, 2);
    assert_eq!(snapshot.max_amount, 4);
    assert_eq!(snapshot.minting_type_for_token.len(), 2);

    let mut restored = Data::restore(snapshot).unwrap();
    assert_eq!(restored.tokens_left(), 4);
    assert_eq!(restored.total_minted(), 2);
    assert_eq!(restored.get_max_mint_amount(), 4);
    assert_eq!(restored.allowance(&MintingStatus::Presale, account(1)), 1);
    assert_eq!(restored.allowance(&MintingStatus::Prepresale, account(2)), 1);
    for token_id in tokens.iter() {
        assert!(restored.is_minted(*token_id));
        assert_eq!(restored.get_refund_amount(*token_id, 0), 3);
    }
    // both go on alike
    let next = data.mint_next(account(1), 7, 25);
    assert!(next.is_ok());
    assert_eq!(restored.mint_next(account(1), 7, 25), next);
}

#[test]
fn damaged_stored_state_is_refused() {
    let config = Config {
        max_supply: 3,
        price_per_mint: 10,
        prepresale_price_per_mint: 10,
        presale_price_per_mint: 10,
        prepresale_start_at: 0,
        presale_start_at: 0,
        public_sale_start_at: 0,
        public_sale_end_at: 40,
        project_account_id: account(9),
        refund_address: account(8),
    };
    let good = Data::new(config, Vec::new()).snapshot();
    assert_eq!(good.token_set, vec![1, 2, 3]);
    assert!(Data::restore(good).is_some());

    let mut twice = Data::new(config, Vec::new()).snapshot();
    twice.token_set = vec![1, 2, 2];
    assert!(Data::restore(twice).is_none());

    let mut foreign = Data::new(config, Vec::new()).snapshot();
    foreign.token_set = vec![1, 2, 4];
    assert!(Data::restore(foreign).is_none());

    let mut zero = Data::new(config, Vec::new()).snapshot();
    zero.token_set = vec![0, 1, 2];
    assert!(Data::restore(zero).is_none());

    let mut short = Data::new(config, Vec::new()).snapshot();
    short.token_set = vec![1, 2];
    assert!(Data::restore(short).is_none());

    let mut drawn = Data::new(config, Vec::new()).snapshot();
    drawn.token_set = vec![3, 1];
    drawn.pseudo_random_salt = 1;
    let restored = Data::restore(drawn).unwrap();
    assert!(restored.is_minted(2));
    assert_eq!(restored.total_minted(), 1);

    let mut ahead = Data::new(config, Vec::new()).snapshot();
    ahead.pseudo_random_salt = 4;
    assert!(Data::restore(ahead).is_none());
}

#[test]
fn later_entries_count_when_importing() {
    let list = Allowlist::from_entries(&vec![(account(1), 2), (account(2), 5), (account(1), 9)]);
    assert_eq!(list.get(account(1)), Some(9));
    assert_eq!(list.get(account(2)), Some(5));
    let mut entries = list.to_entries();
    entries.sort_by_key(|entry| entry.1);
    assert_eq!(entries.len(), 2);
    assert!(entries[0].0 == account(2) && entries[0].1 == 5);
    assert!(entries[1].0 == account(1) && entries[1].1 == 9);
    let mut pool = TokenPool::new(4);
    let token_id = pool.get_mint_id(3);
    let tokens = pool.tokens();
    assert_eq!(tokens.len(), 3);
    assert!(!tokens.contains(&token_id));
    assert_eq!(pool.salt(), 1);
    assert!(TokenPool::restore(4, tokens, 1).is_some());
}
