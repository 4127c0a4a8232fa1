use anchor_lang::prelude::Pubkey;
use nft_access_control::derivation::{
    associated_token_address, find_publisher_address, publisher_address,
    ASSOCIATED_TOKEN_PROGRAM, PUBLISHER_SEED, TOKEN_PROGRAM,
};
use nft_access_control::store::AddressMap;
use nft_access_control::{Address, ErrorCode, Ledger, Publisher, TokenAccount};

fn address(tag: u8) -> Address {
    Address::new([tag; 32])
}

#[test]
fn publisher_address_is_the_program_derived_address() {
    let program = [200u8; 32];
    let authority = [1u8; 32];
    let (expected, _) = Pubkey::find_program_address(
        &[b"publisher", &authority],
        &Pubkey::new_from_array(program),
    );
    let derived = publisher_address(&Address::new(program), &Address::new(authority)).unwrap();
    assert_eq!(derived.bytes, expected.to_bytes());
    assert_ne!(derived.bytes, authority);
    assert_ne!(derived.bytes, program);
}

#[test]
fn publisher_address_depends_on_publisher_and_program() {
    let one = publisher_address(&address(200), &address(1)).unwrap();
    let again = publisher_address(&address(200), &address(1)).unwrap();
    let other_publisher = publisher_address(&address(200), &address(2)).unwrap();
    let other_program = publisher_address(&address(201), &address(1)).unwrap();
    assert_eq!(one, again);
    assert_ne!(one, other_publisher);
    assert_ne!(one, other_program);
}

#[test]
fn associated_token_address_is_the_one_of_the_token_programs() {
    let owner = [2u8; 32];
    let mint = [3u8; 32];
    let expected = anchor_spl::associated_token::get_associated_token_address(
        &Pubkey::new_from_array(owner),
        &Pubkey::new_from_array(mint),
    );
    let derived = associated_token_address(&Address::new(owner), &Address::new(mint)).unwrap();
    assert_eq!(derived.bytes, expected.to_bytes());
    assert_ne!(derived.bytes, owner);
    assert_ne!(
        derived,
        associated_token_address(&Address::new(mint), &Address::new(owner)).unwrap()
    );
}

#[test]
fn program_constants_are_the_published_addresses() {
    assert_eq!(TOKEN_PROGRAM, anchor_spl::token::ID.to_bytes());
    assert_eq!(ASSOCIATED_TOKEN_PROGRAM, anchor_spl::associated_token::ID.to_bytes());
    assert_eq!(&PUBLISHER_SEED, b"publisher");
}

#[test]
fn address_same_compares_every_byte() {
    let a = address(5);
    let mut last = [5u8; 32];
    last[31] = 6;
    let mut first = [5u8; 32];
    first[0] = 4;
    assert!(a.same(&Address::new([5u8; 32])));
    assert!(!a.same(&Address::new(last)));
    assert!(!a.same(&Address::new(first)));
    assert_eq!(Address::new(last).bytes[31], 6);
}

#[test]
fn address_map_keeps_the_last_value_per_address() {
    let mut map: AddressMap<u64> = AddressMap::new();
    assert_eq!(map.get(&address(1)), None);
    map.insert(address(1), 10);
    map.insert(address(2), 20);
    map.insert(address(1), 11);
    assert_eq!(map.get(&address(1)), Some(11));
    assert_eq!(map.get(&address(2)), Some(20));
    assert_eq!(map.get(&address(3)), None);
}

#[test]
fn new_ledger_is_empty() {
    let ledger = Ledger::new(address(200));
    assert_eq!(ledger.program_id(), address(200));
    assert_eq!(ledger.balance(&address(1)), 0);
    assert_eq!(ledger.token_balance(&address(1)), 0);
    assert_eq!(ledger.publisher(&address(1)), None);
    assert_eq!(ledger.token_account(&address(1)), None);
    assert_eq!(ledger.mint_authority(&address(1)), None);
}

#[test]
fn deposit_adds_and_refuses_overflow() {
    let mut ledger = Ledger::new(address(200));
    assert_eq!(ledger.deposit(address(1), 150), Ok(()));
    assert_eq!(ledger.deposit(address(1), 25), Ok(()));
    assert_eq!(ledger.balance(&address(1)), 175);
    assert_eq!(ledger.deposit(address(1), u64::MAX - 174), Err(ErrorCode::MathOverflow));
    assert_eq!(ledger.balance(&address(1)), 175);
    assert_eq!(ledger.deposit(address(1), u64::MAX - 175), Ok(()));
    assert_eq!(ledger.balance(&address(1)), u64::MAX);
    assert_eq!(ledger.balance(&address(2)), 0);
}

#[test]
fn create_mint_once_per_token_type() {
    let mut ledger = Ledger::new(address(200));
    assert_eq!(ledger.create_mint(address(3), address(50)), Ok(()));
    assert_eq!(ledger.mint_authority(&address(3)), Some(address(50)));
    assert_eq!(
        ledger.create_mint(address(3), address(51)),
        Err(ErrorCode::AlreadyInitialized)
    );
    assert_eq!(ledger.mint_authority(&address(3)), Some(address(50)));
}

#[test]
fn counter_steps_by_one_and_stops_at_its_ends() {
    let mut record = Publisher::new(address(1), address(3), 100);
    assert_eq!(record.total_subscribers, 0);
    assert_eq!(record.license_price, 100);
    assert_eq!(record.record_revocation(), Err(ErrorCode::CounterUnderflow));
    assert_eq!(record.total_subscribers, 0);
    assert_eq!(record.record_issuance(), Ok(()));
    assert_eq!(record.record_issuance(), Ok(()));
    assert_eq!(record.total_subscribers, 2);
    assert_eq!(record.record_revocation(), Ok(()));
    assert_eq!(record.total_subscribers, 1);

    record.total_subscribers = u64::MAX;
    assert_eq!(record.record_issuance(), Err(ErrorCode::MathOverflow));
    assert_eq!(record.total_subscribers, u64::MAX);
    assert_eq!(record.authority, address(1));
    assert_eq!(record.license_mint, address(3));
    assert_eq!(record.license_price, 100);
}

#[test]
fn stored_accounts_read_back() {
    let mut ledger = Ledger::new(address(200));
    let record = Publisher {
        authority: address(1),
        license_mint: address(3),
        license_price: 40,
        total_subscribers: 7,
    };
    let seat = TokenAccount { mint: address(3), owner: address(2), amount: 5 };
    ledger.store_publisher(address(10), record);
    ledger.store_token_account(address(11), seat);
    assert_eq!(ledger.publisher(&address(10)), Some(record));
    assert_eq!(ledger.token_account(&address(11)), Some(seat));
    assert_eq!(ledger.token_balance(&address(11)), 5);
    assert_eq!(ledger.publisher(&address(11)), None);

    ledger.store_token_account(address(11), TokenAccount { amount: 0, ..seat });
    assert_eq!(ledger.token_balance(&address(11)), 0);
    assert_eq!(ledger.token_account(&address(11)).unwrap().owner, address(2));
}

#[test]
fn bound_accounts_are_the_derived_ones() {
    let program = address(200);
    let mut ledger = Ledger::new(program);
    let authority = address(1);
    let mint = address(3);
    let owner = address(2);
    let slot = publisher_address(&program, &authority).unwrap();
    let seat = associated_token_address(&owner, &mint).unwrap();
    let record = Publisher::new(authority, mint, 40);
    ledger.store_publisher(slot, record);
    ledger.store_publisher(address(10), record);

    assert_eq!(ledger.bound_publisher(&slot, &authority, &mint), Some(record));
    assert_eq!(ledger.bound_publisher(&address(10), &authority, &mint), None);
    assert_eq!(ledger.bound_publisher(&slot, &address(9), &mint), None);
    assert_eq!(ledger.bound_publisher(&slot, &authority, &address(9)), None);

    assert_eq!(ledger.bound_token_balance(&seat, &owner, &mint), Some(0));
    assert_eq!(ledger.bound_token_balance(&address(11), &owner, &mint), None);
    ledger.store_token_account(seat, TokenAccount { mint, owner, amount: 4 });
    assert_eq!(ledger.bound_token_balance(&seat, &owner, &mint), Some(4));
    ledger.store_token_account(seat, TokenAccount { mint, owner: address(9), amount: 4 });
    assert_eq!(ledger.bound_token_balance(&seat, &owner, &mint), None);
}

#[test]
fn publisher_bump_is_the_one_that_signs() {
    let program = [200u8; 32];
    let authority = [1u8; 32];
    let (expected, expected_bump) = Pubkey::find_program_address(
        &[b"publisher", &authority],
        &Pubkey::new_from_array(program),
    );
    let (derived, bump) =
        find_publisher_address(&Address::new(program), &Address::new(authority)).unwrap();
    assert_eq!(derived.bytes, expected.to_bytes());
    assert_eq!(bump, expected_bump);
    let signed = Pubkey::create_program_address(
        &[b"publisher", &authority, &[bump]],
        &Pubkey::new_from_array(program),
    );
    assert_eq!(signed.unwrap().to_bytes(), derived.bytes);
}
