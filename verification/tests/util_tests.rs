use token_ledger::account::Account;
use token_ledger::account_store::AccountStore;
use token_ledger::errors::{StoreError, TransactionError};
use token_ledger::metadata::{MetadataRegistry, MetadataValue, DECIMALS, NAME, SYMBOL, VERSION};
use token_ledger::requests::{GetUserJson, PublishCheckupJson, RewardUserJson};
use token_ledger::routing::{route_of, str_contains, Route};
use token_ledger::uuid::uuid_from_bytes;
use token_ledger::{metadata, TransferResult};
use token_ledger::ledger::DEFAULT_TRANSFER_FEE;

#[test]
fn uuid_layout_and_digits() {
    let bytes = vec![
        0x12, 0x34, 0x56, 0x78, 0x9a, 0xbc, 0xde, 0xf0, 0x12, 0x34, 0x56, 0x78, 0x9a, 0xbc,
        0xde, 0xf0,
    ];
    let s = uuid_from_bytes(&bytes);
    assert_eq!(s, "12345678-9abc-4ef0-9234-56789abcdef0");
}

#[test]
fn uuid_forces_version_and_variant() {
    let zero = vec![0u8; 16];
    assert_eq!(uuid_from_bytes(&zero), "00000000-0000-4000-8000-000000000000");
    let ones = vec![0xffu8; 16];
    assert_eq!(uuid_from_bytes(&ones), "ffffffff-ffff-4fff-bfff-ffffffffffff");
}

#[test]
fn routes_are_matched_in_order() {
    assert_eq!(route_of("/api/register-user"), Route::RegisterUser);
    assert_eq!(route_of("https://h/add-checkup?x=1"), Route::AddCheckup);
    assert_eq!(route_of("/publish-checkup"), Route::PublishCheckup);
    assert_eq!(route_of("/reward-user"), Route::RewardUser);
    assert_eq!(route_of("/get-profile"), Route::GetProfile);
    assert_eq!(route_of("/get-public-data"), Route::GetPublicData);
    assert_eq!(route_of("/get-private-data"), Route::GetPrivateData);
    assert_eq!(route_of("/get-history"), Route::GetHistory);
    assert_eq!(route_of("/nothing-here"), Route::Unknown);
    // "/get-private-data" also contains no earlier fragment, so it wins even
    // though "/get-profile" is tried first.
    assert_eq!(route_of("/x/get-private-data"), Route::GetPrivateData);
}

#[test]
fn contains_finds_substrings() {
    assert!(str_contains("hello world", "o w"));
    assert!(str_contains("hello", "hello"));
    assert!(str_contains("hello", ""));
    assert!(!str_contains("hello", "hello!"));
    assert!(!str_contains("", "x"));
    assert!(str_contains("aaab", "aab"));
}

#[test]
fn metadata_table_is_fixed_and_cached() {
    let mut reg = MetadataRegistry::new();
    let m = metadata(&mut reg);
    assert_eq!(m.len(), 5);
    assert_eq!(m[0], ("icrc1:version".to_string(), MetadataValue::Text(VERSION.to_string())));
    assert_eq!(m[1], ("icrc1:name".to_string(), MetadataValue::Text(NAME.to_string())));
    assert_eq!(m[2], ("icrc1:symbol".to_string(), MetadataValue::Text(SYMBOL.to_string())));
    assert_eq!(m[3], ("icrc1:decimals".to_string(), MetadataValue::Nat8(DECIMALS)));
    assert_eq!(m[4], ("icrc1:fee".to_string(), MetadataValue::Nat(DEFAULT_TRANSFER_FEE)));
    let again = metadata(&mut reg);
    assert_eq!(m, again);
    assert_eq!(NAME, "DHT Token");
    assert_eq!(SYMBOL, "DHT");
    assert_eq!(DECIMALS, 8);
}

#[test]
fn accounts_compare_by_both_components() {
    let a = Account { owner: vec![1], subaccount: Account::default_subaccount() };
    let b = Account { owner: vec![1], subaccount: Account::default_subaccount() };
    let c = Account { owner: vec![2], subaccount: Account::default_subaccount() };
    let mut sub = Account::default_subaccount();
    sub[31] = 1;
    let d = Account { owner: vec![1], subaccount: sub };
    assert!(a.same_account(&b));
    assert!(!a.same_account(&c));
    assert!(!a.same_account(&d));
    assert_eq!(a.duplicate(), a);
    assert_eq!(Account::default_subaccount(), vec![0u8; 32]);
    assert_eq!(Account::fee_collector().owner, vec![4u8]);
}

#[test]
fn store_accessors_are_arithmetic_safe() {
    let mut store = AccountStore::new();
    let a = Account { owner: vec![1], subaccount: Account::default_subaccount() };
    assert_eq!(store.get(&a), 0);
    store.credit(&a, u128::MAX).unwrap();
    assert_eq!(store.get(&a), u128::MAX);
    assert_eq!(store.credit(&a, 1), Err(StoreError::Overflow));
    assert_eq!(store.get(&a), u128::MAX);
    assert_eq!(store.debit(&a, u128::MAX - 5), Ok(()));
    assert_eq!(store.get(&a), 5);
    assert_eq!(store.debit(&a, 6), Err(StoreError::InsufficientFunds { available: 5 }));
    assert_eq!(store.debit(&a, 5), Ok(()));
    assert_eq!(store.get(&a), 0);
    let b = Account { owner: vec![2], subaccount: Account::default_subaccount() };
    assert_eq!(store.debit(&b, 1), Err(StoreError::InsufficientFunds { available: 0 }));
    assert_eq!(store.debit(&b, 0), Ok(()));
}

#[test]
fn wire_shapes_carry_their_fields() {
    let t = TransferResult { ok: 3, err: TransactionError::TooOld };
    assert_eq!(t.ok, 3);
    assert!(matches!(t.err, TransactionError::TooOld));
    let p = PublishCheckupJson { principal: "aaaaa-aa".to_string(), checkup_id: "c".to_string() };
    assert_eq!(p.checkup_id, "c");
    let r = RewardUserJson { principal: "aaaaa-aa".to_string(), points: 9 };
    assert_eq!(r.points, 9);
    let g = GetUserJson { principal: "aaaaa-aa".to_string() };
    assert_eq!(g.principal, "aaaaa-aa");
}
