use propchain::primitives::{bytes_equal, contains_account, copy_accounts, AccountId};
use propchain::table::Table;
use propchain::text::{decimal_string, hex_string};

#[test]
fn decimal_rendering() {
    assert_eq!(decimal_string(0), "0");
    assert_eq!(decimal_string(7), "7");
    assert_eq!(decimal_string(10), "10");
    assert_eq!(decimal_string(1234567890), "1234567890");
    assert_eq!(decimal_string(u64::MAX as u128), "18446744073709551615");
    assert_eq!(decimal_string(u128::MAX), u128::MAX.to_string());
    for n in [9u128, 99, 100, 101, 1_000_000, 909_090] {
        assert_eq!(decimal_string(n), n.to_string());
    }
}

#[test]
fn hexadecimal_rendering() {
    assert_eq!(hex_string(&[0u8; 32]), "0".repeat(64));
    assert_eq!(hex_string(&[0xffu8; 32]), "f".repeat(64));
    let mut bytes = [0u8; 32];
    for (i, b) in bytes.iter_mut().enumerate() {
        *b = (i as u8) * 8 + 1;
    }
    assert_eq!(
        hex_string(&bytes),
        "0109111921293139414951596169717981899199a1a9b1b9c1c9d1d9e1e9f1f9"
    );
}

#[test]
fn accounts_compare_by_their_bytes() {
    let a = AccountId::from([1u8; 32]);
    let mut other = [1u8; 32];
    other[31] = 2;
    let b = AccountId::from(other);
    assert!(a == AccountId::from([1u8; 32]));
    assert!(a != b);
    assert!(bytes_equal(&a.bytes, &[1u8; 32]));
    assert!(!bytes_equal(&a.bytes, &b.bytes));
    assert_eq!(AccountId::zeroed(), AccountId::from([0u8; 32]));
    assert_eq!(propchain::primitives::Hash::zeroed().bytes, [0u8; 32]);
    let list = vec![a, b, a];
    assert!(contains_account(&list, b));
    assert!(!contains_account(&list, AccountId::zeroed()));
    assert_eq!(copy_accounts(&list), list);
}

#[test]
fn table_is_a_map() {
    let mut table: Table<u64, u32> = Table::new();
    assert_eq!(table.get(&1), None);
    assert!(!table.contains_key(&1));
    table.insert(1, 10);
    table.insert(2, 20);
    table.insert(3, 30);
    table.insert(2, 21);
    assert_eq!(table.get(&1), Some(&10));
    assert_eq!(table.get(&2), Some(&21));
    assert_eq!(table.get(&3), Some(&30));
    let copy = table.duplicate();
    assert_eq!(table.take(&1), Some(10));
    assert_eq!(table.take(&1), None);
    table.remove(&3);
    table.remove(&4);
    assert_eq!(table.get(&3), None);
    assert_eq!(table.get(&2), Some(&21));
    assert_eq!(copy.get(&1), Some(&10));
    assert_eq!(copy.get(&3), Some(&30));

    let mut pairs: Table<(AccountId, u64), bool> = Table::new();
    let a = AccountId::from([1u8; 32]);
    let b = AccountId::from([2u8; 32]);
    pairs.insert((a, 1), true);
    pairs.insert((b, 1), false);
    assert_eq!(pairs.get(&(a, 1)), Some(&true));
    assert_eq!(pairs.get(&(b, 1)), Some(&false));
    assert_eq!(pairs.get(&(a, 2)), None);
}
