use propchain::primitives::AccountId;
use propchain::proxy::{AdminChanged, Error, Event, TransparentProxy, Upgraded};

fn account(byte: u8) -> AccountId {
    AccountId::from([byte; 32])
}

fn code(byte: u8) -> propchain::primitives::Hash {
    propchain::primitives::Hash::from([byte; 32])
}

#[test]
fn upgrade_works() {
    let registry = propchain::registry::PropertyRegistry::new(account(1), 0, 0);
    assert_eq!(registry.version(), 1);
    let mut proxy = TransparentProxy::new(account(1), code(1));
    assert_eq!(proxy.code_hash(), code(1));
    assert_eq!(proxy.admin(), account(1));
    assert_eq!(proxy.upgrade_to(account(1), code(2)), Ok(()));
    assert_eq!(proxy.code_hash(), code(2));
}

#[test]
fn only_the_administrator_upgrades() {
    let mut proxy = TransparentProxy::new(account(1), code(1));
    assert_eq!(proxy.ensure_admin(account(1)), Ok(()));
    assert_eq!(proxy.ensure_admin(account(2)), Err(Error::Unauthorized));
    assert_eq!(proxy.upgrade_to(account(2), code(2)), Err(Error::Unauthorized));
    assert_eq!(proxy.change_admin(account(2), account(2)), Err(Error::Unauthorized));
    assert_eq!(proxy.code_hash(), code(1));
    assert_eq!(proxy.admin(), account(1));
    assert!(proxy.take_events().is_empty());

    assert_eq!(proxy.change_admin(account(1), account(2)), Ok(()));
    assert_eq!(proxy.admin(), account(2));
    assert_eq!(proxy.upgrade_to(account(1), code(2)), Err(Error::Unauthorized));
    assert_eq!(proxy.upgrade_to(account(2), code(3)), Ok(()));
    assert_eq!(proxy.code_hash(), code(3));
    assert_eq!(
        proxy.take_events(),
        vec![
            Event::AdminChanged(AdminChanged { new_admin: account(2) }),
            Event::Upgraded(Upgraded { new_code_hash: code(3) }),
        ]
    );
    assert!(proxy.take_events().is_empty());
}
