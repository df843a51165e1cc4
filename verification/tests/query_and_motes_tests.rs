use ledger_harness::CONV_RATE;
use ledger_harness::Error;
use ledger_harness::Gas;
use ledger_harness::GenesisBuilder;
use ledger_harness::Identity;
use ledger_harness::Motes;
use ledger_harness::PROTOCOL_VERSION;
use ledger_harness::TestContextBuilder;
use ledger_harness::Value;

#[test]
fn query_resolves_the_account_root() {
    let ctx = TestContextBuilder::new().with_account(Identity { value: 1 }, Motes::new(7)).build();
    let no_path: Vec<String> = Vec::new();
    match ctx.query(Identity { value: 1 }, &no_path) {
        Ok(Value::Account(account)) => {
            assert_eq!(account.identity, Identity { value: 1 });
        },
        Err(_) => panic!("expected the account root"),
    }
}

#[test]
fn query_unknown_identity_is_not_found() {
    let ctx = TestContextBuilder::new().with_account(Identity { value: 1 }, Motes::new(7)).build();
    let no_path: Vec<String> = Vec::new();
    assert_eq!(ctx.query(Identity { value: 9 }, &no_path), Err(Error::NotFound));
}

#[test]
fn query_before_any_state_is_not_found() {
    let ctx = TestContextBuilder::new().build();
    let no_path: Vec<String> = Vec::new();
    assert_eq!(ctx.query(Identity { value: 1 }, &no_path), Err(Error::NotFound));
}

#[test]
fn query_nonempty_path_is_not_found() {
    let ctx = TestContextBuilder::new().with_account(Identity { value: 1 }, Motes::new(7)).build();
    let path = vec![String::from("known_keys")];
    assert_eq!(ctx.query(Identity { value: 1 }, &path), Err(Error::NotFound));
}

#[test]
fn default_builder_has_no_accounts() {
    let ctx = TestContextBuilder::default().build();
    assert_eq!(ctx.get_account(Identity { value: 0 }), None);
}

#[test]
fn genesis_builder_freezes_entries() {
    let config = GenesisBuilder::new()
        .with_account(Identity { value: 3 }, Motes::new(40))
        .with_account(Identity { value: 4 }, Motes::new(50))
        .build();
    assert_eq!(config.protocol_version, PROTOCOL_VERSION);
    assert_eq!(config.accounts.len(), 2);
    assert_eq!(config.accounts[0].identity, Identity { value: 3 });
    assert_eq!(config.accounts[0].balance, Motes::new(40));
    assert_eq!(config.accounts[0].bonded, Motes::new(0));
    assert_eq!(config.accounts[1].identity, Identity { value: 4 });
}

#[test]
fn motes_checked_add_detects_overflow() {
    assert_eq!(Motes::new(2).checked_add(Motes::new(3)), Some(Motes::new(5)));
    assert_eq!(Motes::new(u128::MAX).checked_add(Motes::new(1)), None);
    assert_eq!(Motes::new(u128::MAX).checked_add(Motes::new(0)), Some(Motes::new(u128::MAX)));
}

#[test]
fn motes_checked_sub_detects_underflow() {
    assert_eq!(Motes::new(5).checked_sub(Motes::new(3)), Some(Motes::new(2)));
    assert_eq!(Motes::new(3).checked_sub(Motes::new(5)), None);
    assert_eq!(Motes::new(3).checked_sub(Motes::new(3)), Some(Motes::new(0)));
}

#[test]
fn motes_from_gas_converts_exactly() {
    assert_eq!(Motes::from_gas(Gas { value: 3 }, CONV_RATE), Some(Motes::new(30)));
    assert_eq!(Motes::from_gas(Gas { value: 0 }, CONV_RATE), Some(Motes::new(0)));
    assert_eq!(
        Motes::from_gas(Gas { value: u64::MAX }, u64::MAX),
        Some(Motes::new(u64::MAX as u128 * u64::MAX as u128))
    );
}

#[test]
fn motes_from_gas_rejects_a_zero_rate() {
    assert_eq!(Motes::from_gas(Gas { value: 3 }, 0), None);
}
