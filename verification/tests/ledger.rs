use erc20::{AccountId, Approval, Erc20, Error, Transfer};

#[test]
fn new_works() {
    let (contract, _) = Erc20::new(777, AccountId::from([0x1; 32]));
    assert_eq!(contract.total_supply(), 777);
}

#[test]
fn balance_works() {
    let (contract, _) = Erc20::new(100, AccountId::from([0x1; 32]));
    assert_eq!(contract.total_supply(), 100);
    assert_eq!(contract.balance_of(AccountId::from([0x1; 32])), 100);
    assert_eq!(contract.balance_of(AccountId::from([0x0; 32])), 0);
}

#[test]
fn transfer_works() {
    let caller = AccountId::from([0x1; 32]);
    let (mut contract, _) = Erc20::new(100, caller);
    assert_eq!(contract.total_supply(), 100);
    assert_eq!(contract.balance_of(AccountId::from([0x1; 32])), 100);
    assert_eq!(contract.balance_of(AccountId::from([0x0; 32])), 0);
    assert_eq!(
        contract.transfer(caller, AccountId::from([0x0; 32]), 50).map(|_| ()),
        Ok(())
    );
    assert_eq!(contract.balance_of(AccountId::from([0x1; 32])), 50);
    assert_eq!(contract.balance_of(AccountId::from([0x0; 32])), 50);
}

#[test]
fn transfer_from_works() {
    let caller = AccountId::from([0x1; 32]);
    let (mut contract, _) = Erc20::new(100, caller);
    assert_eq!(contract.balance_of(AccountId::from([0x1; 32])), 100);
    contract
        .approve(caller, AccountId::from([0x1; 32]), 20)
        .map(|_| ())
        .unwrap_or_default();
    contract
        .transfer_from(
            caller,
            AccountId::from([0x1; 32]),
            AccountId::from([0x0; 32]),
            10,
        )
        .map(|_| ())
        .unwrap_or_default();
    assert_eq!(contract.balance_of(AccountId::from([0x0; 32])), 10);
}

#[test]
fn allowance_works() {
    let caller = AccountId::from([0x1; 32]);
    let (mut contract, _) = Erc20::new(100, caller);
    assert_eq!(contract.balance_of(AccountId::from([0x1; 32])), 100);
    contract
        .approve(caller, AccountId::from([0x1; 32]), 200)
        .map(|_| ())
        .unwrap_or_default();
    assert_eq!(
        contract.allowance(AccountId::from([0x1; 32]), AccountId::from([0x1; 32])),
        200
    );
    contract
        .transfer_from(
            caller,
            AccountId::from([0x1; 32]),
            AccountId::from([0x0; 32]),
            50,
        )
        .map(|_| ())
        .unwrap_or_default();
    assert_eq!(contract.balance_of(AccountId::from([0x0; 32])), 50);
    assert_eq!(
        contract.allowance(AccountId::from([0x1; 32]), AccountId::from([0x1; 32])),
        150
    );

    contract
        .transfer_from(
            caller,
            AccountId::from([0x1; 32]),
            AccountId::from([0x0; 32]),
            100,
        )
        .map(|_| ())
        .unwrap_or_default();
    assert_eq!(contract.balance_of(AccountId::from([0x0; 32])), 50);
    assert_eq!(
        contract.allowance(AccountId::from([0x1; 32]), AccountId::from([0x1; 32])),
        150
    );
}

#[test]
fn creation_mints_the_supply_to_the_creator() {
    let c = AccountId::from([0xC; 32]);
    let other = AccountId::from([0xD; 32]);
    let (ledger, minted) = Erc20::new(777, c);
    assert_eq!(ledger.total_supply(), 777);
    assert_eq!(ledger.balance_of(c), 777);
    assert_eq!(ledger.balance_of(other), 0);
    assert_eq!(ledger.allowance(c, other), 0);
    assert_eq!(
        minted,
        Transfer {
            from: None,
            to: Some(c),
            value: 777
        }
    );
}

#[test]
fn creation_with_no_supply_gives_an_empty_ledger() {
    let c = AccountId::from([0xC; 32]);
    let d = AccountId::from([0xD; 32]);
    let (mut ledger, minted) = Erc20::new(0, c);
    assert_eq!(ledger.total_supply(), 0);
    assert_eq!(ledger.balance_of(c), 0);
    assert_eq!(
        minted,
        Transfer {
            from: None,
            to: Some(c),
            value: 0
        }
    );
    assert_eq!(ledger.transfer(c, d, 1), Err(Error::InsufficientBalance));
    assert_eq!(
        ledger.transfer(c, d, 0),
        Ok(Transfer {
            from: Some(c),
            to: Some(d),
            value: 0
        })
    );
    assert_eq!(ledger.balance_of(d), 0);
}

#[test]
fn transfer_moves_half_of_the_supply() {
    let c = AccountId::from([0xC; 32]);
    let d = AccountId::from([0xD; 32]);
    let (mut ledger, _) = Erc20::new(100, c);
    assert_eq!(
        ledger.transfer(c, d, 50),
        Ok(Transfer {
            from: Some(c),
            to: Some(d),
            value: 50
        })
    );
    assert_eq!(ledger.balance_of(c), 50);
    assert_eq!(ledger.balance_of(d), 50);
    assert_eq!(ledger.total_supply(), 100);
}

#[test]
fn delegated_transfer_spends_the_allowance() {
    let c = AccountId::from([0xC; 32]);
    let d = AccountId::from([0xD; 32]);
    let e = AccountId::from([0xE; 32]);
    let (mut ledger, _) = Erc20::new(100, c);
    assert_eq!(
        ledger.approve(c, e, 20),
        Ok(Approval {
            owner: c,
            spender: e,
            value: 20
        })
    );
    assert_eq!(
        ledger.transfer_from(e, c, d, 10),
        Ok(Transfer {
            from: Some(c),
            to: Some(d),
            value: 10
        })
    );
    assert_eq!(ledger.balance_of(d), 10);
    assert_eq!(ledger.balance_of(c), 90);
    assert_eq!(ledger.balance_of(e), 0);
    assert_eq!(ledger.allowance(c, e), 10);
}

#[test]
fn delegated_transfer_beyond_the_balance_changes_nothing() {
    let c = AccountId::from([0xC; 32]);
    let d = AccountId::from([0xD; 32]);
    let e = AccountId::from([0xE; 32]);
    let (mut ledger, _) = Erc20::new(100, c);
    assert!(ledger.approve(c, e, 200).is_ok());
    assert!(ledger.transfer_from(e, c, d, 50).is_ok());
    assert_eq!(ledger.balance_of(d), 50);
    assert_eq!(ledger.allowance(c, e), 150);
    assert_eq!(
        ledger.transfer_from(e, c, d, 100),
        Err(Error::InsufficientBalance)
    );
    assert_eq!(ledger.balance_of(c), 50);
    assert_eq!(ledger.balance_of(d), 50);
    assert_eq!(ledger.allowance(c, e), 150);
    assert_eq!(ledger.total_supply(), 100);
}

#[test]
fn delegated_transfer_without_allowance_changes_nothing() {
    let c = AccountId::from([0xC; 32]);
    let d = AccountId::from([0xD; 32]);
    let e = AccountId::from([0xE; 32]);
    let (mut ledger, _) = Erc20::new(100, c);
    assert_eq!(
        ledger.transfer_from(e, c, d, 1),
        Err(Error::InsufficientAllowance)
    );
    assert_eq!(ledger.balance_of(c), 100);
    assert_eq!(ledger.balance_of(d), 0);
    assert_eq!(ledger.balance_of(e), 0);
    assert_eq!(ledger.allowance(c, e), 0);
    assert_eq!(ledger.total_supply(), 100);
}

#[test]
fn allowance_is_checked_before_balance() {
    let c = AccountId::from([0xC; 32]);
    let d = AccountId::from([0xD; 32]);
    let e = AccountId::from([0xE; 32]);
    let (mut ledger, _) = Erc20::new(100, c);
    assert!(ledger.approve(c, e, 150).is_ok());
    assert_eq!(
        ledger.transfer_from(e, c, d, 200),
        Err(Error::InsufficientAllowance)
    );
    assert_eq!(
        ledger.transfer_from(e, c, d, 150),
        Err(Error::InsufficientBalance)
    );
    assert_eq!(ledger.allowance(c, e), 150);
    assert_eq!(ledger.balance_of(c), 100);
}

#[test]
fn allowance_belongs_to_one_owner_and_one_spender() {
    let c = AccountId::from([0xC; 32]);
    let d = AccountId::from([0xD; 32]);
    let e = AccountId::from([0xE; 32]);
    let (mut ledger, _) = Erc20::new(100, c);
    assert!(ledger.approve(c, e, 30).is_ok());
    assert_eq!(ledger.allowance(c, e), 30);
    assert_eq!(ledger.allowance(e, c), 0);
    assert_eq!(ledger.allowance(c, d), 0);
    assert_eq!(ledger.allowance(d, e), 0);
    assert_eq!(
        ledger.transfer_from(d, c, d, 10),
        Err(Error::InsufficientAllowance)
    );
    assert_eq!(
        ledger.transfer_from(e, d, c, 10),
        Err(Error::InsufficientAllowance)
    );
}

#[test]
fn second_approval_replaces_the_first() {
    let c = AccountId::from([0xC; 32]);
    let e = AccountId::from([0xE; 32]);
    let (mut ledger, _) = Erc20::new(100, c);
    assert!(ledger.approve(c, e, 10).is_ok());
    assert_eq!(
        ledger.approve(c, e, 5),
        Ok(Approval {
            owner: c,
            spender: e,
            value: 5
        })
    );
    assert_eq!(ledger.allowance(c, e), 5);
    assert!(ledger.approve(c, e, 0).is_ok());
    assert_eq!(ledger.allowance(c, e), 0);
    assert_eq!(ledger.balance_of(c), 100);
}

#[test]
fn approval_may_exceed_the_balance() {
    let c = AccountId::from([0xC; 32]);
    let d = AccountId::from([0xD; 32]);
    let e = AccountId::from([0xE; 32]);
    let (mut ledger, _) = Erc20::new(100, c);
    assert!(ledger.approve(c, e, u128::MAX).is_ok());
    assert_eq!(ledger.allowance(c, e), u128::MAX);
    assert!(ledger.transfer_from(e, c, d, 100).is_ok());
    assert_eq!(ledger.allowance(c, e), u128::MAX - 100);
    assert!(ledger.approve(d, e, 1).is_ok());
    assert_eq!(ledger.allowance(d, e), 1);
}

#[test]
fn transfer_conserves_the_supply() {
    let a = AccountId::from([0xA; 32]);
    let b = AccountId::from([0xB; 32]);
    let c = AccountId::from([0xC; 32]);
    let (mut ledger, _) = Erc20::new(1000, a);
    assert!(ledger.transfer(a, b, 300).is_ok());
    assert!(ledger.transfer(b, c, 120).is_ok());
    assert!(ledger.transfer(c, a, 20).is_ok());
    assert_eq!(ledger.balance_of(a), 720);
    assert_eq!(ledger.balance_of(b), 180);
    assert_eq!(ledger.balance_of(c), 100);
    assert_eq!(
        ledger.balance_of(a) + ledger.balance_of(b) + ledger.balance_of(c),
        ledger.total_supply()
    );
    assert_eq!(ledger.total_supply(), 1000);
}

#[test]
fn failed_transfer_changes_nothing() {
    let c = AccountId::from([0xC; 32]);
    let d = AccountId::from([0xD; 32]);
    let e = AccountId::from([0xE; 32]);
    let (mut ledger, _) = Erc20::new(100, c);
    assert!(ledger.transfer(c, d, 40).is_ok());
    assert!(ledger.approve(c, e, 7).is_ok());
    assert_eq!(ledger.transfer(d, c, 41), Err(Error::InsufficientBalance));
    assert_eq!(ledger.transfer(e, c, 1), Err(Error::InsufficientBalance));
    assert_eq!(ledger.balance_of(c), 60);
    assert_eq!(ledger.balance_of(d), 40);
    assert_eq!(ledger.balance_of(e), 0);
    assert_eq!(ledger.allowance(c, e), 7);
    assert_eq!(ledger.total_supply(), 100);
}

#[test]
fn transfer_to_oneself_keeps_the_balance() {
    let c = AccountId::from([0xC; 32]);
    let (mut ledger, _) = Erc20::new(100, c);
    assert_eq!(
        ledger.transfer(c, c, 100),
        Ok(Transfer {
            from: Some(c),
            to: Some(c),
            value: 100
        })
    );
    assert_eq!(ledger.balance_of(c), 100);
    assert_eq!(ledger.transfer(c, c, 101), Err(Error::InsufficientBalance));
    assert_eq!(ledger.balance_of(c), 100);
    assert!(ledger.approve(c, c, 30).is_ok());
    assert!(ledger.transfer_from(c, c, c, 30).is_ok());
    assert_eq!(ledger.balance_of(c), 100);
    assert_eq!(ledger.allowance(c, c), 0);
}

#[test]
fn transfer_of_nothing_succeeds() {
    let c = AccountId::from([0xC; 32]);
    let d = AccountId::from([0xD; 32]);
    let e = AccountId::from([0xE; 32]);
    let (mut ledger, _) = Erc20::new(100, c);
    assert_eq!(
        ledger.transfer(d, e, 0),
        Ok(Transfer {
            from: Some(d),
            to: Some(e),
            value: 0
        })
    );
    assert_eq!(
        ledger.transfer_from(e, d, c, 0),
        Ok(Transfer {
            from: Some(d),
            to: Some(c),
            value: 0
        })
    );
    assert_eq!(ledger.balance_of(c), 100);
    assert_eq!(ledger.balance_of(d), 0);
    assert_eq!(ledger.balance_of(e), 0);
    assert_eq!(ledger.allowance(d, e), 0);
}

#[test]
fn whole_balance_can_leave_and_return() {
    let c = AccountId::from([0xC; 32]);
    let d = AccountId::from([0xD; 32]);
    let (mut ledger, _) = Erc20::new(u128::MAX, c);
    assert!(ledger.transfer(c, d, u128::MAX).is_ok());
    assert_eq!(ledger.balance_of(c), 0);
    assert_eq!(ledger.balance_of(d), u128::MAX);
    assert_eq!(ledger.transfer(c, d, 1), Err(Error::InsufficientBalance));
    assert!(ledger.transfer(d, c, u128::MAX - 1).is_ok());
    assert_eq!(ledger.balance_of(c), u128::MAX - 1);
    assert_eq!(ledger.balance_of(d), 1);
    assert_eq!(ledger.total_supply(), u128::MAX);
}

#[test]
fn reading_changes_nothing() {
    let c = AccountId::from([0xC; 32]);
    let d = AccountId::from([0xD; 32]);
    let (mut ledger, _) = Erc20::new(100, c);
    assert!(ledger.transfer(c, d, 25).is_ok());
    assert!(ledger.approve(c, d, 9).is_ok());
    for _ in 0..3 {
        assert_eq!(ledger.total_supply(), 100);
        assert_eq!(ledger.balance_of(c), 75);
        assert_eq!(ledger.balance_of(d), 25);
        assert_eq!(ledger.allowance(c, d), 9);
        assert_eq!(ledger.allowance(d, c), 0);
    }
}

#[test]
fn accounts_are_told_apart_by_their_bytes() {
    let mut bytes = [0x7; 32];
    let a = AccountId::from(bytes);
    assert_eq!(a, AccountId::from([0x7; 32]));
    assert_eq!(a.bytes(), [0x7; 32]);
    bytes[31] = 0x8;
    let b = AccountId::from(bytes);
    assert_ne!(a, b);
    assert_eq!(b.bytes(), bytes);
    bytes[31] = 0x7;
    bytes[0] = 0x8;
    assert_ne!(a, AccountId::from(bytes));

    let (mut ledger, _) = Erc20::new(10, a);
    assert!(ledger.transfer(a, b, 4).is_ok());
    assert_eq!(ledger.balance_of(a), 6);
    assert_eq!(ledger.balance_of(b), 4);
    assert_eq!(ledger.balance_of(AccountId::from(bytes)), 0);
}

#[test]
fn balances_stay_within_the_supply() {
    let a = AccountId::from([0xA; 32]);
    let b = AccountId::from([0xB; 32]);
    let c = AccountId::from([0xC; 32]);
    let accounts = [a, b, c];
    let (mut ledger, _) = Erc20::new(90, a);
    assert!(ledger.approve(a, b, 500).is_ok());
    assert!(ledger.approve(b, c, 40).is_ok());
    let steps: [(usize, usize, usize, u128); 8] = [
        (0, 0, 1, 30),
        (1, 0, 2, 60),
        (1, 0, 2, 61),
        (2, 1, 0, 25),
        (2, 1, 0, 16),
        (2, 2, 2, 60),
        (0, 2, 1, 1),
        (1, 1, 0, 5),
    ];
    let expected: [[u128; 3]; 8] = [
        [60, 30, 0],
        [0, 30, 60],
        [0, 30, 60],
        [25, 5, 60],
        [25, 5, 60],
        [25, 5, 60],
        [25, 5, 60],
        [30, 0, 60],
    ];
    for (step, want) in steps.iter().zip(expected.iter()) {
        let (caller, from, to, value) = *step;
        if caller == from {
            let _ = ledger.transfer(accounts[from], accounts[to], value);
        } else {
            let _ = ledger.transfer_from(accounts[caller], accounts[from], accounts[to], value);
        }
        let mut sum: u128 = 0;
        for (account, balance) in accounts.iter().zip(want.iter()) {
            assert_eq!(ledger.balance_of(*account), *balance);
            assert!(ledger.balance_of(*account) <= ledger.total_supply());
            sum += ledger.balance_of(*account);
        }
        assert_eq!(sum, 90);
        assert_eq!(ledger.total_supply(), 90);
    }
    assert_eq!(ledger.allowance(a, b), 440);
    assert_eq!(ledger.allowance(b, c), 15);
}
