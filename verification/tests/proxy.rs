use personal_token::{
    proxy_burn, proxy_mint_to, proxy_set_authority, proxy_transfer, AccountHandle, AuthorityType,
    CallError, ErrorCode, Identity, Instruction, LedgerCall, ProxyBurn, ProxyMintTo,
    ProxySetAuthority, ProxyTransfer,
};

fn key(tag: u8) -> Identity {
    Identity { bytes: [tag; 32] }
}

fn handle(tag: u8, is_signer: bool) -> AccountHandle {
    AccountHandle { key: key(tag), is_signer }
}

#[test]
fn proxy_transfer_forwards_the_request_unchanged() {
    let accounts = ProxyTransfer {
        authority: handle(1, true),
        from: handle(2, false),
        to: handle(3, false),
        token_program: handle(4, false),
    };
    assert_eq!(
        proxy_transfer(&accounts, 250),
        Ok(LedgerCall {
            program: key(4),
            instruction: Instruction::Transfer {
                from: key(2),
                to: key(3),
                authority: key(1),
                amount: 250,
            },
        })
    );
    assert_eq!(accounts.forward(250), proxy_transfer(&accounts, 250).unwrap());
}

#[test]
fn proxy_transfer_without_the_signature_forwards_nothing() {
    let accounts = ProxyTransfer {
        authority: handle(1, false),
        from: handle(2, true),
        to: handle(3, true),
        token_program: handle(4, true),
    };
    assert_eq!(proxy_transfer(&accounts, 250), Err(CallError::SignerMissing));
}

#[test]
fn proxy_mint_to_forwards_the_request_unchanged() {
    let accounts = ProxyMintTo {
        authority: handle(1, true),
        mint: handle(5, false),
        to: handle(3, false),
        token_program: handle(4, false),
    };
    assert_eq!(
        proxy_mint_to(&accounts, u64::MAX),
        Ok(LedgerCall {
            program: key(4),
            instruction: Instruction::MintTo {
                mint: key(5),
                to: key(3),
                authority: key(1),
                amount: u64::MAX,
            },
        })
    );
}

#[test]
fn proxy_mint_to_without_the_signature_forwards_nothing() {
    let accounts = ProxyMintTo {
        authority: handle(1, false),
        mint: handle(5, false),
        to: handle(3, false),
        token_program: handle(4, false),
    };
    assert_eq!(proxy_mint_to(&accounts, 1), Err(CallError::SignerMissing));
}

#[test]
fn proxy_burn_forwards_the_request_unchanged() {
    let accounts = ProxyBurn {
        authority: handle(1, true),
        mint: handle(5, false),
        from: handle(2, false),
        token_program: handle(4, false),
    };
    assert_eq!(
        proxy_burn(&accounts, 0),
        Ok(LedgerCall {
            program: key(4),
            instruction: Instruction::Burn {
                mint: key(5),
                from: key(2),
                authority: key(1),
                amount: 0,
            },
        })
    );
}

#[test]
fn proxy_burn_without_the_signature_forwards_nothing() {
    let accounts = ProxyBurn {
        authority: handle(1, false),
        mint: handle(5, false),
        from: handle(2, false),
        token_program: handle(4, false),
    };
    assert_eq!(proxy_burn(&accounts, 9), Err(CallError::SignerMissing));
}

#[test]
fn clearing_the_freeze_authority_is_forwarded_for_its_signer() {
    let accounts = ProxySetAuthority {
        current_authority: handle(6, true),
        account_or_mint: handle(5, false),
        token_program: handle(4, false),
    };
    assert_eq!(
        proxy_set_authority(&accounts, AuthorityType::FreezeAccount, None),
        Ok(LedgerCall {
            program: key(4),
            instruction: Instruction::SetAuthority {
                account_or_mint: key(5),
                current_authority: key(6),
                authority_type: spl_token::instruction::AuthorityType::FreezeAccount,
                new_authority: None,
            },
        })
    );
}

#[test]
fn clearing_the_freeze_authority_unsigned_stops_before_the_ledger() {
    let accounts = ProxySetAuthority {
        current_authority: handle(6, false),
        account_or_mint: handle(5, false),
        token_program: handle(4, false),
    };
    assert_eq!(
        proxy_set_authority(&accounts, AuthorityType::FreezeAccount, None),
        Err(CallError::SignerMissing)
    );
}

#[test]
fn handing_over_each_authority_slot_is_forwarded_under_the_ledgers_tag() {
    let accounts = ProxySetAuthority {
        current_authority: handle(6, true),
        account_or_mint: handle(5, false),
        token_program: handle(4, false),
    };
    let cases = [
        (AuthorityType::MintTokens, spl_token::instruction::AuthorityType::MintTokens),
        (AuthorityType::FreezeAccount, spl_token::instruction::AuthorityType::FreezeAccount),
        (AuthorityType::AccountOwner, spl_token::instruction::AuthorityType::AccountOwner),
        (AuthorityType::CloseAccount, spl_token::instruction::AuthorityType::CloseAccount),
    ];
    for (ours, theirs) in cases {
        let call = proxy_set_authority(&accounts, ours, Some(key(8))).unwrap();
        assert_eq!(
            call.instruction,
            Instruction::SetAuthority {
                account_or_mint: key(5),
                current_authority: key(6),
                authority_type: theirs,
                new_authority: Some(key(8)),
            }
        );
        assert_eq!(call.instruction.authority(), key(6));
    }
}

#[test]
fn only_transfers_and_mints_credit_only_transfers_and_burns_debit() {
    let transfer =
        Instruction::Transfer { from: key(2), to: key(3), authority: key(1), amount: 10 };
    assert_eq!((transfer.credit(&key(3)), transfer.debit(&key(3))), (10, 0));
    assert_eq!((transfer.credit(&key(2)), transfer.debit(&key(2))), (0, 10));
    assert_eq!((transfer.credit(&key(1)), transfer.debit(&key(1))), (0, 0));
    let mint = Instruction::MintTo { mint: key(5), to: key(3), authority: key(1), amount: 10 };
    assert_eq!((mint.credit(&key(3)), mint.debit(&key(3))), (10, 0));
    assert_eq!((mint.credit(&key(5)), mint.debit(&key(5))), (0, 0));
    let burn = Instruction::Burn { mint: key(5), from: key(2), authority: key(1), amount: 10 };
    assert_eq!((burn.credit(&key(2)), burn.debit(&key(2))), (0, 10));
    let set = Instruction::SetAuthority {
        account_or_mint: key(5),
        current_authority: key(6),
        authority_type: spl_token::instruction::AuthorityType::CloseAccount,
        new_authority: None,
    };
    assert_eq!((set.credit(&key(5)), set.debit(&key(5))), (0, 0));
    assert_eq!(transfer.authority(), key(1));
    assert_eq!(mint.authority(), key(1));
    assert_eq!(burn.authority(), key(1));
}

#[test]
fn wire_values_follow_the_order_of_the_variants() {
    assert_eq!(AuthorityType::MintTokens.wire_value(), 0);
    assert_eq!(AuthorityType::FreezeAccount.wire_value(), 1);
    assert_eq!(AuthorityType::AccountOwner.wire_value(), 2);
    assert_eq!(AuthorityType::CloseAccount.wire_value(), 3);
    for value in 0..=255u8 {
        match AuthorityType::from_wire(value) {
            Some(tag) => {
                assert!(value <= 3);
                assert_eq!(tag.wire_value(), value);
            }
            None => assert!(value > 3),
        }
    }
}

#[test]
fn each_code_has_its_message() {
    assert_eq!(ErrorCode::IllegalAction.message(), "Transferring to illegal account");
    assert_eq!(ErrorCode::InvalidTimestamp.message(), "Not allowed to release coins rn");
}

#[test]
fn identities_are_equal_when_every_byte_is() {
    let mut bytes = [0u8; 32];
    assert_eq!(Identity { bytes }, Identity::unset());
    assert!(Identity { bytes }.is_unset());
    bytes[31] = 1;
    assert_ne!(Identity { bytes }, Identity::unset());
    assert!(!Identity { bytes }.is_unset());
    assert_eq!(Identity { bytes }, Identity { bytes });
    let mut other = bytes;
    other[0] = 1;
    assert_ne!(Identity { bytes }, Identity { bytes: other });
}
