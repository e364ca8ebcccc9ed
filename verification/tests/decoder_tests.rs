use program_subscribe::decoder::{token_2022_program_id, Token2022Account, Token2022Decoder};
use program_subscribe::decoder::AccountState;
use program_subscribe::pubkey::Pubkey;
use program_subscribe::worker::Account;

fn owned_account(data: Vec<u8>) -> Account {
    Account {
        lamports: 5,
        data,
        owner: token_2022_program_id(),
        executable: false,
        rent_epoch: 9,
    }
}

fn token_bytes() -> Vec<u8> {
    let mut b = vec![0u8; 165];
    for i in 0..32 {
        b[i] = 1;
    }
    for i in 32..64 {
        b[i] = 2;
    }
    b[64..72].copy_from_slice(&42u64.to_le_bytes());
    b[72] = 1;
    for i in 76..108 {
        b[i] = 3;
    }
    b[108] = 1;
    b[121..129].copy_from_slice(&7u64.to_le_bytes());
    b
}

fn mint_bytes() -> Vec<u8> {
    let mut b = vec![0u8; 82];
    b[0] = 1;
    for i in 4..36 {
        b[i] = 5;
    }
    b[36..44].copy_from_slice(&1000u64.to_le_bytes());
    b[44] = 9;
    b[45] = 1;
    b
}

fn multisig_bytes() -> Vec<u8> {
    let mut b = vec![0u8; 355];
    b[0] = 2;
    b[1] = 3;
    b[2] = 1;
    for s in 0..11u8 {
        for i in 0..32 {
            b[3 + 32 * (s as usize) + i] = s + 10;
        }
    }
    b
}

#[test]
fn program_id_matches_token_program() {
    let id = token_2022_program_id();
    assert_eq!(id.bytes, spl_token_2022::id().to_bytes().to_vec());
}

#[test]
fn decodes_token_account() {
    let decoder = Token2022Decoder {};
    let account = owned_account(token_bytes());
    let decoded = decoder.decode_account(&account).expect("token account decodes");
    assert_eq!(decoded.lamports, 5);
    assert_eq!(decoded.rent_epoch, 9);
    assert!(!decoded.executable);
    assert_eq!(decoded.owner.bytes, token_2022_program_id().bytes);
    match decoded.data {
        Token2022Account::Token(t) => {
            assert_eq!(t.mint.bytes, vec![1u8; 32]);
            assert_eq!(t.owner.bytes, vec![2u8; 32]);
            assert_eq!(t.amount, 42);
            assert_eq!(t.delegate.expect("delegate present").bytes, vec![3u8; 32]);
            assert_eq!(t.state, AccountState::Initialized);
            assert!(t.is_native.is_none());
            assert_eq!(t.delegated_amount, 7);
            assert!(t.close_authority.is_none());
        },
        _ => panic!("expected the token form"),
    }
}

#[test]
fn decodes_token_account_with_extension_bytes() {
    let decoder = Token2022Decoder {};
    let mut data = token_bytes();
    data.push(2);
    data.push(0);
    let decoded = decoder.decode_account(&owned_account(data)).expect("extended token decodes");
    assert!(matches!(decoded.data, Token2022Account::Token(_)));
}

#[test]
fn rejects_base_length_plus_only_type_marker() {
    let decoder = Token2022Decoder {};
    let mut data = token_bytes();
    data.push(2);
    assert!(decoder.decode_account(&owned_account(data)).is_none());
}

#[test]
fn decodes_mint_account() {
    let decoder = Token2022Decoder {};
    let decoded = decoder.decode_account(&owned_account(mint_bytes())).expect("mint decodes");
    match decoded.data {
        Token2022Account::Mint(m) => {
            assert_eq!(m.mint_authority.expect("authority present").bytes, vec![5u8; 32]);
            assert_eq!(m.supply, 1000);
            assert_eq!(m.decimals, 9);
            assert!(m.is_initialized);
            assert!(m.freeze_authority.is_none());
        },
        _ => panic!("expected the mint form"),
    }
}

#[test]
fn decodes_mint_account_with_extension_bytes() {
    let decoder = Token2022Decoder {};
    let mut data = mint_bytes();
    data.resize(165, 0);
    data.push(1);
    data.push(0);
    let decoded = decoder.decode_account(&owned_account(data)).expect("extended mint decodes");
    assert!(matches!(decoded.data, Token2022Account::Mint(_)));
}

#[test]
fn decodes_multisig_account() {
    let decoder = Token2022Decoder {};
    let decoded = decoder.decode_account(&owned_account(multisig_bytes())).expect(
        "multisig decodes",
    );
    match decoded.data {
        Token2022Account::Multisig(ms) => {
            assert_eq!(ms.m, 2);
            assert_eq!(ms.n, 3);
            assert!(ms.is_initialized);
            assert_eq!(ms.signers.len(), 11);
            for (s, key) in ms.signers.iter().enumerate() {
                assert_eq!(key.bytes, vec![s as u8 + 10; 32]);
            }
        },
        _ => panic!("expected the multisig form"),
    }
}

#[test]
fn rejects_foreign_owner() {
    let decoder = Token2022Decoder {};
    let account = Account {
        lamports: 5,
        data: token_bytes(),
        owner: Pubkey::new(vec![8u8; 32]),
        executable: false,
        rent_epoch: 9,
    };
    assert!(decoder.decode_account(&account).is_none());
}

#[test]
fn rejects_short_buffer() {
    let decoder = Token2022Decoder {};
    assert!(decoder.decode_account(&owned_account(vec![0u8; 10])).is_none());
}

#[test]
fn rejects_uninitialized_token_account() {
    let decoder = Token2022Decoder {};
    let mut data = token_bytes();
    data[108] = 0;
    assert!(decoder.decode_account(&owned_account(data)).is_none());
}

#[test]
fn rejects_multisig_with_bad_initialized_byte() {
    let decoder = Token2022Decoder {};
    let mut data = multisig_bytes();
    data[2] = 2;
    assert!(decoder.decode_account(&owned_account(data)).is_none());
}

#[test]
fn account_state_tags() {
    assert_eq!(AccountState::from_tag(0), Some(AccountState::Uninitialized));
    assert_eq!(AccountState::from_tag(1), Some(AccountState::Initialized));
    assert_eq!(AccountState::from_tag(2), Some(AccountState::Frozen));
    assert_eq!(AccountState::from_tag(3), None);
}
