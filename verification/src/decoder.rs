use vstd::prelude::*;

use crate::pubkey::Pubkey;
use crate::worker::Account;
use solana_program_pack::Pack;
use spl_token_2022::extension::StateWithExtensions;
use spl_token_2022::state;

verus! {

/// State of a token holding account.
#[derive(Clone, Copy, PartialEq, Eq, Structural, Debug)]
pub enum AccountState {
    Uninitialized,
    Initialized,
    Frozen,
}

/// A decoded mint account.
#[derive(Debug)]
pub struct Mint {
    pub mint_authority: Option<Pubkey>,
    pub supply: u64,
    pub decimals: u8,
    pub is_initialized: bool,
    pub freeze_authority: Option<Pubkey>,
}

/// A decoded token holding account.
#[derive(Debug)]
pub struct Token {
    pub mint: Pubkey,
    pub owner: Pubkey,
    pub amount: u64,
    pub delegate: Option<Pubkey>,
    pub state: AccountState,
    pub is_native: Option<u64>,
    pub delegated_amount: u64,
    pub close_authority: Option<Pubkey>,
}

/// A decoded multisignature account.
#[derive(Debug)]
pub struct Multisig {
    pub m: u8,
    pub n: u8,
    pub is_initialized: bool,
    pub signers: Vec<Pubkey>,
}

/// The three account forms the token program owns.
#[derive(Debug)]
pub enum Token2022Account {
    Mint(Mint),
    Token(Token),
    Multisig(Multisig),
}

/// A decoded account together with the fields of the snapshot it came from.
#[derive(Debug)]
pub struct DecodedAccount {
    pub lamports: u64,
    pub owner: Pubkey,
    pub executable: bool,
    pub rent_epoch: u64,
    pub data: Token2022Account,
}

/// The little-endian integer held in the eight bytes at `i`.
pub open spec fn le_u64_at(b: Seq<u8>, i: int) -> int {
    b[i] + b[i + 1] * 0x100 + b[i + 2] * 0x1_0000 + b[i + 3] * 0x100_0000 + b[i + 4]
        * 0x1_0000_0000 + b[i + 5] * 0x100_0000_0000 + b[i + 6] * 0x1_0000_0000_0000 + b[i + 7]
        * 0x100_0000_0000_0000
}

/// A four-byte option tag at `i`: zero for absent, one for present.
pub open spec fn option_tag_ok(b: Seq<u8>, i: int) -> bool {
    (b[i] == 0 || b[i] == 1) && b[i + 1] == 0 && b[i + 2] == 0 && b[i + 3] == 0
}

/// Reads the little-endian integer held in the eight bytes at `i`.
pub fn read_le_u64(b: &Vec<u8>, i: usize) -> (r: u64)
    requires
        i + 8 <= b@.len(),
    ensures
        r == le_u64_at(b@, i as int),
{
    let _n: usize = b.len();
    (b[i] as u64) + (b[i + 1] as u64) * 0x100 + (b[i + 2] as u64) * 0x1_0000 + (b[i + 3] as u64)
        * 0x100_0000 + (b[i + 4] as u64) * 0x1_0000_0000 + (b[i + 5] as u64) * 0x100_0000_0000 + (
    b[i + 6] as u64) * 0x1_0000_0000_0000 + (b[i + 7] as u64) * 0x100_0000_0000_0000
}

/// Reads the 32-byte key held at `i`.
pub fn read_key(b: &Vec<u8>, i: usize) -> (r: Pubkey)
    requires
        i + 32 <= b@.len(),
    ensures
        r@ == b@.subrange(i as int, i as int + 32),
{
    let n: usize = b.len();
    let mut bytes: Vec<u8> = Vec::new();
    let mut j: usize = 0;
    while j < 32
        invariant
            j <= 32,
            i + 32 <= b@.len(),
            b@.len() == n,
            bytes@ == b@.subrange(i as int, i as int + j),
        decreases 32 - j,
    {
        bytes.push(b[i + j]);
        proof {
            assert(bytes@ =~= b@.subrange(i as int, i as int + j + 1));
        }
        j = j + 1;
    }
    Pubkey::new(bytes)
}

/// Reads the tagged optional key held in the 36 bytes at `i`; `None`
/// where the tag is not a valid option tag.
pub fn read_option_key(b: &Vec<u8>, i: usize) -> (r: Option<Option<Pubkey>>)
    requires
        i + 36 <= b@.len(),
    ensures
        r is Some <==> option_tag_ok(b@, i as int),
        r matches Some(o) ==> (o is Some <==> b@[i as int] == 1),
        r matches Some(o) ==> (o matches Some(k) ==> k@ == b@.subrange(i as int + 4, i as int + 36)),
{
    let _n: usize = b.len();
    if b[i + 1] != 0 || b[i + 2] != 0 || b[i + 3] != 0 {
        return None;
    }
    if b[i] == 0 {
        Some(None)
    } else if b[i] == 1 {
        Some(Some(read_key(b, i + 4)))
    } else {
        None
    }
}

/// Reads the tagged optional integer held in the 12 bytes at `i`; `None`
/// where the tag is not a valid option tag.
pub fn read_option_u64(b: &Vec<u8>, i: usize) -> (r: Option<Option<u64>>)
    requires
        i + 12 <= b@.len(),
    ensures
        r is Some <==> option_tag_ok(b@, i as int),
        r matches Some(o) ==> (o is Some <==> b@[i as int] == 1),
        r matches Some(o) ==> (o matches Some(v) ==> v == le_u64_at(b@, i as int + 4)),
{
    let _n: usize = b.len();
    if b[i + 1] != 0 || b[i + 2] != 0 || b[i + 3] != 0 {
        return None;
    }
    if b[i] == 0 {
        Some(None)
    } else if b[i] == 1 {
        Some(Some(read_le_u64(b, i + 4)))
    } else {
        None
    }
}

/// The account state a state byte denotes (meaningful for bytes up to 2).
pub open spec fn spec_account_state(tag: u8) -> AccountState {
    if tag == 0 {
        AccountState::Uninitialized
    } else if tag == 1 {
        AccountState::Initialized
    } else {
        AccountState::Frozen
    }
}

impl AccountState {
    /// The state a wire byte denotes; bytes above 2 denote no state.
    pub fn from_tag(tag: u8) -> (r: Option<AccountState>)
        ensures
            r is Some <==> tag <= 2,
            r matches Some(s) ==> s == spec_account_state(tag),
    {
        if tag == 0 {
            Some(AccountState::Uninitialized)
        } else if tag == 1 {
            Some(AccountState::Initialized)
        } else if tag == 2 {
            Some(AccountState::Frozen)
        } else {
            None
        }
    }
}

/// The base fields of a token holding account parse: valid option tags
/// for delegate, native marker and close authority, and a known state byte.
pub open spec fn token_fields_ok(b: Seq<u8>) -> bool {
    &&& option_tag_ok(b, 72)
    &&& b[108] <= 2
    &&& option_tag_ok(b, 109)
    &&& option_tag_ok(b, 129)
}

/// `t` holds exactly the base fields laid out in the first 165 bytes.
pub open spec fn token_matches(b: Seq<u8>, t: Token) -> bool {
    &&& t.mint@ == b.subrange(0, 32)
    &&& t.owner@ == b.subrange(32, 64)
    &&& t.amount == le_u64_at(b, 64)
    &&& (t.delegate is Some <==> b[72] == 1)
    &&& (t.delegate matches Some(k) ==> k@ == b.subrange(76, 108))
    &&& t.state == spec_account_state(b[108])
    &&& (t.is_native is Some <==> b[109] == 1)
    &&& (t.is_native matches Some(v) ==> v == le_u64_at(b, 113))
    &&& t.delegated_amount == le_u64_at(b, 121)
    &&& (t.close_authority is Some <==> b[129] == 1)
    &&& (t.close_authority matches Some(k) ==> k@ == b.subrange(133, 165))
}

/// The base fields of a mint parse: valid option tags for the two
/// authorities and a boolean initialized byte.
pub open spec fn mint_fields_ok(b: Seq<u8>) -> bool {
    &&& option_tag_ok(b, 0)
    &&& b[45] == 0 || b[45] == 1
    &&& option_tag_ok(b, 46)
}

/// `m` holds exactly the base fields laid out in the first 82 bytes.
pub open spec fn mint_matches(b: Seq<u8>, m: Mint) -> bool {
    &&& (m.mint_authority is Some <==> b[0] == 1)
    &&& (m.mint_authority matches Some(k) ==> k@ == b.subrange(4, 36))
    &&& m.supply == le_u64_at(b, 36)
    &&& m.decimals == b[44]
    &&& m.is_initialized == (b[45] == 1)
    &&& (m.freeze_authority is Some <==> b[46] == 1)
    &&& (m.freeze_authority matches Some(k) ==> k@ == b.subrange(50, 82))
}

/// The fields of a multisignature account parse: a boolean initialized byte.
pub open spec fn multisig_fields_ok(b: Seq<u8>) -> bool {
    b[2] == 0 || b[2] == 1
}

/// `ms` holds exactly the fields laid out in the 355 bytes.
pub open spec fn multisig_matches(b: Seq<u8>, ms: Multisig) -> bool {
    &&& ms.m == b[0]
    &&& ms.n == b[1]
    &&& ms.is_initialized == (b[2] == 1)
    &&& ms.signers@.len() == 11
    &&& forall|i: int| 0 <= i < 11 ==> ms.signers@[i]@ == b.subrange(3 + 32 * i, 35 + 32 * i)
}

/// Parses the base layout of a token holding account from the first 165
/// bytes of `b`.
pub fn parse_token(b: &Vec<u8>) -> (r: Option<Token>)
    requires
        b@.len() >= 165,
    ensures
        r is Some <==> token_fields_ok(b@),
        r matches Some(t) ==> token_matches(b@, t),
{
    let delegate = match read_option_key(b, 72) {
        Some(d) => d,
        None => {
            return None;
        },
    };
    let state = match AccountState::from_tag(b[108]) {
        Some(s) => s,
        None => {
            return None;
        },
    };
    let is_native = match read_option_u64(b, 109) {
        Some(v) => v,
        None => {
            return None;
        },
    };
    let close_authority = match read_option_key(b, 129) {
        Some(c) => c,
        None => {
            return None;
        },
    };
    Some(
        Token {
            mint: read_key(b, 0),
            owner: read_key(b, 32),
            amount: read_le_u64(b, 64),
            delegate,
            state,
            is_native,
            delegated_amount: read_le_u64(b, 121),
            close_authority,
        },
    )
}

/// Parses the base layout of a mint from the first 82 bytes of `b`.
pub fn parse_mint(b: &Vec<u8>) -> (r: Option<Mint>)
    requires
        b@.len() >= 82,
    ensures
        r is Some <==> mint_fields_ok(b@),
        r matches Some(m) ==> mint_matches(b@, m),
{
    let mint_authority = match read_option_key(b, 0) {
        Some(a) => a,
        None => {
            return None;
        },
    };
    if b[45] > 1 {
        return None;
    }
    let freeze_authority = match read_option_key(b, 46) {
        Some(a) => a,
        None => {
            return None;
        },
    };
    Some(
        Mint {
            mint_authority,
            supply: read_le_u64(b, 36),
            decimals: b[44],
            is_initialized: b[45] == 1,
            freeze_authority,
        },
    )
}

/// Parses a multisignature account from the 355 bytes of `b`.
pub fn parse_multisig(b: &Vec<u8>) -> (r: Option<Multisig>)
    requires
        b@.len() >= 355,
    ensures
        r is Some <==> multisig_fields_ok(b@),
        r matches Some(ms) ==> multisig_matches(b@, ms),
{
    if b[2] > 1 {
        return None;
    }
    let mut signers: Vec<Pubkey> = Vec::new();
    let mut i: usize = 0;
    while i < 11
        invariant
            i <= 11,
            b@.len() >= 355,
            signers@.len() == i,
            forall|j: int| 0 <= j < i ==> signers@[j]@ == b@.subrange(3 + 32 * j, 35 + 32 * j),
        decreases 11 - i,
    {
        signers.push(read_key(b, 3 + 32 * i));
        i = i + 1;
    }
    Some(Multisig { m: b[0], n: b[1], is_initialized: b[2] == 1, signers })
}

/// The buffers on which unpacking a token holding account (base layout
/// with optional extension records) succeeds: base length, or base plus
/// the token-account type marker and at least one more byte; base fields
/// parse; state initialized; never the multisignature length.
pub open spec fn token_unpack_ok(data: Seq<u8>) -> bool {
    &&& data.len() >= 165
    &&& data.len() != 355
    &&& token_fields_ok(data)
    &&& data[108] != 0
    &&& data.len() == 165 || (data.len() >= 167 && data[165] == 2)
}

/// The buffers on which unpacking a mint (base layout with optional
/// extension records) succeeds: base length, or zero padding up to the
/// account-type index, the mint type marker and at least one more byte;
/// base fields parse; initialized; never the multisignature length.
pub open spec fn mint_unpack_ok(data: Seq<u8>) -> bool {
    &&& data.len() >= 82
    &&& data.len() != 355
    &&& mint_fields_ok(data)
    &&& data[45] == 1
    &&& data.len() == 82 || (data.len() >= 167 && (forall|i: int|
        82 <= i < 165 ==> data[i] == 0) && data[165] == 1)
}

/// The buffers on which unpacking a multisignature account succeeds:
/// exactly its length, with a boolean initialized byte.
pub open spec fn multisig_unpack_ok(data: Seq<u8>) -> bool {
    data.len() == 355 && (data[2] == 0 || data[2] == 1)
}

/// Relies on `spl_token_2022::extension::StateWithExtensions::<Account>::unpack`:
/// it accepts a buffer exactly under the conditions `token_unpack_ok`
/// states (minimum base length, never the multisignature length, base
/// fields parsing with an initialized state, and — where extension bytes
/// follow — the token-account type marker directly after the base).
#[verifier::external_body]
fn spl_token_unpack_ok(data: &Vec<u8>) -> (r: bool)
    ensures
        r == token_unpack_ok(data@),
{
    StateWithExtensions::<state::Account>::unpack(data.as_slice()).is_ok()
}

/// Relies on `spl_token_2022::extension::StateWithExtensions::<Mint>::unpack`:
/// it accepts a buffer exactly under the conditions `mint_unpack_ok`
/// states (minimum base length, never the multisignature length, base
/// fields parsing as initialized, and — where extension bytes follow —
/// zero padding up to the account-type index and the mint type marker).
#[verifier::external_body]
fn spl_mint_unpack_ok(data: &Vec<u8>) -> (r: bool)
    ensures
        r == mint_unpack_ok(data@),
{
    StateWithExtensions::<state::Mint>::unpack(data.as_slice()).is_ok()
}

/// Relies on `spl_token_2022::state::Multisig::unpack_unchecked`: it
/// accepts a buffer exactly under the conditions `multisig_unpack_ok`
/// states (exact length and a boolean initialized byte).
#[verifier::external_body]
fn spl_multisig_unpack_ok(data: &Vec<u8>) -> (r: bool)
    ensures
        r == multisig_unpack_ok(data@),
{
    <state::Multisig as Pack>::unpack_unchecked(data.as_slice()).is_ok()
}

/// The address that owns every account the decoder accepts.
pub open spec fn spec_token_2022_program_id() -> Seq<u8> {
    seq![
        6u8,
        221u8,
        246u8,
        225u8,
        238u8,
        117u8,
        143u8,
        222u8,
        24u8,
        66u8,
        93u8,
        188u8,
        228u8,
        108u8,
        205u8,
        218u8,
        182u8,
        26u8,
        252u8,
        77u8,
        131u8,
        185u8,
        13u8,
        39u8,
        254u8,
        189u8,
        249u8,
        40u8,
        216u8,
        161u8,
        139u8,
        252u8,
    ]
}

/// The token program's address, as plain bytes.
pub fn token_2022_program_id() -> (r: Pubkey)
    ensures
        r@ == spec_token_2022_program_id(),
{
    let bytes: Vec<u8> = vec![
        6u8, 221u8, 246u8, 225u8, 238u8, 117u8, 143u8, 222u8, 24u8, 66u8, 93u8, 188u8, 228u8,
        108u8, 205u8, 218u8, 182u8, 26u8, 252u8, 77u8, 131u8, 185u8, 13u8, 39u8, 254u8, 189u8,
        249u8, 40u8, 216u8, 161u8, 139u8, 252u8,
    ];
    proof {
        assert(bytes@ =~= spec_token_2022_program_id());
    }
    Pubkey::new(bytes)
}

/// Decoder for the account forms the token program owns.
pub struct Token2022Decoder {}

impl Token2022Decoder {
    /// Decodes an account snapshot owned by the token program: a token
    /// holding account, then a mint, then a multisignature account, in
    /// that order of preference; `None` for any other owner or buffer.
    pub fn decode_account(&self, account: &Account) -> (r: Option<DecodedAccount>)
        ensures
            account.owner@ != spec_token_2022_program_id() ==> r is None,
            r matches Some(d) ==> {
                &&& d.lamports == account.lamports
                &&& d.owner@ == account.owner@
                &&& d.executable == account.executable
                &&& d.rent_epoch == account.rent_epoch
            },
            account.owner@ == spec_token_2022_program_id() && token_unpack_ok(account.data@)
                ==> (r matches Some(d) && (d.data matches Token2022Account::Token(t)
                && token_matches(account.data@, t))),
            account.owner@ == spec_token_2022_program_id() && !token_unpack_ok(account.data@)
                && mint_unpack_ok(account.data@) ==> (r matches Some(d) && (
            d.data matches Token2022Account::Mint(m) && mint_matches(account.data@, m))),
            account.owner@ == spec_token_2022_program_id() && !token_unpack_ok(account.data@)
                && !mint_unpack_ok(account.data@) && multisig_unpack_ok(account.data@)
                ==> (r matches Some(d) && (d.data matches Token2022Account::Multisig(ms)
                && multisig_matches(account.data@, ms))),
            account.owner@ == spec_token_2022_program_id() && !token_unpack_ok(account.data@)
                && !mint_unpack_ok(account.data@) && !multisig_unpack_ok(account.data@) ==> r
                is None,
    {
        let pid = token_2022_program_id();
        if !account.owner.key_eq(&pid) {
            return None;
        }
        if spl_token_unpack_ok(&account.data) {
            match parse_token(&account.data) {
                Some(t) => {
                    return Some(
                        DecodedAccount {
                            lamports: account.lamports,
                            owner: account.owner.duplicate(),
                            executable: account.executable,
                            rent_epoch: account.rent_epoch,
                            data: Token2022Account::Token(t),
                        },
                    );
                },
                None => {
                    proof {
                        assert(false);
                    }
                    return None;
                },
            }
        }
        if spl_mint_unpack_ok(&account.data) {
            match parse_mint(&account.data) {
                Some(m) => {
                    return Some(
                        DecodedAccount {
                            lamports: account.lamports,
                            owner: account.owner.duplicate(),
                            executable: account.executable,
                            rent_epoch: account.rent_epoch,
                            data: Token2022Account::Mint(m),
                        },
                    );
                },
                None => {
                    proof {
                        assert(false);
                    }
                    return None;
                },
            }
        }
        if spl_multisig_unpack_ok(&account.data) {
            match parse_multisig(&account.data) {
                Some(ms) => {
                    return Some(
                        DecodedAccount {
                            lamports: account.lamports,
                            owner: account.owner.duplicate(),
                            executable: account.executable,
                            rent_epoch: account.rent_epoch,
                            data: Token2022Account::Multisig(ms),
                        },
                    );
                },
                None => {
                    proof {
                        assert(false);
                    }
                    return None;
                },
            }
        }
        None
    }
}

} // verus!
