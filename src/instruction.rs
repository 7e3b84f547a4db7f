use vstd::prelude::*;
use crate::codec::{base58_text, base64_text, base58_decode, encode_base58, encode_base64};
use crate::models::{AccountMeta, InstructionResponse};

verus! {

/// A 32-byte account address (an ed25519 public key or a derived address).
#[derive(Clone, Copy, Debug)]
pub struct Address {
    pub bytes: [u8; 32],
}

impl Address {
    pub fn new(bytes: [u8; 32]) -> (r: Address)
        ensures
            r.bytes@ == bytes@,
    {
        Address { bytes }
    }
}

/// One account reference of an instruction, with its signer and writable flags.
#[derive(Clone, Copy, Debug)]
pub struct AccountRef {
    pub address: Address,
    pub is_signer: bool,
    pub is_writable: bool,
}

impl AccountRef {
    pub fn new(bytes: [u8; 32], is_signer: bool, is_writable: bool) -> (r: AccountRef)
        ensures
            r@ == (AccountView { key: bytes@, is_signer, is_writable }),
    {
        AccountRef { address: Address { bytes }, is_signer, is_writable }
    }
}

/// An unsigned instruction: the program it targets, its ordered account
/// references and its opaque data.
#[derive(Debug)]
pub struct InstructionDescriptor {
    pub program_id: Address,
    pub accounts: Vec<AccountRef>,
    pub data: Vec<u8>,
}

impl InstructionDescriptor {
    pub fn from_parts(program_id: [u8; 32], accounts: Vec<AccountRef>, data: Vec<u8>) -> (r: InstructionDescriptor)
        ensures
            r.program_id.bytes@ == program_id@,
            r.accounts@ == accounts@,
            r.data@ == data@,
    {
        InstructionDescriptor { program_id: Address { bytes: program_id }, accounts, data }
    }
}

pub struct AccountView {
    pub key: Seq<u8>,
    pub is_signer: bool,
    pub is_writable: bool,
}

pub struct InstructionView {
    pub program_id: Seq<u8>,
    pub accounts: Seq<AccountView>,
    pub data: Seq<u8>,
}

impl View for AccountRef {
    type V = AccountView;

    open spec fn view(&self) -> AccountView {
        AccountView { key: self.address.bytes@, is_signer: self.is_signer, is_writable: self.is_writable }
    }
}

impl View for InstructionDescriptor {
    type V = InstructionView;

    open spec fn view(&self) -> InstructionView {
        InstructionView {
            program_id: self.program_id.bytes@,
            accounts: self.accounts@.map_values(|a: AccountRef| a@),
            data: self.data@,
        }
    }
}

/// An account reference that the instruction may write but that need not sign.
pub open spec fn writable(key: Seq<u8>) -> AccountView {
    AccountView { key, is_signer: false, is_writable: true }
}

/// An account reference that is only read and need not sign.
pub open spec fn readonly(key: Seq<u8>) -> AccountView {
    AccountView { key, is_signer: false, is_writable: false }
}

/// An account reference that is only read and must sign.
pub open spec fn readonly_signer(key: Seq<u8>) -> AccountView {
    AccountView { key, is_signer: true, is_writable: false }
}

/// An account reference that the instruction may write and that must sign.
pub open spec fn writable_signer(key: Seq<u8>) -> AccountView {
    AccountView { key, is_signer: true, is_writable: true }
}

/// The token program, `TokenkegQfeZyiNwAJbNbGKPFXCWuBvf9Ss623VQ5DA`.
pub open spec fn token_program_key() -> Seq<u8> {
    seq![
        6u8, 221, 246, 225, 215, 101, 161, 147, 217, 203, 225, 70, 206, 235, 121, 172,
        28, 180, 133, 237, 95, 91, 55, 145, 58, 140, 245, 133, 126, 255, 0, 169,
    ]
}

/// The rent sysvar, `SysvarRent111111111111111111111111111111111`.
pub open spec fn rent_sysvar_key() -> Seq<u8> {
    seq![
        6u8, 167, 213, 23, 25, 44, 92, 81, 33, 140, 201, 76, 61, 74, 241, 127,
        88, 218, 238, 8, 155, 161, 253, 68, 227, 219, 217, 138, 0, 0, 0, 0,
    ]
}

/// The system program, whose address is 32 zero bytes.
pub open spec fn system_program_key() -> Seq<u8> {
    Seq::new(32, |i: int| 0u8)
}

/// The eight little-endian bytes of `v`.
pub open spec fn le_u64(v: u64) -> Seq<u8> {
    Seq::new(8, |i: int| ((v as int / pow256(i)) % 256) as u8)
}

pub open spec fn pow256(i: int) -> int
    decreases i,
{
    if i <= 0 { 1 } else { 256 * pow256(i - 1) }
}

/// Token-program `InitializeMint` with no freeze authority: the mint (writable)
/// and the rent sysvar; data is tag 0, the decimals, the authority's bytes and
/// the tag of an absent freeze authority.
pub open spec fn initialize_mint_view(mint: Seq<u8>, authority: Seq<u8>, decimals: u8) -> InstructionView {
    InstructionView {
        program_id: token_program_key(),
        accounts: seq![writable(mint), readonly(rent_sysvar_key())],
        data: seq![0u8, decimals] + authority + seq![0u8],
    }
}

/// Token-program `MintTo` signed by a single authority: tag 7, then the amount.
pub open spec fn mint_to_view(mint: Seq<u8>, destination: Seq<u8>, authority: Seq<u8>, amount: u64) -> InstructionView {
    InstructionView {
        program_id: token_program_key(),
        accounts: seq![writable(mint), writable(destination), readonly_signer(authority)],
        data: seq![7u8] + le_u64(amount),
    }
}

/// Token-program `Transfer` signed by a single owner: tag 3, then the amount.
pub open spec fn token_transfer_view(source: Seq<u8>, destination: Seq<u8>, owner: Seq<u8>, amount: u64) -> InstructionView {
    InstructionView {
        program_id: token_program_key(),
        accounts: seq![writable(source), writable(destination), readonly_signer(owner)],
        data: seq![3u8] + le_u64(amount),
    }
}

/// System-program `Transfer`: the 32-bit variant index 2, then the lamports.
pub open spec fn system_transfer_view(from: Seq<u8>, to: Seq<u8>, lamports: u64) -> InstructionView {
    InstructionView {
        program_id: system_program_key(),
        accounts: seq![writable_signer(from), writable(to)],
        data: seq![2u8, 0, 0, 0] + le_u64(lamports),
    }
}

/// What `Pubkey::from_str` accepts: at most 44 characters of base58 that
/// decode to exactly 32 bytes.
pub open spec fn address_text(s: Seq<char>) -> Option<Seq<u8>> {
    match base58_decode(s) {
        Some(b) => if s.len() <= 44 && b.len() == 32 { Some(b) } else { None },
        None => None,
    }
}

/// The associated token account of a wallet for a mint, as
/// `get_associated_token_address` derives it.
pub uninterp spec fn associated_address(wallet: Seq<u8>, mint: Seq<u8>) -> Seq<u8>;

/// Relies on `Pubkey::from_str` of solana-program: refuses a text longer than
/// 44 bytes, then base58-decodes it and refuses a result other than 32 bytes.
/// Base58 is ASCII, so a text whose characters are not is refused either way.
#[verifier::external_body]
pub(crate) fn parse_address(s: &str) -> (r: Option<Address>)
    ensures
        match r {
            Some(a) => address_text(s@) == Some(a.bytes@),
            None => address_text(s@) is None,
        },
{
    s.parse::<solana_program::pubkey::Pubkey>().ok().map(|k| Address::new(k.to_bytes()))
}

/// Relies on `spl_associated_token_account::get_associated_token_address`.
#[verifier::external_body]
pub(crate) fn associated_token_address(wallet: &Address, mint: &Address) -> (r: Address)
    ensures
        r.bytes@ == associated_address(wallet.bytes@, mint.bytes@),
{
    let w = solana_program::pubkey::Pubkey::from(wallet.bytes);
    let m = solana_program::pubkey::Pubkey::from(mint.bytes);
    Address::new(spl_associated_token_account::get_associated_token_address(&w, &m).to_bytes())
}

/// Relies on `spl_token::instruction::initialize_mint` under `spl_token::id()`
/// with no freeze authority; it refuses only another program id.
#[verifier::external_body]
pub(crate) fn initialize_mint_instruction(mint: &Address, authority: &Address, decimals: u8) -> (r: Result<InstructionDescriptor, String>)
    ensures
        r is Ok,
        r is Ok ==> r->Ok_0@ == initialize_mint_view(mint.bytes@, authority.bytes@, decimals),
{
    let (m, a) = (solana_program::pubkey::Pubkey::from(mint.bytes), solana_program::pubkey::Pubkey::from(authority.bytes));
    let ix = spl_token::instruction::initialize_mint(&spl_token::id(), &m, &a, None, decimals).map_err(|e| e.to_string())?;
    let accounts = ix.accounts.iter().map(|x| AccountRef::new(x.pubkey.to_bytes(), x.is_signer, x.is_writable)).collect();
    Ok(InstructionDescriptor::from_parts(ix.program_id.to_bytes(), accounts, ix.data))
}

/// Relies on `spl_token::instruction::mint_to` under `spl_token::id()` with
/// no multisig signers; it refuses only another program id.
#[verifier::external_body]
pub(crate) fn mint_to_instruction(mint: &Address, destination: &Address, authority: &Address, amount: u64) -> (r: Result<InstructionDescriptor, String>)
    ensures
        r is Ok,
        r is Ok ==> r->Ok_0@ == mint_to_view(mint.bytes@, destination.bytes@, authority.bytes@, amount),
{
    let (m, d, a) = (solana_program::pubkey::Pubkey::from(mint.bytes), solana_program::pubkey::Pubkey::from(destination.bytes), solana_program::pubkey::Pubkey::from(authority.bytes));
    let ix = spl_token::instruction::mint_to(&spl_token::id(), &m, &d, &a, &[], amount).map_err(|e| e.to_string())?;
    let accounts = ix.accounts.iter().map(|x| AccountRef::new(x.pubkey.to_bytes(), x.is_signer, x.is_writable)).collect();
    Ok(InstructionDescriptor::from_parts(ix.program_id.to_bytes(), accounts, ix.data))
}

/// Relies on `spl_token::instruction::transfer` under `spl_token::id()` with
/// no multisig signers; it refuses only another program id.
#[verifier::external_body]
pub(crate) fn token_transfer_instruction(source: &Address, destination: &Address, owner: &Address, amount: u64) -> (r: Result<InstructionDescriptor, String>)
    ensures
        r is Ok,
        r is Ok ==> r->Ok_0@ == token_transfer_view(source.bytes@, destination.bytes@, owner.bytes@, amount),
{
    let (s, d, o) = (solana_program::pubkey::Pubkey::from(source.bytes), solana_program::pubkey::Pubkey::from(destination.bytes), solana_program::pubkey::Pubkey::from(owner.bytes));
    let ix = spl_token::instruction::transfer(&spl_token::id(), &s, &d, &o, &[], amount).map_err(|e| e.to_string())?;
    let accounts = ix.accounts.iter().map(|x| AccountRef::new(x.pubkey.to_bytes(), x.is_signer, x.is_writable)).collect();
    Ok(InstructionDescriptor::from_parts(ix.program_id.to_bytes(), accounts, ix.data))
}

/// Relies on `solana_program::system_instruction::transfer`, whose data is the
/// bincode encoding of `SystemInstruction::Transfer { lamports }`.
#[verifier::external_body]
pub(crate) fn system_transfer_instruction(from: &Address, to: &Address, lamports: u64) -> (r: InstructionDescriptor)
    ensures
        r@ == system_transfer_view(from.bytes@, to.bytes@, lamports),
{
    let (f, t) = (solana_program::pubkey::Pubkey::from(from.bytes), solana_program::pubkey::Pubkey::from(to.bytes));
    let ix = solana_program::system_instruction::transfer(&f, &t, lamports);
    let accounts = ix.accounts.iter().map(|x| AccountRef::new(x.pubkey.to_bytes(), x.is_signer, x.is_writable)).collect();
    InstructionDescriptor::from_parts(ix.program_id.to_bytes(), accounts, ix.data)
}

/// Whether `r` is `v` rendered for transport: every key in base58, in the
/// same order and with the same flags, and the data in base64.
pub open spec fn renders(v: InstructionView, r: InstructionResponse) -> bool {
    &&& r.program_id@ == base58_text(v.program_id)
    &&& r.accounts@.len() == v.accounts.len()
    &&& forall|i: int| 0 <= i < v.accounts.len() ==> {
        &&& (#[trigger] r.accounts@[i]).pubkey@ == base58_text(v.accounts[i].key)
        &&& r.accounts@[i].is_signer == v.accounts[i].is_signer
        &&& r.accounts@[i].is_writable == v.accounts[i].is_writable
    }
    &&& r.instruction_data@ == base64_text(v.data)
}

/// Renders an instruction for transport.
pub fn render_instruction(d: &InstructionDescriptor) -> (r: InstructionResponse)
    ensures
        renders(d@, r),
{
    let mut accounts: Vec<AccountMeta> = Vec::new();
    let n = d.accounts.len();
    let mut i: usize = 0;
    while i < n
        invariant
            n == d.accounts@.len(),
            i <= n,
            accounts@.len() == i,
            forall|j: int| 0 <= j < i ==> {
                &&& (#[trigger] accounts@[j]).pubkey@ == base58_text(d@.accounts[j].key)
                &&& accounts@[j].is_signer == d@.accounts[j].is_signer
                &&& accounts@[j].is_writable == d@.accounts[j].is_writable
            },
        decreases n - i,
    {
        let a = &d.accounts[i];
        let pubkey = encode_base58(a.address.bytes.as_slice());
        accounts.push(AccountMeta { pubkey, is_signer: a.is_signer, is_writable: a.is_writable });
        i = i + 1;
    }
    InstructionResponse {
        program_id: encode_base58(d.program_id.bytes.as_slice()),
        accounts,
        instruction_data: encode_base64(d.data.as_slice()),
    }
}

} // verus!
