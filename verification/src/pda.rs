use vstd::prelude::*;
use crate::addr::{Address, address_bytes, spec_address_bytes, spec_u64_le_bytes, u64_le_bytes};

verus! {

/// The program-derived address and bump for a seed list under a program
/// id.  Derivation hashes the seeds, so the result is named here and
/// supplied by `derive_program_address`; it is a function of the seeds
/// and the program id alone.  `None` covers the statistically improbable
/// event that no bump yields a valid derived address, and seed lists the
/// chain refuses (a seed over 32 bytes, more than 16 seeds).
pub uninterp spec fn pda_of(seeds: Seq<Seq<u8>>, program: Address) -> Option<(Address, u8)>;

/// The byte views of a built seed list.
pub open spec fn spec_seeds_view(s: Seq<Vec<u8>>) -> Seq<Seq<u8>> {
    s.map_values(|v: Vec<u8>| v@)
}

/// Relies on solana_program's `Pubkey::try_find_program_address`: the
/// derived address and bump seed for this seed list and program id.
#[verifier::external_body]
pub fn derive_program_address(seeds: &Vec<Vec<u8>>, program: &Address) -> (r: Option<
    (Address, u8),
>)
    ensures
        r == pda_of(spec_seeds_view(seeds@), *program),
{
    let ss: Vec<&[u8]> = seeds.iter().map(|s| s.as_slice()).collect();
    let pk = solana_program::pubkey::Pubkey::try_from(address_bytes(program).as_slice()).unwrap();
    solana_program::pubkey::Pubkey::try_find_program_address(&ss, &pk).map(|(a, bump)| {
        let x = a.to_bytes();
        let w = |i: usize| u64::from_be_bytes(x[i * 8..i * 8 + 8].try_into().unwrap());
        (Address { w0: w(0), w1: w(1), w2: w(2), w3: w(3) }, bump)
    })
}

/// Seed prefixes of the program's derived accounts.
pub open spec fn spec_seed_whitelist() -> Seq<u8> {
    seq![119u8, 104u8, 105u8, 116u8, 101u8, 108u8, 105u8, 115u8, 116u8]
}

fn seed_whitelist() -> (r: Vec<u8>)
    ensures
        r@ == spec_seed_whitelist(),
{
    let r: Vec<u8> = vec![119u8, 104u8, 105u8, 116u8, 101u8, 108u8, 105u8, 115u8, 116u8];
    proof {
        assert(r@ =~= spec_seed_whitelist());
    }
    r
}

pub open spec fn spec_seed_global_whitelist() -> Seq<u8> {
    seq![
        103u8, 108u8, 111u8, 98u8, 97u8, 108u8, 95u8, 119u8, 104u8, 105u8, 116u8, 101u8, 108u8,
        105u8, 115u8, 116u8,
    ]
}

fn seed_global_whitelist() -> (r: Vec<u8>)
    ensures
        r@ == spec_seed_global_whitelist(),
{
    let r: Vec<u8> = vec![
        103u8, 108u8, 111u8, 98u8, 97u8, 108u8, 95u8, 119u8, 104u8, 105u8, 116u8, 101u8, 108u8,
        105u8, 115u8, 116u8,
    ];
    proof {
        assert(r@ =~= spec_seed_global_whitelist());
    }
    r
}

pub open spec fn spec_seed_fund() -> Seq<u8> {
    seq![102u8, 117u8, 110u8, 100u8]
}

fn seed_fund() -> (r: Vec<u8>)
    ensures
        r@ == spec_seed_fund(),
{
    let r: Vec<u8> = vec![102u8, 117u8, 110u8, 100u8];
    proof {
        assert(r@ =~= spec_seed_fund());
    }
    r
}

pub open spec fn spec_seed_limit_order_sol_vault() -> Seq<u8> {
    seq![
        108u8, 105u8, 109u8, 105u8, 116u8, 95u8, 111u8, 114u8, 100u8, 101u8, 114u8, 95u8, 115u8,
        111u8, 108u8, 95u8, 118u8, 97u8, 117u8, 108u8, 116u8,
    ]
}

fn seed_limit_order_sol_vault() -> (r: Vec<u8>)
    ensures
        r@ == spec_seed_limit_order_sol_vault(),
{
    let r: Vec<u8> = vec![
        108u8, 105u8, 109u8, 105u8, 116u8, 95u8, 111u8, 114u8, 100u8, 101u8, 114u8, 95u8, 115u8,
        111u8, 108u8, 95u8, 118u8, 97u8, 117u8, 108u8, 116u8,
    ];
    proof {
        assert(r@ =~= spec_seed_limit_order_sol_vault());
    }
    r
}

pub open spec fn spec_seed_limit_order_vault_auth() -> Seq<u8> {
    seq![
        108u8, 105u8, 109u8, 105u8, 116u8, 95u8, 111u8, 114u8, 100u8, 101u8, 114u8, 95u8, 118u8,
        97u8, 117u8, 108u8, 116u8, 95u8, 97u8, 117u8, 116u8, 104u8,
    ]
}

fn seed_limit_order_vault_auth() -> (r: Vec<u8>)
    ensures
        r@ == spec_seed_limit_order_vault_auth(),
{
    let r: Vec<u8> = vec![
        108u8, 105u8, 109u8, 105u8, 116u8, 95u8, 111u8, 114u8, 100u8, 101u8, 114u8, 95u8, 118u8,
        97u8, 117u8, 108u8, 116u8, 95u8, 97u8, 117u8, 116u8, 104u8,
    ];
    proof {
        assert(r@ =~= spec_seed_limit_order_vault_auth());
    }
    r
}

pub open spec fn spec_seed_dca_order_sol_vault() -> Seq<u8> {
    seq![
        100u8, 99u8, 97u8, 95u8, 111u8, 114u8, 100u8, 101u8, 114u8, 95u8, 115u8, 111u8, 108u8,
        95u8, 118u8, 97u8, 117u8, 108u8, 116u8,
    ]
}

fn seed_dca_order_sol_vault() -> (r: Vec<u8>)
    ensures
        r@ == spec_seed_dca_order_sol_vault(),
{
    let r: Vec<u8> = vec![
        100u8, 99u8, 97u8, 95u8, 111u8, 114u8, 100u8, 101u8, 114u8, 95u8, 115u8, 111u8, 108u8,
        95u8, 118u8, 97u8, 117u8, 108u8, 116u8,
    ];
    proof {
        assert(r@ =~= spec_seed_dca_order_sol_vault());
    }
    r
}

pub open spec fn spec_seed_dca_order_vault_auth() -> Seq<u8> {
    seq![
        100u8, 99u8, 97u8, 95u8, 111u8, 114u8, 100u8, 101u8, 114u8, 95u8, 118u8, 97u8, 117u8,
        108u8, 116u8, 95u8, 97u8, 117u8, 116u8, 104u8,
    ]
}

fn seed_dca_order_vault_auth() -> (r: Vec<u8>)
    ensures
        r@ == spec_seed_dca_order_vault_auth(),
{
    let r: Vec<u8> = vec![
        100u8, 99u8, 97u8, 95u8, 111u8, 114u8, 100u8, 101u8, 114u8, 95u8, 118u8, 97u8, 117u8,
        108u8, 116u8, 95u8, 97u8, 117u8, 116u8, 104u8,
    ];
    proof {
        assert(r@ =~= spec_seed_dca_order_vault_auth());
    }
    r
}

/// Seeds of a fund whitelist record: `("whitelist", fund, mint)`.
pub open spec fn spec_whitelist_seeds(fund: Address, mint: Address) -> Seq<Seq<u8>> {
    seq![spec_seed_whitelist(), spec_address_bytes(fund), spec_address_bytes(mint)]
}

/// Derived address of the whitelist record of `mint` on `fund`.
pub open spec fn spec_whitelist_address(program: Address, fund: Address, mint: Address) -> Option<
    (Address, u8),
> {
    pda_of(spec_whitelist_seeds(fund, mint), program)
}

pub fn derive_whitelist_address(program: &Address, fund: &Address, mint: &Address) -> (r: Option<
    (Address, u8),
>)
    ensures
        r == spec_whitelist_address(*program, *fund, *mint),
{
    let mut seeds: Vec<Vec<u8>> = Vec::new();
    seeds.push(seed_whitelist());
    seeds.push(address_bytes(fund));
    seeds.push(address_bytes(mint));
    proof {
        assert(spec_seeds_view(seeds@) =~~= spec_whitelist_seeds(*fund, *mint));
    }
    derive_program_address(&seeds, program)
}

/// Seeds of a global whitelist record: `("global_whitelist", config, mint)`.
pub open spec fn spec_global_whitelist_seeds(config: Address, mint: Address) -> Seq<Seq<u8>> {
    seq![spec_seed_global_whitelist(), spec_address_bytes(config), spec_address_bytes(mint)]
}

pub open spec fn spec_global_whitelist_address(
    program: Address,
    config: Address,
    mint: Address,
) -> Option<(Address, u8)> {
    pda_of(spec_global_whitelist_seeds(config, mint), program)
}

pub fn derive_global_whitelist_address(program: &Address, config: &Address, mint: &Address) -> (r:
    Option<(Address, u8)>)
    ensures
        r == spec_global_whitelist_address(*program, *config, *mint),
{
    let mut seeds: Vec<Vec<u8>> = Vec::new();
    seeds.push(seed_global_whitelist());
    seeds.push(address_bytes(config));
    seeds.push(address_bytes(mint));
    proof {
        assert(spec_seeds_view(seeds@) =~~= spec_global_whitelist_seeds(*config, *mint));
    }
    derive_program_address(&seeds, program)
}

/// Seeds of a fund-state record: `("fund", config, manager, fund_id:le64)`.
pub open spec fn spec_fund_seeds(config: Address, manager: Address, fund_id: u64) -> Seq<Seq<u8>> {
    seq![
        spec_seed_fund(),
        spec_address_bytes(config),
        spec_address_bytes(manager),
        spec_u64_le_bytes(fund_id),
    ]
}

pub open spec fn spec_fund_address(
    program: Address,
    config: Address,
    manager: Address,
    fund_id: u64,
) -> Option<(Address, u8)> {
    pda_of(spec_fund_seeds(config, manager, fund_id), program)
}

pub fn derive_fund_address(program: &Address, config: &Address, manager: &Address, fund_id: u64) -> (r:
    Option<(Address, u8)>)
    ensures
        r == spec_fund_address(*program, *config, *manager, fund_id),
{
    let mut seeds: Vec<Vec<u8>> = Vec::new();
    seeds.push(seed_fund());
    seeds.push(address_bytes(config));
    seeds.push(address_bytes(manager));
    seeds.push(u64_le_bytes(fund_id));
    proof {
        assert(spec_seeds_view(seeds@) =~~= spec_fund_seeds(*config, *manager, fund_id));
    }
    derive_program_address(&seeds, program)
}

/// Seeds of a limit order's base-currency escrow and vault authority.
pub open spec fn spec_limit_sol_vault_seeds(order: Address) -> Seq<Seq<u8>> {
    seq![spec_seed_limit_order_sol_vault(), spec_address_bytes(order)]
}

pub open spec fn spec_limit_sol_vault_address(program: Address, order: Address) -> Option<
    (Address, u8),
> {
    pda_of(spec_limit_sol_vault_seeds(order), program)
}

pub fn derive_limit_sol_vault_address(program: &Address, order: &Address) -> (r: Option<
    (Address, u8),
>)
    ensures
        r == spec_limit_sol_vault_address(*program, *order),
{
    let mut seeds: Vec<Vec<u8>> = Vec::new();
    seeds.push(seed_limit_order_sol_vault());
    seeds.push(address_bytes(order));
    proof {
        assert(spec_seeds_view(seeds@) =~~= spec_limit_sol_vault_seeds(*order));
    }
    derive_program_address(&seeds, program)
}

pub open spec fn spec_limit_vault_auth_seeds(order: Address) -> Seq<Seq<u8>> {
    seq![spec_seed_limit_order_vault_auth(), spec_address_bytes(order)]
}

pub open spec fn spec_limit_vault_auth_address(program: Address, order: Address) -> Option<
    (Address, u8),
> {
    pda_of(spec_limit_vault_auth_seeds(order), program)
}

pub fn derive_limit_vault_auth_address(program: &Address, order: &Address) -> (r: Option<
    (Address, u8),
>)
    ensures
        r == spec_limit_vault_auth_address(*program, *order),
{
    let mut seeds: Vec<Vec<u8>> = Vec::new();
    seeds.push(seed_limit_order_vault_auth());
    seeds.push(address_bytes(order));
    proof {
        assert(spec_seeds_view(seeds@) =~~= spec_limit_vault_auth_seeds(*order));
    }
    derive_program_address(&seeds, program)
}

/// Seeds of a DCA order's base-currency escrow and vault authority.
pub open spec fn spec_dca_sol_vault_seeds(order: Address) -> Seq<Seq<u8>> {
    seq![spec_seed_dca_order_sol_vault(), spec_address_bytes(order)]
}

pub open spec fn spec_dca_sol_vault_address(program: Address, order: Address) -> Option<
    (Address, u8),
> {
    pda_of(spec_dca_sol_vault_seeds(order), program)
}

pub fn derive_dca_sol_vault_address(program: &Address, order: &Address) -> (r: Option<
    (Address, u8),
>)
    ensures
        r == spec_dca_sol_vault_address(*program, *order),
{
    let mut seeds: Vec<Vec<u8>> = Vec::new();
    seeds.push(seed_dca_order_sol_vault());
    seeds.push(address_bytes(order));
    proof {
        assert(spec_seeds_view(seeds@) =~~= spec_dca_sol_vault_seeds(*order));
    }
    derive_program_address(&seeds, program)
}

pub open spec fn spec_dca_vault_auth_seeds(order: Address) -> Seq<Seq<u8>> {
    seq![spec_seed_dca_order_vault_auth(), spec_address_bytes(order)]
}

pub open spec fn spec_dca_vault_auth_address(program: Address, order: Address) -> Option<
    (Address, u8),
> {
    pda_of(spec_dca_vault_auth_seeds(order), program)
}

pub fn derive_dca_vault_auth_address(program: &Address, order: &Address) -> (r: Option<
    (Address, u8),
>)
    ensures
        r == spec_dca_vault_auth_address(*program, *order),
{
    let mut seeds: Vec<Vec<u8>> = Vec::new();
    seeds.push(seed_dca_order_vault_auth());
    seeds.push(address_bytes(order));
    proof {
        assert(spec_seeds_view(seeds@) =~~= spec_dca_vault_auth_seeds(*order));
    }
    derive_program_address(&seeds, program)
}

/// The fungible-token program's id.
pub open spec fn spec_token_program_id() -> Address {
    Address { w0: 0x06ddf6e1d765a193, w1: 0xd9cbe146ceeb79ac, w2: 0x1cb485ed5f5b3791, w3: 0x3a8cf5857eff00a9 }
}

pub fn token_program_id() -> (r: Address)
    ensures
        r == spec_token_program_id(),
{
    Address { w0: 0x06ddf6e1d765a193, w1: 0xd9cbe146ceeb79ac, w2: 0x1cb485ed5f5b3791, w3: 0x3a8cf5857eff00a9 }
}

/// The associated-token program's id.
pub open spec fn spec_ata_program_id() -> Address {
    Address { w0: 0x8c97258f4e2489f1, w1: 0xbb3d1029148e0d83, w2: 0x0b5a1399daff1084, w3: 0x048e7bd8dbe9f859 }
}

pub fn ata_program_id() -> (r: Address)
    ensures
        r == spec_ata_program_id(),
{
    Address { w0: 0x8c97258f4e2489f1, w1: 0xbb3d1029148e0d83, w2: 0x0b5a1399daff1084, w3: 0x048e7bd8dbe9f859 }
}

/// The wrapped-native mint's id.
pub open spec fn spec_native_mint() -> Address {
    Address { w0: 0x069b8857feab8184, w1: 0xfb687f634618c035, w2: 0xdac439dc1aeb3b55, w3: 0x98a0f00000000001 }
}

pub fn native_mint() -> (r: Address)
    ensures
        r == spec_native_mint(),
{
    Address { w0: 0x069b8857feab8184, w1: 0xfb687f634618c035, w2: 0xdac439dc1aeb3b55, w3: 0x98a0f00000000001 }
}

/// The configured external swap aggregator's program id.
pub open spec fn spec_swap_aggregator_id() -> Address {
    Address { w0: 0x0479d55bf231c06e, w1: 0xee74c56ece681507, w2: 0xfdb1b2dea3f48e51, w3: 0x02b1cda256bc138f }
}

pub fn swap_aggregator_id() -> (r: Address)
    ensures
        r == spec_swap_aggregator_id(),
{
    Address { w0: 0x0479d55bf231c06e, w1: 0xee74c56ece681507, w2: 0xfdb1b2dea3f48e51, w3: 0x02b1cda256bc138f }
}

/// Seeds of the associated token account of `wallet` for `mint` under
/// the token program: `(wallet, token_program, mint)` under the
/// associated-token program.
pub open spec fn spec_ata_seeds(wallet: Address, mint: Address) -> Seq<Seq<u8>> {
    seq![
        spec_address_bytes(wallet),
        spec_address_bytes(spec_token_program_id()),
        spec_address_bytes(mint),
    ]
}

/// The associated token account address of `wallet` for `mint`, `None`
/// in the improbable event that no bump yields a valid derivation.
pub open spec fn spec_ata_address(wallet: Address, mint: Address) -> Option<Address> {
    match pda_of(spec_ata_seeds(wallet, mint), spec_ata_program_id()) {
        Some((a, _bump)) => Some(a),
        None => None,
    }
}

pub fn derive_ata_address(wallet: &Address, mint: &Address) -> (r: Option<Address>)
    ensures
        r == spec_ata_address(*wallet, *mint),
{
    let mut seeds: Vec<Vec<u8>> = Vec::new();
    seeds.push(address_bytes(wallet));
    seeds.push(address_bytes(&token_program_id()));
    seeds.push(address_bytes(mint));
    proof {
        assert(spec_seeds_view(seeds@) =~~= spec_ata_seeds(*wallet, *mint));
    }
    match derive_program_address(&seeds, &ata_program_id()) {
        Some((a, _bump)) => Some(a),
        None => None,
    }
}

} // verus!
