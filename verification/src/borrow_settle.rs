use vstd::prelude::*;
use crate::addr::Address;
use crate::errors::ErrorCode;
use crate::nav::{ata_matches, derived_matches};
use crate::pda::{derive_ata_address, derive_whitelist_address, spec_ata_address, spec_whitelist_address};
use crate::state::{FundState, FundWhitelist, InstructionView, TokenAccountData, Trading, FUND_TYPE_TRADING};

verus! {

/// The leading bytes that mark a settle instruction of this program.
pub open spec fn spec_settle_discriminator() -> Seq<u8> {
    seq![3u8, 130u8, 133u8, 180u8, 251u8, 87u8, 242u8, 250u8]
}

fn settle_discriminator() -> (r: Vec<u8>)
    ensures
        r@ == spec_settle_discriminator(),
{
    let r: Vec<u8> = vec![3u8, 130u8, 133u8, 180u8, 251u8, 87u8, 242u8, 250u8];
    proof {
        assert(r@ =~= spec_settle_discriminator());
    }
    r
}

/// Is this instruction a settle instruction of this program: invoked on
/// the program itself, with data starting in the settle discriminator?
pub open spec fn spec_is_settle_instruction(ix: InstructionView, program: Address) -> bool {
    &&& ix.program_id == program
    &&& ix.data@.len() >= 8
    &&& ix.data@.take(8) == spec_settle_discriminator()
}

/// Index of the first settle instruction at or after `idx`, if any.
pub open spec fn spec_find_settle(
    instructions: Seq<InstructionView>,
    program: Address,
    idx: int,
) -> Option<int>
    decreases instructions.len() - idx,
{
    if idx < 0 || idx >= instructions.len() {
        None
    } else if spec_is_settle_instruction(instructions[idx], program) {
        Some(idx)
    } else {
        spec_find_settle(instructions, program, idx + 1)
    }
}

proof fn lemma_find_settle_skip(
    instructions: Seq<InstructionView>,
    program: Address,
    start: int,
    k: int,
)
    requires
        0 <= start <= k <= instructions.len(),
        forall|i: int|
            start <= i < k ==> !spec_is_settle_instruction(#[trigger] instructions[i], program),
    ensures
        spec_find_settle(instructions, program, start) == spec_find_settle(
            instructions,
            program,
            k,
        ),
    decreases k - start,
{
    if start < k {
        lemma_find_settle_skip(instructions, program, start + 1, k);
    }
}

/// The first six declared accounts a matching settle instruction must
/// name: manager, config, fund state, fund vault, output whitelist and
/// output token vault, in that order.
pub open spec fn spec_settle_accounts_match(
    ix: InstructionView,
    manager: Address,
    config_key: Address,
    fund_key: Address,
    vault_key: Address,
    whitelist_addr: Address,
    token_vault_addr: Address,
) -> bool {
    &&& ix.accounts@.len() >= 6
    &&& ix.accounts@[0] == manager
    &&& ix.accounts@[1] == config_key
    &&& ix.accounts@[2] == fund_key
    &&& ix.accounts@[3] == vault_key
    &&& ix.accounts@[4] == whitelist_addr
    &&& ix.accounts@[5] == token_vault_addr
}

/// The lamports a successful borrow moves from the fund vault to the
/// manager.
#[derive(Clone, Copy, PartialEq, Eq, Structural, Debug)]
pub struct BorrowOutcome {
    pub lamports_to_manager: u64,
}

/// A manager borrow against the fund vault.  The fund must be unlocked,
/// the output mint an enabled whitelist of the fund at its derived
/// addresses, the vault liquid enough — and the same transaction must
/// carry, after the current instruction, a settle instruction of this
/// program whose first six accounts name exactly this borrow's
/// accounts.  On success the escrow record locks with balance
/// snapshots, and `amount_in` lamports leave the vault for the manager.
pub open spec fn spec_borrow_for_swap(
    fund: FundState,
    trading: Trading,
    program: Address,
    config_key: Address,
    fund_key: Address,
    manager: Address,
    manager_receive: Address,
    whitelist_addr: Address,
    output_whitelist: FundWhitelist,
    token_vault_addr: Address,
    output_token_vault: TokenAccountData,
    vault_lamports: u64,
    instructions: Seq<InstructionView>,
    current_index: int,
    amount_in: u64,
    min_amount_out: u64,
) -> Result<(Trading, BorrowOutcome), ErrorCode> {
    if trading.is_locked {
        Err(ErrorCode::FundLocked)
    } else if amount_in == 0 {
        Err(ErrorCode::MathOverflow)
    } else if min_amount_out == 0 {
        Err(ErrorCode::InvalidMinOut)
    } else if fund.manager != manager {
        Err(ErrorCode::Unauthorized)
    } else if manager_receive != manager {
        Err(ErrorCode::InvalidReceiver)
    } else if !output_whitelist.enabled {
        Err(ErrorCode::InvalidTokenVault)
    } else if output_whitelist.fund != fund_key {
        Err(ErrorCode::InvalidTokenVault)
    } else if !derived_matches(
        spec_whitelist_address(program, fund_key, output_whitelist.mint),
        whitelist_addr,
    ) {
        Err(ErrorCode::InvalidTokenVault)
    } else if !ata_matches(spec_ata_address(fund_key, output_whitelist.mint), token_vault_addr) {
        Err(ErrorCode::InvalidTokenVault)
    } else if output_token_vault.mint != output_whitelist.mint {
        Err(ErrorCode::InvalidTokenVault)
    } else if vault_lamports < amount_in {
        Err(ErrorCode::InsufficientLiquidity)
    } else {
        match spec_find_settle(instructions, program, current_index + 1) {
            None => Err(ErrorCode::MissingSettleInstruction),
            Some(k) => {
                if !spec_settle_accounts_match(
                    instructions[k],
                    manager,
                    config_key,
                    fund_key,
                    fund.vault,
                    whitelist_addr,
                    token_vault_addr,
                ) {
                    Err(ErrorCode::InvalidSettleInstruction)
                } else {
                    Ok(
                        (
                            Trading {
                                fund: trading.fund,
                                is_locked: true,
                                borrow_amount: amount_in,
                                expected_min_out: min_amount_out,
                                snapshot_sol: vault_lamports,
                                snapshot_output: output_token_vault.amount,
                                output_mint: output_whitelist.mint,
                                bump: trading.bump,
                            },
                            BorrowOutcome { lamports_to_manager: amount_in },
                        ),
                    )
                }
            },
        }
    }
}

fn instruction_is_settle(ix: &InstructionView, program: &Address) -> (r: bool)
    ensures
        r == spec_is_settle_instruction(*ix, *program),
{
    if ix.program_id != *program {
        return false;
    }
    if ix.data.len() < 8 {
        return false;
    }
    let disc = settle_discriminator();
    let mut i: usize = 0;
    while i < 8
        invariant
            0 <= i <= 8,
            ix.data@.len() >= 8,
            disc@ == spec_settle_discriminator(),
            forall|t: int| 0 <= t < i ==> ix.data@[t] == spec_settle_discriminator()[t],
        decreases 8 - i,
    {
        if ix.data[i] != disc[i] {
            proof {
                assert(ix.data@.take(8)[i as int] != spec_settle_discriminator()[i as int]);
            }
            return false;
        }
        i = i + 1;
    }
    proof {
        assert(ix.data@.take(8) =~= spec_settle_discriminator());
    }
    true
}

#[verifier::loop_isolation(false)]
pub fn borrow_for_swap(
    fund: &FundState,
    trading: &mut Trading,
    program_id: &Address,
    config_key: &Address,
    fund_key: &Address,
    manager: &Address,
    manager_receive: &Address,
    whitelist_addr: &Address,
    output_whitelist: &FundWhitelist,
    token_vault_addr: &Address,
    output_token_vault: &TokenAccountData,
    vault_lamports: u64,
    instructions: &Vec<InstructionView>,
    current_index: usize,
    amount_in: u64,
    min_amount_out: u64,
) -> (r: Result<BorrowOutcome, ErrorCode>)
    ensures
        (match r {
            Ok(o) => spec_borrow_for_swap(
                *fund,
                *old(trading),
                *program_id,
                *config_key,
                *fund_key,
                *manager,
                *manager_receive,
                *whitelist_addr,
                *output_whitelist,
                *token_vault_addr,
                *output_token_vault,
                vault_lamports,
                instructions@,
                current_index as int,
                amount_in,
                min_amount_out,
            ) == Ok::<(Trading, BorrowOutcome), ErrorCode>((*final(trading), o)),
            Err(e) => *final(trading) == *old(trading) && spec_borrow_for_swap(
                *fund,
                *old(trading),
                *program_id,
                *config_key,
                *fund_key,
                *manager,
                *manager_receive,
                *whitelist_addr,
                *output_whitelist,
                *token_vault_addr,
                *output_token_vault,
                vault_lamports,
                instructions@,
                current_index as int,
                amount_in,
                min_amount_out,
            ) == Err::<(Trading, BorrowOutcome), ErrorCode>(e),
        }),
        r is Ok ==> final(trading).is_locked && final(trading).borrow_amount == amount_in
            && final(trading).expected_min_out == min_amount_out,
{
    if trading.is_locked {
        return Err(ErrorCode::FundLocked);
    }
    if amount_in == 0 {
        return Err(ErrorCode::MathOverflow);
    }
    if min_amount_out == 0 {
        return Err(ErrorCode::InvalidMinOut);
    }
    if fund.manager != *manager {
        return Err(ErrorCode::Unauthorized);
    }
    if *manager_receive != *manager {
        return Err(ErrorCode::InvalidReceiver);
    }
    if !output_whitelist.enabled {
        return Err(ErrorCode::InvalidTokenVault);
    }
    if output_whitelist.fund != *fund_key {
        return Err(ErrorCode::InvalidTokenVault);
    }
    let derived_ok = match derive_whitelist_address(program_id, fund_key, &output_whitelist.mint) {
        Some(p) => p.0 == *whitelist_addr,
        None => false,
    };
    if !derived_ok {
        return Err(ErrorCode::InvalidTokenVault);
    }
    let ata_ok = match derive_ata_address(fund_key, &output_whitelist.mint) {
        Some(a) => a == *token_vault_addr,
        None => false,
    };
    if !ata_ok {
        return Err(ErrorCode::InvalidTokenVault);
    }
    if output_token_vault.mint != output_whitelist.mint {
        return Err(ErrorCode::InvalidTokenVault);
    }
    if vault_lamports < amount_in {
        return Err(ErrorCode::InsufficientLiquidity);
    }
    let n = instructions.len();
    let mut k: usize = if current_index >= n {
        n
    } else {
        current_index + 1
    };
    let ghost start: int = current_index + 1;
    proof {
        if current_index >= n {
            assert(spec_find_settle(instructions@, *program_id, start) is None);
        }
    }
    while k < n
        invariant
            k <= n,
            start <= k || (current_index >= n && k == n),
            *trading == *old(trading),
            spec_find_settle(instructions@, *program_id, start) == spec_find_settle(
                instructions@,
                *program_id,
                k as int,
            ),
        decreases n - k,
    {
        if instruction_is_settle(&instructions[k], program_id) {
            let ix = &instructions[k];
            let accounts_match = ix.accounts.len() >= 6 && {
                let a = &ix.accounts;
                a[0] == *manager && a[1] == *config_key && a[2] == *fund_key && a[3] == fund.vault
                    && a[4] == *whitelist_addr && a[5] == *token_vault_addr
            };
            proof {
                assert(spec_find_settle(instructions@, *program_id, k as int) == Some(k as int));
            }
            if !accounts_match {
                return Err(ErrorCode::InvalidSettleInstruction);
            }
            let new_trading = Trading {
                fund: trading.fund,
                is_locked: true,
                borrow_amount: amount_in,
                expected_min_out: min_amount_out,
                snapshot_sol: vault_lamports,
                snapshot_output: output_token_vault.amount,
                output_mint: output_whitelist.mint,
                bump: trading.bump,
            };
            *trading = new_trading;
            return Ok(BorrowOutcome { lamports_to_manager: amount_in });
        }
        k = k + 1;
    }
    Err(ErrorCode::MissingSettleInstruction)
}

/// A settle closes the borrow window: the fund vault must have lost
/// exactly the borrowed lamports through the swap, and the declared
/// output vault must have gained at least the promised minimum.  On
/// success the escrow record is cleared.
pub open spec fn spec_settle_swap(
    fund: FundState,
    trading: Trading,
    program: Address,
    fund_key: Address,
    manager: Address,
    whitelist_addr: Address,
    output_whitelist: FundWhitelist,
    token_vault_addr: Address,
    output_token_vault: TokenAccountData,
    vault_lamports: u64,
) -> Result<Trading, ErrorCode> {
    if !trading.is_locked {
        Err(ErrorCode::FundNotLocked)
    } else if fund.fund_type != FUND_TYPE_TRADING {
        Err(ErrorCode::InvalidFundType)
    } else if fund.manager != manager {
        Err(ErrorCode::Unauthorized)
    } else if trading.output_mint != output_whitelist.mint {
        Err(ErrorCode::InvalidTokenVault)
    } else if !output_whitelist.enabled {
        Err(ErrorCode::InvalidTokenVault)
    } else if !derived_matches(
        spec_whitelist_address(program, fund_key, output_whitelist.mint),
        whitelist_addr,
    ) {
        Err(ErrorCode::InvalidTokenVault)
    } else if !ata_matches(spec_ata_address(fund_key, output_whitelist.mint), token_vault_addr) {
        Err(ErrorCode::InvalidTokenVault)
    } else if output_token_vault.mint != output_whitelist.mint {
        Err(ErrorCode::InvalidTokenVault)
    } else if trading.snapshot_sol < trading.borrow_amount {
        Err(ErrorCode::MathOverflow)
    } else if vault_lamports != trading.snapshot_sol - trading.borrow_amount {
        Err(ErrorCode::InvalidTokenVault)
    } else if output_token_vault.amount < trading.snapshot_output {
        Err(ErrorCode::MathOverflow)
    } else if output_token_vault.amount - trading.snapshot_output < trading.expected_min_out {
        Err(ErrorCode::InvalidTokenVault)
    } else {
        Ok(Trading::spec_cleared(trading.fund, trading.bump))
    }
}

pub fn settle_swap(
    fund: &FundState,
    trading: &mut Trading,
    program_id: &Address,
    fund_key: &Address,
    manager: &Address,
    whitelist_addr: &Address,
    output_whitelist: &FundWhitelist,
    token_vault_addr: &Address,
    output_token_vault: &TokenAccountData,
    vault_lamports: u64,
) -> (r: Result<(), ErrorCode>)
    ensures
        (match r {
            Ok(()) => spec_settle_swap(
                *fund,
                *old(trading),
                *program_id,
                *fund_key,
                *manager,
                *whitelist_addr,
                *output_whitelist,
                *token_vault_addr,
                *output_token_vault,
                vault_lamports,
            ) == Ok::<Trading, ErrorCode>(*final(trading)),
            Err(e) => *final(trading) == *old(trading) && spec_settle_swap(
                *fund,
                *old(trading),
                *program_id,
                *fund_key,
                *manager,
                *whitelist_addr,
                *output_whitelist,
                *token_vault_addr,
                *output_token_vault,
                vault_lamports,
            ) == Err::<Trading, ErrorCode>(e),
        }),
        r is Ok ==> !final(trading).is_locked && final(trading).borrow_amount == 0,
{
    if !trading.is_locked {
        return Err(ErrorCode::FundNotLocked);
    }
    if fund.fund_type != FUND_TYPE_TRADING {
        return Err(ErrorCode::InvalidFundType);
    }
    if fund.manager != *manager {
        return Err(ErrorCode::Unauthorized);
    }
    if trading.output_mint != output_whitelist.mint {
        return Err(ErrorCode::InvalidTokenVault);
    }
    if !output_whitelist.enabled {
        return Err(ErrorCode::InvalidTokenVault);
    }
    let derived_ok = match derive_whitelist_address(program_id, fund_key, &output_whitelist.mint) {
        Some(p) => p.0 == *whitelist_addr,
        None => false,
    };
    if !derived_ok {
        return Err(ErrorCode::InvalidTokenVault);
    }
    let ata_ok = match derive_ata_address(fund_key, &output_whitelist.mint) {
        Some(a) => a == *token_vault_addr,
        None => false,
    };
    if !ata_ok {
        return Err(ErrorCode::InvalidTokenVault);
    }
    if output_token_vault.mint != output_whitelist.mint {
        return Err(ErrorCode::InvalidTokenVault);
    }
    let expected_sol = match trading.snapshot_sol.checked_sub(trading.borrow_amount) {
        Some(v) => v,
        None => { return Err(ErrorCode::MathOverflow) },
    };
    if vault_lamports != expected_sol {
        return Err(ErrorCode::InvalidTokenVault);
    }
    let output_delta = match output_token_vault.amount.checked_sub(trading.snapshot_output) {
        Some(v) => v,
        None => { return Err(ErrorCode::MathOverflow) },
    };
    if output_delta < trading.expected_min_out {
        return Err(ErrorCode::InvalidTokenVault);
    }
    let cleared = Trading {
        fund: trading.fund,
        is_locked: false,
        borrow_amount: 0,
        expected_min_out: 0,
        snapshot_sol: 0,
        snapshot_output: 0,
        output_mint: Address::zero(),
        bump: trading.bump,
    };
    *trading = cleared;
    Ok(())
}

} // verus!
