//! The closed instruction set and its canonical encoding: a one-byte
//! variant tag followed by the variant's fixed-layout payload.  Decoding
//! fails on an unknown tag, a truncated buffer, or trailing bytes.

use vstd::prelude::*;
use vstd::bytes::lemma_auto_spec_u64_to_from_le_bytes;
use vstd::bytes::spec_u64_from_le_bytes;
use vstd::bytes::spec_u64_to_le_bytes;
use crate::codec::put_key;
use crate::codec::put_u64;
use crate::codec::read_key;
use crate::codec::read_u64;
use crate::error::Error;
use crate::state::FaucetConfig;
use crate::state::PublicKey;
use crate::state::lemma_key_view;
use crate::state::spec_key_of;

verus! {

/// One call into the processor.  `Unstake` and `Repay` are declared in the
/// instruction set but have no handler yet: they decode, and then fail as
/// unrecognized.
#[derive(Clone, Copy, Debug, PartialEq, Eq, Structural)]
pub enum Instruction {
    InitDebtType { debt_token: PublicKey, owner: PublicKey },
    InitVaultType {
        debt_type: PublicKey,
        collateral_token: PublicKey,
        collateral_token_holder: PublicKey,
        price_oracle: PublicKey,
    },
    InitVault { vault_type: PublicKey, owner: PublicKey },
    Stake { amount: u64, collateral_holder_nonce: u8 },
    Unstake { amount: u64 },
    Repay { amount: u64 },
    Borrow { amount: u64, debt_minter_nonce: u8 },
    InitFaucet { config: FaucetConfig },
    Drip { faucet_token_minter_nonce: u8 },
}

/// The canonical encoding of an instruction.
pub open spec fn spec_enc_instruction(i: Instruction) -> Seq<u8> {
    match i {
        Instruction::InitDebtType { debt_token, owner } => seq![0u8] + debt_token@ + owner@,
        Instruction::InitVaultType {
            debt_type,
            collateral_token,
            collateral_token_holder,
            price_oracle,
        } => seq![1u8] + debt_type@ + collateral_token@ + collateral_token_holder@ + price_oracle@,
        Instruction::InitVault { vault_type, owner } => seq![2u8] + vault_type@ + owner@,
        Instruction::Stake { amount, collateral_holder_nonce } => seq![3u8]
            + spec_u64_to_le_bytes(amount) + seq![collateral_holder_nonce],
        Instruction::Unstake { amount } => seq![4u8] + spec_u64_to_le_bytes(amount),
        Instruction::Repay { amount } => seq![5u8] + spec_u64_to_le_bytes(amount),
        Instruction::Borrow { amount, debt_minter_nonce } => seq![6u8]
            + spec_u64_to_le_bytes(amount) + seq![debt_minter_nonce],
        Instruction::InitFaucet { config } => seq![7u8] + spec_u64_to_le_bytes(config.amount),
        Instruction::Drip { faucet_token_minter_nonce } => seq![8u8]
            + seq![faucet_token_minter_nonce],
    }
}

/// The instruction a buffer decodes to, if it is a canonical encoding.
pub open spec fn spec_dec_instruction(d: Seq<u8>) -> Option<Instruction> {
    if d.len() < 1 {
        None
    } else if d[0] == 0 {
        if d.len() == 65 {
            Some(
                Instruction::InitDebtType {
                    debt_token: spec_key_of(d.subrange(1, 33)),
                    owner: spec_key_of(d.subrange(33, 65)),
                },
            )
        } else {
            None
        }
    } else if d[0] == 1 {
        if d.len() == 129 {
            Some(
                Instruction::InitVaultType {
                    debt_type: spec_key_of(d.subrange(1, 33)),
                    collateral_token: spec_key_of(d.subrange(33, 65)),
                    collateral_token_holder: spec_key_of(d.subrange(65, 97)),
                    price_oracle: spec_key_of(d.subrange(97, 129)),
                },
            )
        } else {
            None
        }
    } else if d[0] == 2 {
        if d.len() == 65 {
            Some(
                Instruction::InitVault {
                    vault_type: spec_key_of(d.subrange(1, 33)),
                    owner: spec_key_of(d.subrange(33, 65)),
                },
            )
        } else {
            None
        }
    } else if d[0] == 3 {
        if d.len() == 10 {
            Some(
                Instruction::Stake {
                    amount: spec_u64_from_le_bytes(d.subrange(1, 9)),
                    collateral_holder_nonce: d[9],
                },
            )
        } else {
            None
        }
    } else if d[0] == 4 {
        if d.len() == 9 {
            Some(Instruction::Unstake { amount: spec_u64_from_le_bytes(d.subrange(1, 9)) })
        } else {
            None
        }
    } else if d[0] == 5 {
        if d.len() == 9 {
            Some(Instruction::Repay { amount: spec_u64_from_le_bytes(d.subrange(1, 9)) })
        } else {
            None
        }
    } else if d[0] == 6 {
        if d.len() == 10 {
            Some(
                Instruction::Borrow {
                    amount: spec_u64_from_le_bytes(d.subrange(1, 9)),
                    debt_minter_nonce: d[9],
                },
            )
        } else {
            None
        }
    } else if d[0] == 7 {
        if d.len() == 9 {
            Some(
                Instruction::InitFaucet {
                    config: FaucetConfig { amount: spec_u64_from_le_bytes(d.subrange(1, 9)) },
                },
            )
        } else {
            None
        }
    } else if d[0] == 8 {
        if d.len() == 2 {
            Some(Instruction::Drip { faucet_token_minter_nonce: d[1] })
        } else {
            None
        }
    } else {
        None
    }
}

/// Encodes an instruction canonically.
pub fn encode_instruction(i: &Instruction) -> (r: Vec<u8>)
    ensures
        r@ == spec_enc_instruction(*i),
{
    let mut out: Vec<u8> = Vec::new();
    match i {
        Instruction::InitDebtType { debt_token, owner } => {
            out.push(0u8);
            put_key(&mut out, debt_token);
            put_key(&mut out, owner);
        },
        Instruction::InitVaultType {
            debt_type,
            collateral_token,
            collateral_token_holder,
            price_oracle,
        } => {
            out.push(1u8);
            put_key(&mut out, debt_type);
            put_key(&mut out, collateral_token);
            put_key(&mut out, collateral_token_holder);
            put_key(&mut out, price_oracle);
        },
        Instruction::InitVault { vault_type, owner } => {
            out.push(2u8);
            put_key(&mut out, vault_type);
            put_key(&mut out, owner);
        },
        Instruction::Stake { amount, collateral_holder_nonce } => {
            out.push(3u8);
            put_u64(&mut out, *amount);
            out.push(*collateral_holder_nonce);
        },
        Instruction::Unstake { amount } => {
            out.push(4u8);
            put_u64(&mut out, *amount);
        },
        Instruction::Repay { amount } => {
            out.push(5u8);
            put_u64(&mut out, *amount);
        },
        Instruction::Borrow { amount, debt_minter_nonce } => {
            out.push(6u8);
            put_u64(&mut out, *amount);
            out.push(*debt_minter_nonce);
        },
        Instruction::InitFaucet { config } => {
            out.push(7u8);
            put_u64(&mut out, config.amount);
        },
        Instruction::Drip { faucet_token_minter_nonce } => {
            out.push(8u8);
            out.push(*faucet_token_minter_nonce);
        },
    }
    proof {
        assert(out@ =~= spec_enc_instruction(*i));
    }
    out
}

/// Decodes an instruction buffer, failing on anything that is not a
/// canonical encoding.
pub fn decode_instruction(d: &Vec<u8>) -> (r: Result<Instruction, Error>)
    ensures
        match r {
            Ok(i) => spec_dec_instruction(d@) == Some(i),
            Err(e) => spec_dec_instruction(d@) is None && e == Error::InvalidInstructionData,
        },
{
    if d.len() < 1 {
        return Err(Error::InvalidInstructionData);
    }
    let tag = d[0];
    if tag == 0 {
        if d.len() != 65 {
            return Err(Error::InvalidInstructionData);
        }
        Ok(Instruction::InitDebtType { debt_token: read_key(d, 1), owner: read_key(d, 33) })
    } else if tag == 1 {
        if d.len() != 129 {
            return Err(Error::InvalidInstructionData);
        }
        Ok(
            Instruction::InitVaultType {
                debt_type: read_key(d, 1),
                collateral_token: read_key(d, 33),
                collateral_token_holder: read_key(d, 65),
                price_oracle: read_key(d, 97),
            },
        )
    } else if tag == 2 {
        if d.len() != 65 {
            return Err(Error::InvalidInstructionData);
        }
        Ok(Instruction::InitVault { vault_type: read_key(d, 1), owner: read_key(d, 33) })
    } else if tag == 3 {
        if d.len() != 10 {
            return Err(Error::InvalidInstructionData);
        }
        Ok(Instruction::Stake { amount: read_u64(d, 1), collateral_holder_nonce: d[9] })
    } else if tag == 4 {
        if d.len() != 9 {
            return Err(Error::InvalidInstructionData);
        }
        Ok(Instruction::Unstake { amount: read_u64(d, 1) })
    } else if tag == 5 {
        if d.len() != 9 {
            return Err(Error::InvalidInstructionData);
        }
        Ok(Instruction::Repay { amount: read_u64(d, 1) })
    } else if tag == 6 {
        if d.len() != 10 {
            return Err(Error::InvalidInstructionData);
        }
        Ok(Instruction::Borrow { amount: read_u64(d, 1), debt_minter_nonce: d[9] })
    } else if tag == 7 {
        if d.len() != 9 {
            return Err(Error::InvalidInstructionData);
        }
        Ok(Instruction::InitFaucet { config: FaucetConfig { amount: read_u64(d, 1) } })
    } else if tag == 8 {
        if d.len() != 2 {
            return Err(Error::InvalidInstructionData);
        }
        Ok(Instruction::Drip { faucet_token_minter_nonce: d[1] })
    } else {
        Err(Error::InvalidInstructionData)
    }
}

/// Decoding the canonical encoding of any instruction yields it back.
pub proof fn lemma_instruction_round_trip(i: Instruction)
    ensures
        spec_dec_instruction(spec_enc_instruction(i)) == Some(i),
{
    lemma_auto_spec_u64_to_from_le_bytes();
    let d = spec_enc_instruction(i);
    match i {
        Instruction::InitDebtType { debt_token, owner } => {
            lemma_key_view(debt_token);
            lemma_key_view(owner);
            assert(d.subrange(1, 33) =~= debt_token@);
            assert(d.subrange(33, 65) =~= owner@);
        },
        Instruction::InitVaultType {
            debt_type,
            collateral_token,
            collateral_token_holder,
            price_oracle,
        } => {
            lemma_key_view(debt_type);
            lemma_key_view(collateral_token);
            lemma_key_view(collateral_token_holder);
            lemma_key_view(price_oracle);
            assert(d.subrange(1, 33) =~= debt_type@);
            assert(d.subrange(33, 65) =~= collateral_token@);
            assert(d.subrange(65, 97) =~= collateral_token_holder@);
            assert(d.subrange(97, 129) =~= price_oracle@);
        },
        Instruction::InitVault { vault_type, owner } => {
            lemma_key_view(vault_type);
            lemma_key_view(owner);
            assert(d.subrange(1, 33) =~= vault_type@);
            assert(d.subrange(33, 65) =~= owner@);
        },
        Instruction::Stake { amount, collateral_holder_nonce } => {
            assert(d.subrange(1, 9) =~= spec_u64_to_le_bytes(amount));
        },
        Instruction::Unstake { amount } => {
            assert(d.subrange(1, 9) =~= spec_u64_to_le_bytes(amount));
        },
        Instruction::Repay { amount } => {
            assert(d.subrange(1, 9) =~= spec_u64_to_le_bytes(amount));
        },
        Instruction::Borrow { amount, debt_minter_nonce } => {
            assert(d.subrange(1, 9) =~= spec_u64_to_le_bytes(amount));
        },
        Instruction::InitFaucet { config } => {
            assert(d.subrange(1, 9) =~= spec_u64_to_le_bytes(config.amount));
        },
        Instruction::Drip { faucet_token_minter_nonce } => {
        },
    }
}

} // verus!
