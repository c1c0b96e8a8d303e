use vstd::prelude::*;

verus! {

/// The accounts that an instruction moves lamports or tokens between.
#[derive(Clone, Copy, Debug, PartialEq, Eq)]
pub enum Party {
    /// The user who signs the instruction.
    Signer,
    /// The creator of the market, who earns a royalty on every trade.
    Creator,
    /// The vault that collects the administrator's royalty.
    AdminVault,
    /// The market's lamport reserve.
    SolReserve,
    /// The market's token account.
    TokenReserve,
    /// The signer's token account for the market's mint.
    SignerTokenAccount,
}

/// One transfer that an instruction asks the runtime to perform.
#[derive(Clone, Copy, Debug, PartialEq, Eq)]
pub enum Payment {
    /// Lamports moved by the system program.
    Lamports { from: Party, to: Party, amount: u64 },
    /// Tokens moved by the token program, checked against the mint's decimals.
    Tokens { from: Party, to: Party, amount: u64, decimals: u8 },
}

/// What `party` gains in lamports from one payment (negative when it pays).
pub open spec fn lamport_delta(p: Payment, party: Party) -> int {
    match p {
        Payment::Lamports { from, to, amount } => {
            (if to == party { amount as int } else { 0 }) - (if from == party { amount as int } else { 0 })
        },
        Payment::Tokens { .. } => 0,
    }
}

/// What `party` gains in tokens from one payment (negative when it pays).
pub open spec fn token_delta(p: Payment, party: Party) -> int {
    match p {
        Payment::Tokens { from, to, amount, .. } => {
            (if to == party { amount as int } else { 0 }) - (if from == party { amount as int } else { 0 })
        },
        Payment::Lamports { .. } => 0,
    }
}

/// Net lamports that `party` gains over a sequence of payments.
pub open spec fn lamport_flow(ps: Seq<Payment>, party: Party) -> int
    decreases ps.len(),
{
    if ps.len() == 0 {
        0
    } else {
        lamport_flow(ps.drop_last(), party) + lamport_delta(ps.last(), party)
    }
}

/// Net tokens that `party` gains over a sequence of payments.
pub open spec fn token_flow(ps: Seq<Payment>, party: Party) -> int
    decreases ps.len(),
{
    if ps.len() == 0 {
        0
    } else {
        token_flow(ps.drop_last(), party) + token_delta(ps.last(), party)
    }
}

/// The flows over four payments, unfolded.
pub proof fn lemma_flows_of_four(a: Payment, b: Payment, c: Payment, d: Payment, party: Party)
    ensures
        lamport_flow(seq![a, b, c, d], party) == lamport_delta(a, party) + lamport_delta(b, party)
            + lamport_delta(c, party) + lamport_delta(d, party),
        token_flow(seq![a, b, c, d], party) == token_delta(a, party) + token_delta(b, party)
            + token_delta(c, party) + token_delta(d, party),
{
    let s4 = seq![a, b, c, d];
    let s3 = seq![a, b, c];
    let s2 = seq![a, b];
    let s1 = seq![a];
    assert(s4.drop_last() =~= s3);
    assert(s3.drop_last() =~= s2);
    assert(s2.drop_last() =~= s1);
    assert(s1.drop_last() =~= Seq::<Payment>::empty());
    reveal_with_fuel(lamport_flow, 5);
    reveal_with_fuel(token_flow, 5);
}

} // verus!
