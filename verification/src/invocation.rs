//! The cross-program invocations that the fast paths ask for: the program, the account metas,
//! the accounts handed over, and the instruction data.
use vstd::prelude::*;

verus! {

/// An account of an invoked instruction, by its key.
#[derive(Clone, Copy, Debug)]
pub struct InvokedAccount {
    pub pubkey: [u8; 32],
    pub is_signer: bool,
    pub is_writable: bool,
}

/// An invocation of another program: its id, the account metas of the instruction, the keys of
/// the accounts handed to the invocation, and the instruction data. It is made without signer
/// seeds.
pub struct SwapInvocation {
    pub program_id: [u8; 32],
    pub metas: Vec<InvokedAccount>,
    pub accounts: Vec<[u8; 32]>,
    pub data: Vec<u8>,
}

/// A writable account that does not sign.
pub open spec fn writable(pubkey: [u8; 32]) -> InvokedAccount {
    InvokedAccount { pubkey, is_signer: false, is_writable: true }
}

/// Whether `inv` invokes `program` on the pool and the two token accounts, handed over in that
/// order, with the account metas `metas` and the instruction data `data`.
pub open spec fn invokes(
    inv: SwapInvocation,
    program: [u8; 32],
    pool: [u8; 32],
    source: [u8; 32],
    destination: [u8; 32],
    metas: Seq<InvokedAccount>,
    data: Seq<u8>,
) -> bool {
    &&& inv.program_id == program
    &&& inv.metas@ == metas
    &&& inv.accounts@ == seq![pool, source, destination]
    &&& inv.data@ == data
}

/// The bytes of `bytes`, as a vector.
pub fn bytes_vec(bytes: &[u8]) -> (r: Vec<u8>)
    ensures
        r@ == bytes@,
{
    let mut v: Vec<u8> = Vec::new();
    let mut i: usize = 0;
    while i < bytes.len()
        invariant
            0 <= i <= bytes@.len(),
            v@ =~= bytes@.take(i as int),
        decreases bytes@.len() - i,
    {
        v.push(bytes[i]);
        i = i + 1;
    }
    assert(v@ =~= bytes@);
    v
}

/// An invocation of `program` on the pool and the two token accounts (see `invokes`), with the
/// metas `metas` and the data `data`.
pub fn pool_invocation(
    program: [u8; 32],
    pool: [u8; 32],
    source: [u8; 32],
    destination: [u8; 32],
    metas: Vec<InvokedAccount>,
    data: &[u8],
) -> (r: SwapInvocation)
    ensures
        invokes(r, program, pool, source, destination, metas@, data@),
{
    let mut accounts: Vec<[u8; 32]> = Vec::new();
    accounts.push(pool);
    accounts.push(source);
    accounts.push(destination);
    assert(accounts@ =~= seq![pool, source, destination]);
    SwapInvocation { program_id: program, metas, accounts, data: bytes_vec(data) }
}

} // verus!
