use vstd::prelude::*;

verus! {

/// The stored highscore is exactly this many bytes.
pub const HIGHSCORE_BYTES: usize = 8;

/// Why stored bytes are not a highscore.
#[derive(Clone, Copy, Debug, PartialEq, Eq, Structural)]
pub enum HighscoreError {
    /// The store held this many bytes instead of eight.
    WrongLength(usize),
}

/// `256` to the power `n`.
pub open spec fn pow256(n: nat) -> nat
    decreases n,
{
    if n == 0 { 1 } else { 256 * pow256((n - 1) as nat) }
}

/// The low `n` bytes of `v`, least significant first.
pub open spec fn le_bytes(v: nat, n: nat) -> Seq<u8>
    decreases n,
{
    if n == 0 {
        Seq::empty()
    } else {
        seq![(v % 256) as u8] + le_bytes(v / 256, (n - 1) as nat)
    }
}

/// The number these bytes spell, least significant first.
pub open spec fn le_value(b: Seq<u8>) -> nat
    decreases b.len(),
{
    if b.len() == 0 {
        0
    } else {
        (b[0] + 256 * le_value(b.drop_first())) as nat
    }
}

proof fn lemma_le_bytes_len(v: nat, n: nat)
    ensures
        le_bytes(v, n).len() == n,
    decreases n,
{
    if n > 0 {
        lemma_le_bytes_len(v / 256, (n - 1) as nat);
    }
}

proof fn lemma_le_value_bound(b: Seq<u8>)
    ensures
        le_value(b) < pow256(b.len()),
    decreases b.len(),
{
    if b.len() > 0 {
        let rest = b.drop_first();
        lemma_le_value_bound(rest);
        let r = le_value(rest);
        let p = pow256(rest.len());
        assert(b[0] + 256 * r < 256 * p) by (nonlinear_arith)
            requires
                b[0] < 256,
                r < p,
        ;
    }
}

proof fn lemma_le_round_trip(v: nat, n: nat)
    requires
        v < pow256(n),
    ensures
        le_value(le_bytes(v, n)) == v,
    decreases n,
{
    if n > 0 {
        let q = v / 256;
        let p = pow256((n - 1) as nat);
        assert(q < p) by (nonlinear_arith)
            requires
                v < 256 * p,
                q == v / 256,
        ;
        lemma_le_round_trip(q, (n - 1) as nat);
        let b = le_bytes(v, n);
        assert(b.drop_first() =~= le_bytes(q, (n - 1) as nat));
    }
}

proof fn lemma_pow_grows(a: nat, b: nat)
    requires
        a <= b,
    ensures
        pow256(a) <= pow256(b),
    decreases b,
{
    if a < b {
        lemma_pow_grows(a, (b - 1) as nat);
    }
}

proof fn lemma_u64_bound()
    ensures
        pow256(8) == 0x1_0000_0000_0000_0000,
{
    reveal_with_fuel(pow256, 9);
}

/// Writing a highscore and reading it back gives the same number, for every
/// value; the bytes written are always exactly eight.
pub proof fn lemma_highscore_round_trip(v: u64)
    ensures
        le_bytes(v as nat, 8).len() == HIGHSCORE_BYTES,
        le_value(le_bytes(v as nat, 8)) == v,
{
    lemma_le_bytes_len(v as nat, 8);
    lemma_u64_bound();
    lemma_le_round_trip(v as nat, 8);
}

/// The highscore these stored bytes hold; anything but eight bytes is refused.
pub fn decode_highscore(bytes: &[u8]) -> (r: Result<u64, HighscoreError>)
    ensures
        bytes@.len() == HIGHSCORE_BYTES ==> r == Ok::<u64, HighscoreError>(le_value(bytes@) as u64),
        bytes@.len() != HIGHSCORE_BYTES ==> r == Err::<u64, HighscoreError>(
            HighscoreError::WrongLength(bytes@.len() as usize),
        ),
        r is Ok ==> r->Ok_0 == le_value(bytes@),
{
    if bytes.len() != HIGHSCORE_BYTES {
        return Err(HighscoreError::WrongLength(bytes.len()));
    }
    let mut value: u64 = 0;
    let mut i: usize = HIGHSCORE_BYTES;
    while i > 0
        invariant
            i <= HIGHSCORE_BYTES,
            bytes@.len() == HIGHSCORE_BYTES,
            value == le_value(bytes@.skip(i as int)),
        decreases i,
    {
        i = i - 1;
        let ghost rest = bytes@.skip(i + 1);
        assert(bytes@.skip(i as int).drop_first() =~= rest);
        proof {
            lemma_le_value_bound(rest);
            lemma_pow_grows((8 - i - 1) as nat, 7);
            lemma_u64_bound();
            assert(256 * pow256(7) == pow256(8));
            assert(value * 256 + bytes@[i as int] < pow256(8)) by (nonlinear_arith)
                requires
                    value < pow256((8 - i - 1) as nat),
                    pow256((8 - i - 1) as nat) <= pow256(7),
                    256 * pow256(7) == pow256(8),
                    bytes@[i as int] < 256,
            ;
        }
        value = value * 256 + bytes[i] as u64;
    }
    assert(bytes@.skip(0) =~= bytes@);
    Ok(value)
}

/// The bytes that store a highscore: eight, least significant first.
pub fn encode_highscore(v: u64) -> (r: Vec<u8>)
    ensures
        r@ == le_bytes(v as nat, 8),
{
    let mut out: Vec<u8> = Vec::new();
    let mut rest: u64 = v;
    let mut i: usize = 0;
    while i < HIGHSCORE_BYTES
        invariant
            i <= HIGHSCORE_BYTES,
            out@ + le_bytes(rest as nat, (8 - i) as nat) == le_bytes(v as nat, 8),
        decreases HIGHSCORE_BYTES - i,
    {
        let ghost before = out@;
        let ghost next = le_bytes((rest / 256) as nat, (8 - i - 1) as nat);
        assert(le_bytes(rest as nat, (8 - i) as nat) == seq![(rest % 256) as u8] + next);
        out.push((rest % 256) as u8);
        assert(out@ + next =~= before + (seq![(rest % 256) as u8] + next));
        rest = rest / 256;
        i = i + 1;
    }
    assert(out@ + le_bytes(rest as nat, 0) =~= out@);
    out
}

} // verus!
