//! Conversion of stored column values into wallet values.

use vstd::prelude::*;

use crate::error::DatabaseError;

verus! {

/// `<[u8; N]>::try_from(Vec<u8>)` from std: it succeeds exactly when the
/// vector holds `N` bytes, and then the array holds those bytes; otherwise the
/// vector comes back unchanged.
#[verifier::external_body]
pub(crate) fn vec_into_array<const N: usize>(v: Vec<u8>) -> (r: Result<[u8; N], Vec<u8>>)
    ensures
        r is Ok <==> v@.len() == N,
        r matches Ok(a) ==> a@ == v@,
        r matches Err(w) ==> w@ == v@,
{
    <[u8; N]>::try_from(v)
}

/// The unsigned number that a byte string encodes, most significant byte
/// first.
pub open spec fn be_value(bytes: Seq<u8>) -> nat
    decreases bytes.len(),
{
    if bytes.len() == 0 {
        0
    } else {
        be_value(bytes.drop_last()) * 256 + bytes.last() as nat
    }
}

/// 256 to the power `n`.
pub open spec fn pow256(n: nat) -> nat
    decreases n,
{
    if n == 0 {
        1
    } else {
        256 * pow256((n - 1) as nat)
    }
}

/// A byte string of `n` bytes encodes a number below 256^n.
pub proof fn lemma_be_value_bound(bytes: Seq<u8>)
    ensures
        be_value(bytes) < pow256(bytes.len()),
    decreases bytes.len(),
{
    if bytes.len() > 0 {
        lemma_be_value_bound(bytes.drop_last());
        let p = pow256((bytes.len() - 1) as nat);
        let v = be_value(bytes.drop_last());
        assert(v * 256 + bytes.last() < p * 256) by (nonlinear_arith)
            requires
                v < p,
                bytes.last() < 256,
        ;
    }
}

/// The number that `bytes` encode big-endian, for at most 16 bytes.
fn be_value_u128(bytes: &[u8]) -> (v: u128)
    requires
        bytes@.len() <= 16,
    ensures
        v == be_value(bytes@),
{
    let mut v: u128 = 0;
    let mut i: usize = 0;
    while i < bytes.len()
        invariant
            i <= bytes@.len() <= 16,
            v == be_value(bytes@.take(i as int)),
        decreases bytes@.len() - i,
    {
        proof {
            lemma_be_value_bound(bytes@.take(i as int));
            assert(pow256(i as nat) <= pow256(15)) by {
                lemma_pow256_monotonic(i as nat, 15);
            }
            assert(pow256(15) == 0x1_0000_0000_0000_0000_0000_0000_0000_00) by {
                reveal_with_fuel(pow256, 16);
            }
            assert(bytes@.take(i as int + 1).drop_last() =~= bytes@.take(i as int));
            assert(v * 256 + bytes@[i as int] <= u128::MAX) by (nonlinear_arith)
                requires
                    v < 0x1_0000_0000_0000_0000_0000_0000_0000_00,
                    bytes@[i as int] < 256,
            ;
        }
        v = v * 256 + bytes[i] as u128;
        i = i + 1;
    }
    proof {
        assert(bytes@.take(i as int) =~= bytes@);
    }
    v
}

/// Powers of 256 grow with the exponent.
pub proof fn lemma_pow256_monotonic(m: nat, n: nat)
    requires
        m <= n,
    ensures
        pow256(m) <= pow256(n),
    decreases n,
{
    if m < n {
        lemma_pow256_monotonic(m, (n - 1) as nat);
    }
}

/// Conversion of a stored column value into a wallet value.
pub trait Convert<T>: Sized {
    /// `r` is what converting this value yields.
    spec fn converts_to(self, r: Result<T, DatabaseError>) -> bool;

    fn convert(self) -> (r: Result<T, DatabaseError>)
        ensures
            self.converts_to(r),
    ;
}

/// A stored byte string becomes an array of its length, or fails with its
/// length and the expected one.
impl<const N: usize> Convert<[u8; N]> for Vec<u8> {
    open spec fn converts_to(self, r: Result<[u8; N], DatabaseError>) -> bool {
        match r {
            Ok(a) => self@.len() == N && a@ == self@,
            Err(e) => self@.len() != N && e == DatabaseError::InvalidLength(self@.len() as usize, N),
        }
    }

    fn convert(self) -> (r: Result<[u8; N], DatabaseError>) {
        let length = self.len();
        match vec_into_array::<N>(self) {
            Ok(a) => Ok(a),
            Err(_) => Err(DatabaseError::InvalidLength(length, N)),
        }
    }
}

/// A stored amount: eight bytes, most significant first.
impl Convert<u64> for Vec<u8> {
    open spec fn converts_to(self, r: Result<u64, DatabaseError>) -> bool {
        match r {
            Ok(v) => self@.len() == 8 && v == be_value(self@),
            Err(e) => self@.len() != 8 && e == DatabaseError::InvalidLength(self@.len() as usize, 8),
        }
    }

    fn convert(self) -> (r: Result<u64, DatabaseError>) {
        let bytes: [u8; 8] = match self.convert() {
            Ok(a) => a,
            Err(e) => return Err(e),
        };
        let v = be_value_u128(&bytes);
        proof {
            lemma_be_value_bound(bytes@);
            assert(pow256(8) == 0x1_0000_0000_0000_0000) by {
                reveal_with_fuel(pow256, 9);
            }
        }
        Ok(v as u64)
    }
}

/// A stored 128-bit amount: sixteen bytes, most significant first.
impl Convert<u128> for Vec<u8> {
    open spec fn converts_to(self, r: Result<u128, DatabaseError>) -> bool {
        match r {
            Ok(v) => self@.len() == 16 && v == be_value(self@),
            Err(e) => self@.len() != 16 && e == DatabaseError::InvalidLength(self@.len() as usize, 16),
        }
    }

    fn convert(self) -> (r: Result<u128, DatabaseError>) {
        let bytes: [u8; 16] = match self.convert() {
            Ok(a) => a,
            Err(e) => return Err(e),
        };
        Ok(be_value_u128(&bytes))
    }
}

impl Convert<u8> for i64 {
    open spec fn converts_to(self, r: Result<u8, DatabaseError>) -> bool {
        match r {
            Ok(v) => 0 <= self <= u8::MAX && v == self,
            Err(e) => (self < 0 || self > u8::MAX) && e is PrecisionLost,
        }
    }

    fn convert(self) -> (r: Result<u8, DatabaseError>) {
        match u8::try_from(self) {
            Ok(v) => Ok(v),
            Err(e) => Err(DatabaseError::PrecisionLost(e)),
        }
    }
}

impl Convert<u16> for i64 {
    open spec fn converts_to(self, r: Result<u16, DatabaseError>) -> bool {
        match r {
            Ok(v) => 0 <= self <= u16::MAX && v == self,
            Err(e) => (self < 0 || self > u16::MAX) && e is PrecisionLost,
        }
    }

    fn convert(self) -> (r: Result<u16, DatabaseError>) {
        match u16::try_from(self) {
            Ok(v) => Ok(v),
            Err(e) => Err(DatabaseError::PrecisionLost(e)),
        }
    }
}

impl Convert<u32> for i64 {
    open spec fn converts_to(self, r: Result<u32, DatabaseError>) -> bool {
        match r {
            Ok(v) => 0 <= self <= u32::MAX && v == self,
            Err(e) => (self < 0 || self > u32::MAX) && e is PrecisionLost,
        }
    }

    fn convert(self) -> (r: Result<u32, DatabaseError>) {
        match u32::try_from(self) {
            Ok(v) => Ok(v),
            Err(e) => Err(DatabaseError::PrecisionLost(e)),
        }
    }
}

impl Convert<u64> for i64 {
    open spec fn converts_to(self, r: Result<u64, DatabaseError>) -> bool {
        match r {
            Ok(v) => 0 <= self && v == self,
            Err(e) => self < 0 && e is PrecisionLost,
        }
    }

    fn convert(self) -> (r: Result<u64, DatabaseError>) {
        match u64::try_from(self) {
            Ok(v) => Ok(v),
            Err(e) => Err(DatabaseError::PrecisionLost(e)),
        }
    }
}

/// A count or index as SQLite stores it: fails where it does not fit 63 bits.
impl Convert<i64> for usize {
    open spec fn converts_to(self, r: Result<i64, DatabaseError>) -> bool {
        match r {
            Ok(v) => self <= i64::MAX && v == self,
            Err(e) => self > i64::MAX && e is PrecisionLost,
        }
    }

    fn convert(self) -> (r: Result<i64, DatabaseError>) {
        match i64::try_from(self) {
            Ok(v) => Ok(v),
            Err(e) => Err(DatabaseError::PrecisionLost(e)),
        }
    }
}

/// A missing value stays missing; a present one is converted.
impl<T, U: Convert<T>> Convert<Option<T>> for Option<U> {
    open spec fn converts_to(self, r: Result<Option<T>, DatabaseError>) -> bool {
        match self {
            None => r == Ok::<Option<T>, DatabaseError>(None),
            Some(u) => match r {
                Ok(Some(t)) => u.converts_to(Ok(t)),
                Ok(None) => false,
                Err(e) => u.converts_to(Err(e)),
            },
        }
    }

    fn convert(self) -> (r: Result<Option<T>, DatabaseError>) {
        match self {
            None => Ok(None),
            Some(u) => match u.convert() {
                Ok(t) => Ok(Some(t)),
                Err(e) => Err(e),
            },
        }
    }
}

/// The eight bytes of an amount, most significant first, as
/// `u64::to_be_bytes` gives them.
pub open spec fn be_bytes_u64(x: u64) -> Seq<u8> {
    Seq::new(8, |i: int| ((x as nat / pow256((7 - i) as nat)) % 256) as u8)
}

/// Dividing by 256^(k+1) is dividing by 256^k, then by 256.
proof fn lemma_div_pow256_step(x: nat, k: nat)
    ensures
        x / pow256(k + 1) == (x / pow256(k)) / 256,
{
    lemma_pow256_positive(k);
    vstd::arithmetic::div_mod::lemma_div_denominator(x as int, pow256(k) as int, 256);
    assert(pow256(k + 1) == pow256(k) * 256) by (nonlinear_arith)
        requires
            pow256(k + 1) == 256 * pow256(k),
    ;
}

/// Powers of 256 are positive.
proof fn lemma_pow256_positive(k: nat)
    ensures
        pow256(k) > 0,
    decreases k,
{
    if k > 0 {
        lemma_pow256_positive((k - 1) as nat);
    }
}

/// The first `k` bytes of an amount's encoding spell the amount divided by
/// 256^(8-k).
proof fn lemma_be_bytes_prefix(x: u64, k: nat)
    requires
        k <= 8,
    ensures
        be_value(be_bytes_u64(x).take(k as int)) == x as nat / pow256((8 - k) as nat),
    decreases k,
{
    let bytes = be_bytes_u64(x);
    if k == 0 {
        assert(bytes.take(0) =~= Seq::<u8>::empty());
        lemma_be_value_bound(Seq::<u8>::empty());
        assert(pow256(8) == 0x1_0000_0000_0000_0000) by {
            reveal_with_fuel(pow256, 9);
        }
        assert(x as nat / pow256(8) == 0) by {
            vstd::arithmetic::div_mod::lemma_basic_div(x as int, pow256(8) as int);
        }
    } else {
        lemma_be_bytes_prefix(x, (k - 1) as nat);
        let t = bytes.take(k as int);
        assert(t.drop_last() =~= bytes.take(k - 1));
        let m = (8 - k) as nat;
        let y = x as nat / pow256(m);
        lemma_div_pow256_step(x as nat, m);
        assert((8 - (k - 1)) as nat == m + 1);
        assert(t.last() == (y % 256) as u8);
        vstd::arithmetic::div_mod::lemma_fundamental_div_mod(y as int, 256);
        assert(be_value(t) == (y / 256) * 256 + y % 256) by (nonlinear_arith)
            requires
                be_value(t) == be_value(t.drop_last()) * 256 + t.last() as nat,
                be_value(t.drop_last()) == y / 256,
                t.last() as nat == y % 256,
        ;
    }
}

/// Reading an amount's encoding gives the amount back.
pub proof fn lemma_amount_bytes_round_trip(x: u64)
    ensures
        be_bytes_u64(x).len() == 8,
        be_value(be_bytes_u64(x)) == x,
{
    lemma_be_bytes_prefix(x, 8);
    assert(be_bytes_u64(x).take(8) =~= be_bytes_u64(x));
    assert(pow256(0) == 1);
    assert(x as nat / 1 == x as nat) by (nonlinear_arith);
}

/// The eight bytes an amount is stored as, most significant first.
pub fn amount_bytes(amount: u64) -> (r: Vec<u8>)
    ensures
        r@ == be_bytes_u64(amount),
{
    let mut out: Vec<u8> = vec![0u8; 8];
    let mut rest: u64 = amount;
    let mut k: usize = 0;
    proof {
        assert(pow256(0) == 1);
        assert(amount as nat / 1 == amount as nat) by (nonlinear_arith);
    }
    while k < 8
        invariant
            k <= 8,
            out@.len() == 8,
            rest as nat == amount as nat / pow256(k as nat),
            forall|j: int| 8 - k <= j < 8 ==> #[trigger] out@[j] == be_bytes_u64(amount)[j],
        decreases 8 - k,
    {
        proof {
            lemma_div_pow256_step(amount as nat, k as nat);
            assert((7 - (7 - k)) as nat == k as nat);
        }
        out.set(7 - k, (rest % 256) as u8);
        rest = rest / 256;
        k = k + 1;
    }
    proof {
        assert(out@ =~= be_bytes_u64(amount));
    }
    out
}

} // verus!
