use vstd::prelude::*;

pub mod bigint;

verus! {

/// Mathematical absolute value.
pub open spec fn abs_int(i: int) -> int {
    if i >= 0 {
        i
    } else {
        -i
    }
}

/// Why a `Cents` operation could not produce a value.
#[derive(Clone, Copy, Debug, PartialEq, Eq, Structural)]
pub enum CentsError {
    /// Narrowing an arbitrary-precision magnitude that exceeds the 64-bit range.
    MagnitudeOverflow,
    /// An addition or scalar multiplication whose result exceeds the 64-bit range.
    Overflow,
    /// A subtraction whose result would be negative.
    Underflow,
}

/// An exact, non-negative count of whole monetary cents.
///
/// The magnitude is an unsigned 64-bit integer, so a value can never be
/// negative and never carries a fractional part: one unit is exactly one
/// cent. Every constructor normalizes signed input to its absolute value
/// before storing it, and every arithmetic operation reports overflow and
/// underflow instead of wrapping, so no amount is ever silently lost or
/// invented.
#[derive(Clone, Copy, Debug, PartialEq, Eq, Structural)]
pub struct Cents {
    value: u64,
}

impl View for Cents {
    type V = u64;

    closed spec fn view(&self) -> u64 {
        self.value
    }
}

impl Cents {
    /// The `Cents` value holding exactly `v` cents.
    pub closed spec fn raw(v: u64) -> Cents {
        Cents { value: v }
    }

    /// What `new` builds: the magnitude `|dollars| * 100 + cents`.
    pub open spec fn spec_new(dollars: i64, cents: u8) -> Cents {
        Cents::raw((abs_int(dollars as int) * 100 + cents) as u64)
    }

    /// What addition yields: the sum of the magnitudes, or `Overflow`
    /// when it exceeds the 64-bit range.
    pub open spec fn spec_add(x: Cents, y: Cents) -> Result<Cents, CentsError> {
        if x@ + y@ <= u64::MAX {
            Ok(Cents::raw((x@ + y@) as u64))
        } else {
            Err(CentsError::Overflow)
        }
    }

    /// What subtraction yields: the difference of the magnitudes, or
    /// `Underflow` when the subtrahend exceeds the minuend.
    pub open spec fn spec_sub(x: Cents, y: Cents) -> Result<Cents, CentsError> {
        if y@ <= x@ {
            Ok(Cents::raw((x@ - y@) as u64))
        } else {
            Err(CentsError::Underflow)
        }
    }

    /// What scalar multiplication yields: the magnitude scaled by `k`, or
    /// `Overflow` when the product exceeds the 64-bit range.
    pub open spec fn spec_scalar_mul(x: Cents, k: u64) -> Result<Cents, CentsError> {
        if x@ * k <= u64::MAX {
            Ok(Cents::raw((x@ * k) as u64))
        } else {
            Err(CentsError::Overflow)
        }
    }

    /// What construction from an arbitrary-precision integer of value `n`
    /// yields: the absolute value of `n` as a cent count, or
    /// `MagnitudeOverflow` when that magnitude exceeds the 64-bit range.
    pub open spec fn spec_from_big(n: int) -> Result<Cents, CentsError> {
        if abs_int(n) <= u64::MAX {
            Ok(Cents::raw(abs_int(n) as u64))
        } else {
            Err(CentsError::MagnitudeOverflow)
        }
    }

    /// The strict order on amounts: ascending by magnitude.
    pub open spec fn spec_lt(x: Cents, y: Cents) -> bool {
        x@ < y@
    }

    /// Builds the amount `|dollars| * 100 + cents`.
    ///
    /// The sign of `dollars` is discarded; `cents` is meant to lie in
    /// `0 ..= 99`, but a larger sub-unit count is accepted and simply
    /// added on. The combined magnitude must fit in the 64-bit range.
    pub fn new(dollars: i64, cents: u8) -> (r: Cents)
        requires
            abs_int(dollars as int) * 100 + cents <= u64::MAX,
        ensures
            r == Cents::spec_new(dollars, cents),
            r@ == abs_int(dollars as int) * 100 + cents,
    {
        let magnitude: u64 = if dollars < 0 {
            (-dollars) as u64
        } else {
            dollars as u64
        };
        Cents { value: magnitude * 100 + cents as u64 }
    }

    /// Checked addition of two amounts.
    pub fn add(self, other: Cents) -> (r: Result<Cents, CentsError>)
        ensures
            r == Cents::spec_add(self, other),
    {
        match self.value.checked_add(other.value) {
            Some(v) => Ok(Cents { value: v }),
            None => Err(CentsError::Overflow),
        }
    }

    /// Checked addition of an amount and a raw cent count.
    pub fn add_u64(self, other: u64) -> (r: Result<Cents, CentsError>)
        ensures
            r == Cents::spec_add(self, Cents::raw(other)),
    {
        self.add(Cents { value: other })
    }

    /// Checked accumulating addition: on success the receiver holds the
    /// sum; on overflow it is left unchanged.
    pub fn add_assign(&mut self, other: Cents) -> (r: Result<(), CentsError>)
        ensures
            Cents::spec_add(*old(self), other) matches Ok(c) ==> r == Ok::<(), CentsError>(())
                && *final(self) == c,
            Cents::spec_add(*old(self), other) matches Err(e) ==> r == Err::<(), CentsError>(e)
                && *final(self) == *old(self),
    {
        match self.value.checked_add(other.value) {
            Some(v) => {
                self.value = v;
                Ok(())
            },
            None => Err(CentsError::Overflow),
        }
    }

    /// Checked accumulating addition of a raw cent count: on success the
    /// receiver holds the sum; on overflow it is left unchanged.
    pub fn add_assign_u64(&mut self, other: u64) -> (r: Result<(), CentsError>)
        ensures
            Cents::spec_add(*old(self), Cents::raw(other)) matches Ok(c) ==> r == Ok::<
                (),
                CentsError,
            >(()) && *final(self) == c,
            Cents::spec_add(*old(self), Cents::raw(other)) matches Err(e) ==> r == Err::<
                (),
                CentsError,
            >(e) && *final(self) == *old(self),
    {
        self.add_assign(Cents { value: other })
    }

    /// Checked subtraction: fails with `Underflow` instead of producing a
    /// wrapped, huge positive magnitude.
    pub fn sub(self, other: Cents) -> (r: Result<Cents, CentsError>)
        ensures
            r == Cents::spec_sub(self, other),
    {
        match self.value.checked_sub(other.value) {
            Some(v) => Ok(Cents { value: v }),
            None => Err(CentsError::Underflow),
        }
    }

    /// Checked multiplication by a unitless count (price times quantity).
    ///
    /// Multiplying two `Cents` values is deliberately not offered:
    /// cents times cents is not a meaningful monetary quantity. Scale an
    /// amount by a plain number instead.
    pub fn scalar_mul(self, k: u64) -> (r: Result<Cents, CentsError>)
        ensures
            r == Cents::spec_scalar_mul(self, k),
    {
        match self.value.checked_mul(k) {
            Some(v) => Ok(Cents { value: v }),
            None => Err(CentsError::Overflow),
        }
    }

    /// Lossless narrowing from an arbitrary-precision integer: the
    /// absolute value is taken first, and a magnitude beyond the 64-bit
    /// range is rejected rather than truncated.
    pub fn try_from_bigint(n: &num::BigInt) -> (r: Result<Cents, CentsError>)
        ensures
            r == Cents::spec_from_big(crate::bigint::big_value(*n)),
    {
        let a = crate::bigint::big_abs(n);
        match crate::bigint::big_to_u64(&a) {
            Some(v) => Ok(Cents { value: v }),
            None => Err(CentsError::MagnitudeOverflow),
        }
    }
}

impl From<u64> for Cents {
    /// Wraps a raw cent count directly, with no transformation.
    fn from(v: u64) -> (r: Cents) {
        Cents { value: v }
    }
}

impl vstd::std_specs::convert::FromSpecImpl<u64> for Cents {
    open spec fn obeys_from_spec() -> bool {
        true
    }

    open spec fn from_spec(v: u64) -> Cents {
        Cents::raw(v)
    }
}

impl From<Cents> for u64 {
    /// Extracts the raw cent count, with no transformation.
    fn from(c: Cents) -> (r: u64) {
        c.value
    }
}

impl vstd::std_specs::convert::FromSpecImpl<Cents> for u64 {
    open spec fn obeys_from_spec() -> bool {
        true
    }

    open spec fn from_spec(c: Cents) -> u64 {
        c@
    }
}

impl PartialOrd for Cents {
    fn partial_cmp(&self, other: &Cents) -> (r: Option<core::cmp::Ordering>) {
        if self.value < other.value {
            Some(core::cmp::Ordering::Less)
        } else if self.value == other.value {
            Some(core::cmp::Ordering::Equal)
        } else {
            Some(core::cmp::Ordering::Greater)
        }
    }
}

impl vstd::std_specs::cmp::PartialOrdSpecImpl for Cents {
    open spec fn obeys_partial_cmp_spec() -> bool {
        true
    }

    open spec fn partial_cmp_spec(&self, other: &Cents) -> Option<core::cmp::Ordering> {
        if Cents::spec_lt(*self, *other) {
            Some(core::cmp::Ordering::Less)
        } else if self@ == other@ {
            Some(core::cmp::Ordering::Equal)
        } else {
            Some(core::cmp::Ordering::Greater)
        }
    }
}

/// Adding two amounts built from in-range raw magnitudes gives the amount
/// built from their sum.
pub proof fn lemma_add_homomorphic(a: u64, b: u64)
    requires
        a + b <= u64::MAX,
    ensures
        Cents::spec_add(Cents::raw(a), Cents::raw(b)) == Ok::<Cents, CentsError>(
            Cents::raw((a + b) as u64),
        ),
{
}

/// Addition is commutative, in its failure behaviour too.
pub proof fn lemma_add_commutative(x: Cents, y: Cents)
    ensures
        Cents::spec_add(x, y) == Cents::spec_add(y, x),
{
}

/// Addition is associative whenever the total fits in the 64-bit range:
/// both groupings succeed and agree.
pub proof fn lemma_add_associative(x: Cents, y: Cents, z: Cents)
    requires
        x@ + y@ + z@ <= u64::MAX,
    ensures
        Cents::spec_add(x, y) matches Ok(xy) && Cents::spec_add(xy, z) == Ok::<Cents, CentsError>(
            Cents::raw((x@ + y@ + z@) as u64),
        ),
        Cents::spec_add(y, z) matches Ok(yz) && Cents::spec_add(x, yz) == Ok::<Cents, CentsError>(
            Cents::raw((x@ + y@ + z@) as u64),
        ),
{
}

/// Subtraction undoes addition on raw magnitudes: for `a >= b` the
/// difference succeeds and extracts to exactly `a - b`.
pub proof fn lemma_sub_exact(a: u64, b: u64)
    requires
        b <= a,
    ensures
        Cents::spec_sub(Cents::raw(a), Cents::raw(b)) == Ok::<Cents, CentsError>(
            Cents::raw((a - b) as u64),
        ),
        Cents::raw((a - b) as u64)@ == a - b,
{
}

/// `new` agrees with raw construction: `new(d, c)` is the amount of
/// `|d| * 100 + c` cents.
pub proof fn lemma_new_from_raw(d: i64, c: u8)
    requires
        abs_int(d as int) * 100 + c <= u64::MAX,
    ensures
        Cents::spec_new(d, c) == Cents::raw((abs_int(d as int) * 100 + c) as u64),
        Cents::spec_new(d, c)@ == abs_int(d as int) * 100 + c,
{
}

/// The sign of the dollar count is irrelevant: opposite dollar counts
/// build the same amount.
pub proof fn lemma_new_sign_irrelevant(d1: i64, d2: i64, c: u8)
    requires
        d1 == -(d2 as int),
    ensures
        Cents::spec_new(d1, c) == Cents::spec_new(d2, c),
{
}

/// Comparison is a total order consistent with equality: for any two
/// amounts exactly one of `x < y`, `x == y`, `y < x` holds, the order is
/// transitive, and two amounts are equal exactly when their magnitudes
/// are.
pub proof fn lemma_total_order(x: Cents, y: Cents, z: Cents)
    ensures
        Cents::spec_lt(x, y) || x == y || Cents::spec_lt(y, x),
        Cents::spec_lt(x, y) ==> x != y && !Cents::spec_lt(y, x),
        x == y ==> !Cents::spec_lt(x, y) && !Cents::spec_lt(y, x),
        Cents::spec_lt(x, y) && Cents::spec_lt(y, z) ==> Cents::spec_lt(x, z),
        x == y <==> x@ == y@,
{
}

/// Round trip: extracting the raw cent count of an amount and wrapping it
/// again yields the same amount.
pub proof fn lemma_round_trip(n: u64)
    ensures
        Cents::raw(n)@ == n,
        Cents::raw(Cents::raw(n)@) == Cents::raw(n),
{
}

} // verus!

