use vstd::prelude::*;

verus! {

/// A set of 64-bit values, described bit by bit.
///
/// Bit `i` of `o` says that a member may have a 1 at position `i`; bit `i` of
/// `z` says that a member may have a 0 there. A position with both flags is
/// unknown, one with neither makes the set empty.
#[derive(Debug, Clone, Copy, PartialEq, Eq, Structural)]
pub struct Znum {
    z: u64,
    o: u64,
}

/// A mask whose complement is zero is all ones.
proof fn lemma_complement_zero(a: u64)
    by (bit_vector)
    ensures
        (!a == 0) == (a == u64::MAX),
{
}

impl Znum {
    /// The mask of positions that may hold a 1.
    pub closed spec fn ones(self) -> u64 {
        self.o
    }

    /// The mask of positions that may hold a 0.
    pub closed spec fn zeros(self) -> u64 {
        self.z
    }

    pub closed spec fn spec_from_parts(ones: u64, zeros: u64) -> Znum {
        Znum { o: ones, z: zeros }
    }

    pub open spec fn spec_from_value(v: u64) -> Znum {
        Znum::spec_from_parts(v, !v)
    }

    /// Every position holds exactly one of the two flags.
    pub open spec fn spec_is_const(self) -> bool {
        self.zeros() ^ self.ones() == u64::MAX
    }

    pub open spec fn spec_value(self) -> Option<u64> {
        if self.spec_is_const() {
            Some(self.ones())
        } else {
            None
        }
    }

    /// No position is without a flag.
    pub open spec fn spec_is_defined(self) -> bool {
        self.zeros() | self.ones() == u64::MAX
    }

    /// Each 1 of `v` stands where a 1 may be, each 0 where a 0 may be.
    pub open spec fn spec_contains_value(self, v: u64) -> bool {
        (self.ones() & v) | (self.zeros() & !v) == u64::MAX
    }

    pub open spec fn spec_union(self, other: Znum) -> Znum {
        Znum::spec_from_parts(self.ones() | other.ones(), self.zeros() | other.zeros())
    }

    /// Every flag of `other` is also a flag of `self`.
    pub open spec fn spec_contains(self, other: Znum) -> bool {
        &&& self.ones() & other.ones() == other.ones()
        &&& self.zeros() & other.zeros() == other.zeros()
    }

    pub open spec fn spec_intersection(self, other: Znum) -> Znum {
        Znum::spec_from_parts(self.ones() & other.ones(), self.zeros() & other.zeros())
    }

    pub open spec fn spec_bitor(self, other: Znum) -> Znum {
        Znum::spec_from_parts(self.ones() | other.ones(), self.zeros() & other.zeros())
    }

    pub open spec fn spec_bitand(self, other: Znum) -> Znum {
        Znum::spec_from_parts(self.ones() & other.ones(), self.zeros() | other.zeros())
    }

    pub open spec fn spec_bitxor(self, other: Znum) -> Znum {
        Znum::spec_from_parts(
            (self.zeros() & other.ones()) | (self.ones() & other.zeros()),
            (self.zeros() & other.zeros()) | (self.ones() & other.ones()),
        )
    }

    pub open spec fn spec_not(self) -> Znum {
        Znum::spec_from_parts(self.zeros(), self.ones())
    }

    /// Both masks move up by `k`; the `k` freed low positions are known 0.
    pub open spec fn spec_shl(self, k: u8) -> Znum {
        Znum::spec_from_parts(self.ones() << k, (self.zeros() << k) | !(u64::MAX << k))
    }

    /// Both masks move down by `k`; the `k` freed high positions are known 0.
    pub open spec fn spec_shr(self, k: u8) -> Znum {
        Znum::spec_from_parts(self.ones() >> k, (self.zeros() >> k) | !(u64::MAX >> k))
    }

    pub fn from_parts(ones: u64, zeros: u64) -> (r: Znum)
        ensures
            r == Znum::spec_from_parts(ones, zeros),
            r.ones() == ones,
            r.zeros() == zeros,
    {
        Znum { o: ones, z: zeros }
    }

    /// The element that holds `v` and nothing else.
    pub fn from_value(v: u64) -> (r: Znum)
        ensures
            r == Znum::spec_from_value(v),
    {
        Znum { o: v, z: !v }
    }

    /// Is there only a single contained value?
    pub fn is_const(&self) -> (r: bool)
        ensures
            r == self.spec_is_const(),
    {
        let a = self.z ^ self.o;
        proof {
            lemma_complement_zero(a);
        }
        !a == 0
    }

    /// The single contained value, where there is one.
    pub fn value(&self) -> (r: Option<u64>)
        ensures
            r == self.spec_value(),
    {
        if self.is_const() {
            Some(self.o)
        } else {
            None
        }
    }

    /// Is any value contained in this?
    pub fn is_defined(&self) -> (r: bool)
        ensures
            r == self.spec_is_defined(),
    {
        let a = self.z | self.o;
        proof {
            lemma_complement_zero(a);
        }
        !a == 0
    }

    /// Is the value `v` contained in this?
    pub fn contains_value(&self, v: u64) -> (r: bool)
        ensures
            r == self.spec_contains_value(v),
    {
        let po = self.o & v;
        let pz = self.z & !v;
        proof {
            lemma_complement_zero(po | pz);
        }
        !(po | pz) == 0
    }

    /// An element holding the values of `self` and those of `other`.
    pub fn union(&self, other: Znum) -> (r: Znum)
        ensures
            r == self.spec_union(other),
    {
        Znum { o: self.o | other.o, z: self.z | other.z }
    }

    /// Does `self` hold every value that `other` holds?
    pub fn contains(&self, other: Znum) -> (r: bool)
        ensures
            r == self.spec_contains(other),
    {
        (self.o & other.o) == other.o && (self.z & other.z) == other.z
    }

    /// An element holding exactly the values that `self` and `other` share.
    pub fn intersection(&self, other: Znum) -> (r: Znum)
        ensures
            r == self.spec_intersection(other),
    {
        Znum { o: self.o & other.o, z: self.z & other.z }
    }
}

/// The masks of an element made from parts are those parts.
pub proof fn lemma_from_parts_masks(ones: u64, zeros: u64)
    ensures
        Znum::spec_from_parts(ones, zeros).ones() == ones,
        Znum::spec_from_parts(ones, zeros).zeros() == zeros,
{
}

/// Two elements with the same masks are the same element.
pub proof fn lemma_equal_masks(a: Znum, b: Znum)
    requires
        a.ones() == b.ones(),
        a.zeros() == b.zeros(),
    ensures
        a == b,
{
}

/// Complementing twice gives the element back.
pub proof fn lemma_not_involution(a: Znum)
    ensures
        a.spec_not().spec_not() == a,
{
}

/// A shift by zero, either way, leaves the element as it is.
pub proof fn lemma_shift_by_zero(a: Znum)
    ensures
        a.spec_shl(0) == a,
        a.spec_shr(0) == a,
{
    let (ao, az) = (a.ones(), a.zeros());
    assert(ao << 0u8 == ao && (az << 0u8) | !(u64::MAX << 0u8) == az && ao >> 0u8 == ao && (az
        >> 0u8) | !(u64::MAX >> 0u8) == az) by (bit_vector);
}

/// A constant gives back the value it was made from.
pub proof fn lemma_from_value_round_trip(x: u64)
    ensures
        Znum::spec_from_value(x).spec_value() == Some(x),
{
    assert(!x ^ x == u64::MAX) by (bit_vector);
}

/// A constant contains the value it was made from.
pub proof fn lemma_from_value_contains_value(x: u64)
    ensures
        Znum::spec_from_value(x).spec_contains_value(x),
{
    assert((x & x) | (!x & !x) == u64::MAX) by (bit_vector);
}

/// A constant is never the empty element.
pub proof fn lemma_from_value_is_defined(x: u64)
    ensures
        Znum::spec_from_value(x).spec_is_defined(),
{
    assert(!x | x == u64::MAX) by (bit_vector);
}

/// On constants, each operator gives the constant of the concrete result.
pub proof fn lemma_operators_on_constants(x: u64, y: u64, k: u8)
    requires
        k < 64,
    ensures
        Znum::spec_from_value(x).spec_bitor(Znum::spec_from_value(y)).spec_value() == Some(x | y),
        Znum::spec_from_value(x).spec_bitand(Znum::spec_from_value(y)).spec_value() == Some(x & y),
        Znum::spec_from_value(x).spec_bitxor(Znum::spec_from_value(y)).spec_value() == Some(x ^ y),
        Znum::spec_from_value(x).spec_shl(k).spec_value() == Some(x << k),
        Znum::spec_from_value(x).spec_shr(k).spec_value() == Some(x >> k),
        Znum::spec_from_value(x).spec_not().spec_value() == Some(!x),
{
    assert((!x & !y) ^ (x | y) == u64::MAX) by (bit_vector);
    assert((!x | !y) ^ (x & y) == u64::MAX) by (bit_vector);
    assert(((!x & !y) | (x & y)) ^ ((!x & y) | (x & !y)) == u64::MAX && (!x & y) | (x & !y) == x
        ^ y) by (bit_vector);
    assert(((!x << k) | !(u64::MAX << k)) ^ (x << k) == u64::MAX) by (bit_vector)
        requires
            k < 64,
    ;
    assert(((!x >> k) | !(u64::MAX >> k)) ^ (x >> k) == u64::MAX) by (bit_vector)
        requires
            k < 64,
    ;
    assert(x ^ !x == u64::MAX) by (bit_vector);
}

/// The order of the operands of a union does not matter.
pub proof fn lemma_union_commutative(a: Znum, b: Znum)
    ensures
        a.spec_union(b) == b.spec_union(a),
{
    let (ao, az, bo, bz) = (a.ones(), a.zeros(), b.ones(), b.zeros());
    assert(ao | bo == bo | ao && az | bz == bz | az) by (bit_vector);
}

/// Of three constants, the union of all three contains each union of two.
pub proof fn lemma_union_of_three_constants(x: u64, y: u64, z: u64)
    ensures
        ({
            let m = Znum::spec_from_value(x).spec_union(Znum::spec_from_value(y));
            let n = Znum::spec_from_value(y).spec_union(Znum::spec_from_value(z));
            let o = Znum::spec_from_value(z).spec_union(Znum::spec_from_value(x));
            let p = m.spec_union(Znum::spec_from_value(z));
            p.spec_contains(m) && p.spec_contains(n) && p.spec_contains(o)
        }),
{
    assert({
        let (po, pz) = (x | y | z, !x | !y | !z);
        &&& po & (x | y) == x | y
        &&& pz & (!x | !y) == !x | !y
        &&& po & (y | z) == y | z
        &&& pz & (!y | !z) == !y | !z
        &&& po & (z | x) == z | x
        &&& pz & (!z | !x) == !z | !x
    }) by (bit_vector);
}

/// Two different constants share no value.
pub proof fn lemma_distinct_constants_intersect_empty(x: u64, y: u64)
    requires
        x != y,
    ensures
        !Znum::spec_from_value(x).spec_intersection(Znum::spec_from_value(y)).spec_is_defined(),
{
    assert((!x & !y) | (x & y) != u64::MAX) by (bit_vector)
        requires
            x != y,
    ;
}

/// An element is defined exactly when it contains some value.
pub proof fn lemma_defined_iff_nonempty(a: Znum)
    ensures
        a.spec_is_defined() <==> exists|v: u64| a.spec_contains_value(v),
{
    let (ao, az) = (a.ones(), a.zeros());
    assert(((ao & ao) | (az & !ao) == u64::MAX) == (az | ao == u64::MAX)) by (bit_vector);
    assert forall|v: u64| a.spec_contains_value(v) implies a.spec_is_defined() by {
        assert((ao & v) | (az & !v) == u64::MAX ==> az | ao == u64::MAX) by (bit_vector);
    }
    if a.spec_is_defined() {
        assert(a.spec_contains_value(ao));
    }
}

/// A constant element contains its value and no other.
pub proof fn lemma_const_is_singleton(a: Znum, v: u64)
    requires
        a.spec_is_const(),
    ensures
        a.spec_contains_value(v) <==> v == a.ones(),
{
    let (ao, az) = (a.ones(), a.zeros());
    assert(az ^ ao == u64::MAX ==> (((ao & v) | (az & !v) == u64::MAX) == (v == ao)))
        by (bit_vector);
}

/// A union contains every value of either operand.
pub proof fn lemma_union_sound(a: Znum, b: Znum, v: u64)
    requires
        a.spec_contains_value(v) || b.spec_contains_value(v),
    ensures
        a.spec_union(b).spec_contains_value(v),
{
    let (ao, az, bo, bz) = (a.ones(), a.zeros(), b.ones(), b.zeros());
    assert(((ao & v) | (az & !v) == u64::MAX || (bo & v) | (bz & !v) == u64::MAX) ==> ((ao | bo)
        & v) | ((az | bz) & !v) == u64::MAX) by (bit_vector);
}

/// An intersection contains exactly the values that both operands contain.
pub proof fn lemma_intersection_exact(a: Znum, b: Znum, v: u64)
    ensures
        a.spec_intersection(b).spec_contains_value(v) <==> (a.spec_contains_value(v)
            && b.spec_contains_value(v)),
{
    let (ao, az, bo, bz) = (a.ones(), a.zeros(), b.ones(), b.zeros());
    assert((((ao & bo) & v) | ((az & bz) & !v) == u64::MAX) == ((ao & v) | (az & !v) == u64::MAX
        && (bo & v) | (bz & !v) == u64::MAX)) by (bit_vector);
}

/// An element that contains another holds every value of it.
pub proof fn lemma_contains_sound(a: Znum, b: Znum, v: u64)
    requires
        a.spec_contains(b),
        b.spec_contains_value(v),
    ensures
        a.spec_contains_value(v),
{
    let (ao, az, bo, bz) = (a.ones(), a.zeros(), b.ones(), b.zeros());
    assert((ao & bo == bo && az & bz == bz && (bo & v) | (bz & !v) == u64::MAX) ==> (ao & v) | (az
        & !v) == u64::MAX) by (bit_vector);
}

/// The operators are sound: applied to elements that contain `x` and `y`,
/// they give an element that contains the concrete result.
pub proof fn lemma_operators_sound(a: Znum, b: Znum, x: u64, y: u64, k: u8)
    requires
        a.spec_contains_value(x),
        b.spec_contains_value(y),
        k < 64,
    ensures
        a.spec_bitor(b).spec_contains_value(x | y),
        a.spec_bitand(b).spec_contains_value(x & y),
        a.spec_bitxor(b).spec_contains_value(x ^ y),
        a.spec_not().spec_contains_value(!x),
        a.spec_shl(k).spec_contains_value(x << k),
        a.spec_shr(k).spec_contains_value(x >> k),
{
    let (ao, az, bo, bz) = (a.ones(), a.zeros(), b.ones(), b.zeros());
    assert(((ao & x) | (az & !x) == u64::MAX && (bo & y) | (bz & !y) == u64::MAX) ==> {
        &&& ((ao | bo) & (x | y)) | ((az & bz) & !(x | y)) == u64::MAX
        &&& ((ao & bo) & (x & y)) | ((az | bz) & !(x & y)) == u64::MAX
        &&& (((az & bo) | (ao & bz)) & (x ^ y)) | (((az & bz) | (ao & bo)) & !(x ^ y)) == u64::MAX
        &&& (az & !x) | (ao & !!x) == u64::MAX
    }) by (bit_vector);
    assert((ao & x) | (az & !x) == u64::MAX ==> {
        &&& ((ao << k) & (x << k)) | (((az << k) | !(u64::MAX << k)) & !(x << k)) == u64::MAX
        &&& ((ao >> k) & (x >> k)) | (((az >> k) | !(u64::MAX >> k)) & !(x >> k)) == u64::MAX
    }) by (bit_vector)
        requires
            k < 64,
    ;
}

impl core::ops::BitOr for Znum {
    type Output = Znum;

    fn bitor(self, other: Znum) -> (r: Znum)
        ensures
            r == self.spec_bitor(other),
    {
        Znum { z: self.z & other.z, o: self.o | other.o }
    }
}

impl vstd::std_specs::ops::BitOrSpecImpl for Znum {
    open spec fn obeys_bitor_spec() -> bool {
        true
    }

    open spec fn bitor_req(self, rhs: Znum) -> bool {
        true
    }

    open spec fn bitor_spec(self, rhs: Znum) -> Znum {
        self.spec_bitor(rhs)
    }
}

impl core::ops::BitAnd for Znum {
    type Output = Znum;

    fn bitand(self, other: Znum) -> (r: Znum)
        ensures
            r == self.spec_bitand(other),
    {
        Znum { z: self.z | other.z, o: self.o & other.o }
    }
}

impl vstd::std_specs::ops::BitAndSpecImpl for Znum {
    open spec fn obeys_bitand_spec() -> bool {
        true
    }

    open spec fn bitand_req(self, rhs: Znum) -> bool {
        true
    }

    open spec fn bitand_spec(self, rhs: Znum) -> Znum {
        self.spec_bitand(rhs)
    }
}

impl core::ops::BitXor for Znum {
    type Output = Znum;

    fn bitxor(self, other: Znum) -> (r: Znum)
        ensures
            r == self.spec_bitxor(other),
    {
        Znum {
            z: (self.z & other.z) | (self.o & other.o),
            o: (self.z & other.o) | (self.o & other.z),
        }
    }
}

impl vstd::std_specs::ops::BitXorSpecImpl for Znum {
    open spec fn obeys_bitxor_spec() -> bool {
        true
    }

    open spec fn bitxor_req(self, rhs: Znum) -> bool {
        true
    }

    open spec fn bitxor_spec(self, rhs: Znum) -> Znum {
        self.spec_bitxor(rhs)
    }
}

impl core::ops::Not for Znum {
    type Output = Znum;

    fn not(self) -> (r: Znum)
        ensures
            r == self.spec_not(),
    {
        Znum { z: self.o, o: self.z }
    }
}

impl vstd::std_specs::ops::NotSpecImpl for Znum {
    open spec fn obeys_not_spec() -> bool {
        true
    }

    open spec fn not_req(self) -> bool {
        true
    }

    open spec fn not_spec(self) -> Znum {
        self.spec_not()
    }
}

impl core::ops::Shl<u8> for Znum {
    type Output = Znum;

    /// Shifts by `shift`, which the operator's precondition keeps below 64.
    fn shl(self, shift: u8) -> (r: Znum)
        ensures
            r == self.spec_shl(shift),
    {
        assert(1u64 << shift >= 1 && (((1u64 << shift) - 1) as u64) == !(u64::MAX << shift))
            by (bit_vector)
            requires
                shift < 64,
        ;
        // ones move up, zeros move up, the freed positions are zeros
        Znum { z: self.z << shift | ((1u64 << shift) - 1), o: self.o << shift }
    }
}

impl vstd::std_specs::ops::ShlSpecImpl<u8> for Znum {
    open spec fn obeys_shl_spec() -> bool {
        true
    }

    open spec fn shl_req(self, rhs: u8) -> bool {
        rhs < 64
    }

    open spec fn shl_spec(self, rhs: u8) -> Znum {
        self.spec_shl(rhs)
    }
}

impl core::ops::Shr<u8> for Znum {
    type Output = Znum;

    /// Shifts by `shift`, which the operator's precondition keeps below 64.
    fn shr(self, shift: u8) -> (r: Znum)
        ensures
            r == self.spec_shr(shift),
    {
        // A shift by zero frees no position; treating it apart keeps the
        // shift below by `64 - shift` under the width of the type.
        let nz: u64 = if shift == 0 {
            assert(!(u64::MAX >> 0u8) == 0u64) by (bit_vector);
            0
        } else {
            assert(1u64 << shift >= 1 && ((((1u64 << shift) - 1) as u64) << ((64 - shift) as u64))
                == !(u64::MAX >> shift)) by (bit_vector)
                requires
                    0 < shift < 64,
            ;
            ((1u64 << shift) - 1) << (64 - shift)
        };
        // ones move down, zeros move down, the freed positions are zeros
        Znum { z: self.z >> shift | nz, o: self.o >> shift }
    }
}

impl vstd::std_specs::ops::ShrSpecImpl<u8> for Znum {
    open spec fn obeys_shr_spec() -> bool {
        true
    }

    open spec fn shr_req(self, rhs: u8) -> bool {
        rhs < 64
    }

    open spec fn shr_spec(self, rhs: u8) -> Znum {
        self.spec_shr(rhs)
    }
}

} // verus!
