use vstd::prelude::*;

verus! {

/// Bitmask newtype for the `MouseEvent.buttons` property: the set of buttons
/// held down, one bit per button.
///
/// Construction keeps every bit, also those that no named flag covers, so that
/// buttons not yet named pass through.
///
/// Note that the bit of [`MouseButtonsBitmask::Auxiliary`] is above the bit of
/// [`MouseButtonsBitmask::RightOrSecondary`], while the matching
/// `MouseButtonId` values sort the other way round.
#[derive(Debug, Clone, Copy, PartialEq, Eq, Structural, PartialOrd, Ord, Hash)]
pub struct MouseButtonsBitmask {
    bits: u16,
}

/// The bits of the five named flags together.
pub open spec fn named_flag_bits() -> u16 {
    0x1fu16
}

impl MouseButtonsBitmask {
    pub closed spec fn spec_left_or_primary() -> Self {
        MouseButtonsBitmask { bits: 1 }
    }

    /// Left button or primary button.
    #[verifier::when_used_as_spec(spec_left_or_primary)]
    pub fn LeftOrPrimary() -> (r: Self)
        ensures
            r == Self::LeftOrPrimary(),
            r.bits() == 1,
    {
        MouseButtonsBitmask { bits: 1 }
    }

    pub closed spec fn spec_right_or_secondary() -> Self {
        MouseButtonsBitmask { bits: 2 }
    }

    /// Right button or secondary button.
    #[verifier::when_used_as_spec(spec_right_or_secondary)]
    pub fn RightOrSecondary() -> (r: Self)
        ensures
            r == Self::RightOrSecondary(),
            r.bits() == 2,
    {
        MouseButtonsBitmask { bits: 2 }
    }

    pub closed spec fn spec_auxiliary() -> Self {
        MouseButtonsBitmask { bits: 4 }
    }

    /// Mouse wheel button or middle button.
    #[verifier::when_used_as_spec(spec_auxiliary)]
    pub fn Auxiliary() -> (r: Self)
        ensures
            r == Self::Auxiliary(),
            r.bits() == 4,
    {
        MouseButtonsBitmask { bits: 4 }
    }

    pub closed spec fn spec_browser_back_or_4th() -> Self {
        MouseButtonsBitmask { bits: 8 }
    }

    /// Browser back button or 4th button.
    #[verifier::when_used_as_spec(spec_browser_back_or_4th)]
    pub fn BrowserBackOr4th() -> (r: Self)
        ensures
            r == Self::BrowserBackOr4th(),
            r.bits() == 8,
    {
        MouseButtonsBitmask { bits: 8 }
    }

    pub closed spec fn spec_browser_forward_or_5th() -> Self {
        MouseButtonsBitmask { bits: 16 }
    }

    /// Browser forward button or 5th button.
    #[verifier::when_used_as_spec(spec_browser_forward_or_5th)]
    pub fn BrowserForwardOr5th() -> (r: Self)
        ensures
            r == Self::BrowserForwardOr5th(),
            r.bits() == 16,
    {
        MouseButtonsBitmask { bits: 16 }
    }

    pub closed spec fn spec_bits(&self) -> u16 {
        self.bits
    }

    /// Returns the underlying bits of the bitmask.
    #[verifier::when_used_as_spec(spec_bits)]
    pub fn bits(&self) -> (r: u16)
        ensures
            r == self.bits(),
    {
        self.bits
    }

    pub closed spec fn spec_new(buttons: u16) -> Self {
        MouseButtonsBitmask { bits: buttons }
    }

    /// Creates a new bitmask from the raw value of `MouseEvent.buttons`.
    ///
    /// Every bit is kept: bits that no named flag covers may stand for buttons
    /// named in the future.
    #[verifier::when_used_as_spec(spec_new)]
    pub fn new(buttons: u16) -> (r: Self)
        ensures
            r == Self::new(buttons),
            r.bits() == buttons,
    {
        MouseButtonsBitmask { bits: buttons }
    }

    pub closed spec fn spec_none() -> Self {
        MouseButtonsBitmask { bits: 0 }
    }

    /// Returns a bitmask that does not contain any values.
    #[verifier::when_used_as_spec(spec_none)]
    pub fn none() -> (r: Self)
        ensures
            r == Self::none(),
            r.bits() == 0,
    {
        MouseButtonsBitmask { bits: 0 }
    }

    pub closed spec fn spec_all_bits() -> Self {
        MouseButtonsBitmask { bits: 0xffff }
    }

    /// Returns a bitmask that contains all values, also the bits that no flag
    /// covers.
    #[verifier::when_used_as_spec(spec_all_bits)]
    pub fn all_bits() -> (r: Self)
        ensures
            r == Self::all_bits(),
            r.bits() == 0xffff,
    {
        assert(!0u16 == 0xffffu16) by (bit_vector);
        MouseButtonsBitmask { bits: !0u16 }
    }

    pub closed spec fn spec_all_flags() -> Self {
        MouseButtonsBitmask { bits: named_flag_bits() }
    }

    /// Returns a bitmask that contains the five named flags and nothing else.
    #[verifier::when_used_as_spec(spec_all_flags)]
    pub fn all_flags() -> (r: Self)
        ensures
            r == Self::all_flags(),
            r.bits() == named_flag_bits(),
    {
        let r = Self::LeftOrPrimary().or(Self::RightOrSecondary()).or(Self::Auxiliary()).or(
            Self::BrowserBackOr4th(),
        ).or(Self::BrowserForwardOr5th());
        assert(1u16 | 2u16 | 4u16 | 8u16 | 16u16 == 0x1fu16) by (bit_vector);
        r
    }

    /// Returns `true` if the bitmask contains all values.
    pub fn is_all_bits(&self) -> (r: bool)
        ensures
            r == (self.bits() == 0xffff),
    {
        assert(!0u16 == 0xffffu16) by (bit_vector);
        self.bits == !0u16
    }

    /// Returns `true` if the bitmask holds exactly the five named flags.
    ///
    /// Any bit that no flag covers makes it `false`; see [`Self::truncate`].
    pub fn is_all_flags(&self) -> (r: bool)
        ensures
            r == (self.bits() == named_flag_bits()),
    {
        self.bits == Self::all_flags().bits
    }

    /// Returns `true` if the bitmask does not contain any values.
    pub fn is_none(&self) -> (r: bool)
        ensures
            r == (self.bits() == 0),
    {
        self.bits == 0
    }

    pub closed spec fn spec_truncate(&self) -> Self {
        MouseButtonsBitmask { bits: self.bits & named_flag_bits() }
    }

    /// Returns a bitmask that only has the bits of named flags.
    #[verifier::when_used_as_spec(spec_truncate)]
    pub fn truncate(&self) -> (r: Self)
        ensures
            r == self.truncate(),
            r.bits() == self.bits() & named_flag_bits(),
    {
        MouseButtonsBitmask { bits: self.bits & Self::all_flags().bits }
    }

    pub closed spec fn spec_intersects(&self, other: Self) -> bool {
        (self.bits & other.bits) != 0 || other.bits == 0
    }

    /// Returns `true` if `self` shares a value with `other`, or if `other`
    /// does not contain any values.
    #[verifier::when_used_as_spec(spec_intersects)]
    pub fn intersects(&self, other: Self) -> (r: bool)
        ensures
            r == self.intersects(other),
            r == ((self.bits() & other.bits()) != 0 || other.bits() == 0),
    {
        (self.bits & other.bits) != 0 || other.bits == 0
    }

    pub closed spec fn spec_contains(&self, other: Self) -> bool {
        (self.bits & other.bits) == other.bits
    }

    /// Returns `true` if `self` contains all values of `other`.
    ///
    /// For a single flag this is the membership test: the flag's button is held.
    #[verifier::when_used_as_spec(spec_contains)]
    pub fn contains(&self, other: Self) -> (r: bool)
        ensures
            r == self.contains(other),
            r == ((self.bits() & other.bits()) == other.bits()),
    {
        (self.bits & other.bits) == other.bits
    }

    pub closed spec fn spec_not(self) -> Self {
        MouseButtonsBitmask { bits: !self.bits }
    }

    /// Returns the bitwise NOT of the bitmask.
    #[verifier::when_used_as_spec(spec_not)]
    pub fn not(self) -> (r: Self)
        ensures
            r == self.not(),
            r.bits() == !self.bits(),
    {
        MouseButtonsBitmask { bits: !self.bits }
    }

    pub closed spec fn spec_and(self, other: Self) -> Self {
        MouseButtonsBitmask { bits: self.bits & other.bits }
    }

    /// Returns the bitwise AND of the two bitmasks: the buttons held in both.
    #[verifier::when_used_as_spec(spec_and)]
    pub fn and(self, other: Self) -> (r: Self)
        ensures
            r == self.and(other),
            r.bits() == self.bits() & other.bits(),
    {
        MouseButtonsBitmask { bits: self.bits & other.bits }
    }

    pub closed spec fn spec_or(self, other: Self) -> Self {
        MouseButtonsBitmask { bits: self.bits | other.bits }
    }

    /// Returns the bitwise OR of the two bitmasks: the buttons held in either.
    #[verifier::when_used_as_spec(spec_or)]
    pub fn or(self, other: Self) -> (r: Self)
        ensures
            r == self.or(other),
            r.bits() == self.bits() | other.bits(),
    {
        MouseButtonsBitmask { bits: self.bits | other.bits }
    }

    pub closed spec fn spec_xor(self, other: Self) -> Self {
        MouseButtonsBitmask { bits: self.bits ^ other.bits }
    }

    /// Returns the bitwise XOR of the two bitmasks.
    #[verifier::when_used_as_spec(spec_xor)]
    pub fn xor(self, other: Self) -> (r: Self)
        ensures
            r == self.xor(other),
            r.bits() == self.bits() ^ other.bits(),
    {
        MouseButtonsBitmask { bits: self.bits ^ other.bits }
    }
}

/// The flag `f` when `held`, else the empty bitmask.
pub open spec fn flag_if(held: bool, f: MouseButtonsBitmask) -> MouseButtonsBitmask {
    if held {
        f
    } else {
        MouseButtonsBitmask::none()
    }
}

/// The bitmask that ORs together exactly the named flags whose argument is `true`.
pub open spec fn combine_flags(
    left: bool,
    right: bool,
    aux: bool,
    back: bool,
    forward: bool,
) -> MouseButtonsBitmask {
    flag_if(left, MouseButtonsBitmask::LeftOrPrimary()).or(
        flag_if(right, MouseButtonsBitmask::RightOrSecondary()),
    ).or(flag_if(aux, MouseButtonsBitmask::Auxiliary())).or(
        flag_if(back, MouseButtonsBitmask::BrowserBackOr4th()),
    ).or(flag_if(forward, MouseButtonsBitmask::BrowserForwardOr5th()))
}

/// A bitmask built from a raw value gives back exactly that value.
pub proof fn lemma_new_bits(n: u16)
    ensures
        MouseButtonsBitmask::new(n).bits() == n,
{
}

/// Two bitmasks are equal exactly when their bits are, and a bitmask is the
/// one built from its own bits.
pub proof fn lemma_eq_iff_bits(a: MouseButtonsBitmask, b: MouseButtonsBitmask)
    ensures
        (a == b) == (a.bits() == b.bits()),
        MouseButtonsBitmask::new(a.bits()) == a,
{
}

/// The operations on bitmasks built from raw values are the same operations
/// on the raw values.
pub proof fn lemma_ops_on_raw(a: u16, b: u16)
    ensures
        MouseButtonsBitmask::new(a).or(MouseButtonsBitmask::new(b)) == MouseButtonsBitmask::new(
            a | b,
        ),
        MouseButtonsBitmask::new(a).and(MouseButtonsBitmask::new(b)) == MouseButtonsBitmask::new(
            a & b,
        ),
        MouseButtonsBitmask::new(a).xor(MouseButtonsBitmask::new(b)) == MouseButtonsBitmask::new(
            a ^ b,
        ),
        MouseButtonsBitmask::new(a).not() == MouseButtonsBitmask::new(!a),
{
}

/// The named flags have the fixed bit values 1, 2, 4, 8 and 16, one bit each,
/// and the bit of `Auxiliary` is above the bit of `RightOrSecondary`.
pub proof fn lemma_flag_bits()
    ensures
        MouseButtonsBitmask::LeftOrPrimary().bits() == 1,
        MouseButtonsBitmask::RightOrSecondary().bits() == 2,
        MouseButtonsBitmask::Auxiliary().bits() == 4,
        MouseButtonsBitmask::BrowserBackOr4th().bits() == 8,
        MouseButtonsBitmask::BrowserForwardOr5th().bits() == 16,
        MouseButtonsBitmask::Auxiliary().bits() > MouseButtonsBitmask::RightOrSecondary().bits(),
        MouseButtonsBitmask::new(1) == MouseButtonsBitmask::LeftOrPrimary(),
        MouseButtonsBitmask::new(2) == MouseButtonsBitmask::RightOrSecondary(),
        MouseButtonsBitmask::new(4) == MouseButtonsBitmask::Auxiliary(),
        MouseButtonsBitmask::new(8) == MouseButtonsBitmask::BrowserBackOr4th(),
        MouseButtonsBitmask::new(16) == MouseButtonsBitmask::BrowserForwardOr5th(),
{
}

/// Membership: in any OR of named flags, exactly the flags that were ORed in
/// are contained, and no other named flag is.
pub proof fn lemma_membership(left: bool, right: bool, aux: bool, back: bool, forward: bool)
    ensures
        combine_flags(left, right, aux, back, forward).contains(MouseButtonsBitmask::LeftOrPrimary())
            == left,
        combine_flags(left, right, aux, back, forward).contains(
            MouseButtonsBitmask::RightOrSecondary(),
        ) == right,
        combine_flags(left, right, aux, back, forward).contains(MouseButtonsBitmask::Auxiliary())
            == aux,
        combine_flags(left, right, aux, back, forward).contains(
            MouseButtonsBitmask::BrowserBackOr4th(),
        ) == back,
        combine_flags(left, right, aux, back, forward).contains(
            MouseButtonsBitmask::BrowserForwardOr5th(),
        ) == forward,
{
    let l: u16 = if left { 1 } else { 0 };
    let r: u16 = if right { 2 } else { 0 };
    let a: u16 = if aux { 4 } else { 0 };
    let b: u16 = if back { 8 } else { 0 };
    let f: u16 = if forward { 16 } else { 0 };
    assert(combine_flags(left, right, aux, back, forward).bits() == l | r | a | b | f);
    assert({
        &&& (((l | r | a | b | f) & 1u16) == 1u16 <==> l == 1u16)
        &&& (((l | r | a | b | f) & 2u16) == 2u16 <==> r == 2u16)
        &&& (((l | r | a | b | f) & 4u16) == 4u16 <==> a == 4u16)
        &&& (((l | r | a | b | f) & 8u16) == 8u16 <==> b == 8u16)
        &&& (((l | r | a | b | f) & 16u16) == 16u16 <==> f == 16u16)
    }) by (bit_vector)
        requires
            l == 0u16 || l == 1u16,
            r == 0u16 || r == 2u16,
            a == 0u16 || a == 4u16,
            b == 0u16 || b == 8u16,
            f == 0u16 || f == 16u16,
    ;
}

/// OR-ing a bitmask with itself gives the same bitmask.
pub proof fn lemma_or_idempotent(m: MouseButtonsBitmask)
    ensures
        m.or(m) == m,
{
    let x = m.bits();
    assert(x | x == x) by (bit_vector);
}

/// The OR of all five named flags is `all_flags`, and it contains each of them.
pub proof fn lemma_all_flags_contains_each()
    ensures
        MouseButtonsBitmask::LeftOrPrimary().or(MouseButtonsBitmask::RightOrSecondary()).or(
            MouseButtonsBitmask::Auxiliary(),
        ).or(MouseButtonsBitmask::BrowserBackOr4th()).or(MouseButtonsBitmask::BrowserForwardOr5th())
            == MouseButtonsBitmask::all_flags(),
        MouseButtonsBitmask::all_flags() == MouseButtonsBitmask::new(31),
        MouseButtonsBitmask::all_flags().contains(MouseButtonsBitmask::LeftOrPrimary()),
        MouseButtonsBitmask::all_flags().contains(MouseButtonsBitmask::RightOrSecondary()),
        MouseButtonsBitmask::all_flags().contains(MouseButtonsBitmask::Auxiliary()),
        MouseButtonsBitmask::all_flags().contains(MouseButtonsBitmask::BrowserBackOr4th()),
        MouseButtonsBitmask::all_flags().contains(MouseButtonsBitmask::BrowserForwardOr5th()),
{
    assert(1u16 | 2u16 | 4u16 | 8u16 | 16u16 == 0x1fu16) by (bit_vector);
    assert(0x1fu16 & 1u16 == 1u16) by (bit_vector);
    assert(0x1fu16 & 2u16 == 2u16) by (bit_vector);
    assert(0x1fu16 & 4u16 == 4u16) by (bit_vector);
    assert(0x1fu16 & 8u16 == 8u16) by (bit_vector);
    assert(0x1fu16 & 16u16 == 16u16) by (bit_vector);
}

/// OR and AND are commutative and associative, the empty bitmask is neutral
/// for OR, and the bitmask of all bits is neutral for AND.
pub proof fn lemma_or_and_algebra(a: MouseButtonsBitmask, b: MouseButtonsBitmask, c: MouseButtonsBitmask)
    ensures
        a.or(b) == b.or(a),
        a.or(b).or(c) == a.or(b.or(c)),
        a.and(b) == b.and(a),
        a.and(b).and(c) == a.and(b.and(c)),
        a.or(MouseButtonsBitmask::none()) == a,
        a.and(MouseButtonsBitmask::all_bits()) == a,
{
    let (x, y, z) = (a.bits(), b.bits(), c.bits());
    assert(x | y == y | x) by (bit_vector);
    assert((x | y) | z == x | (y | z)) by (bit_vector);
    assert(x & y == y & x) by (bit_vector);
    assert((x & y) & z == x & (y & z)) by (bit_vector);
    assert(x | 0u16 == x) by (bit_vector);
    assert(x & 0xffffu16 == x) by (bit_vector);
}


impl core::ops::Not for MouseButtonsBitmask {
    type Output = Self;

    fn not(self) -> (r: Self)
        ensures
            r.bits() == !self.bits(),
    {
        MouseButtonsBitmask { bits: !self.bits }
    }
}

impl vstd::std_specs::ops::NotSpecImpl for MouseButtonsBitmask {
    open spec fn obeys_not_spec() -> bool {
        true
    }

    open spec fn not_req(self) -> bool {
        true
    }

    open spec fn not_spec(self) -> Self {
        self.spec_not()
    }
}

impl core::ops::BitAnd for MouseButtonsBitmask {
    type Output = Self;

    fn bitand(self, rhs: Self) -> (r: Self)
        ensures
            r.bits() == self.bits() & rhs.bits(),
    {
        MouseButtonsBitmask { bits: self.bits & rhs.bits }
    }
}

impl vstd::std_specs::ops::BitAndSpecImpl for MouseButtonsBitmask {
    open spec fn obeys_bitand_spec() -> bool {
        true
    }

    open spec fn bitand_req(self, rhs: Self) -> bool {
        true
    }

    open spec fn bitand_spec(self, rhs: Self) -> Self {
        self.spec_and(rhs)
    }
}

impl core::ops::BitOr for MouseButtonsBitmask {
    type Output = Self;

    fn bitor(self, rhs: Self) -> (r: Self)
        ensures
            r.bits() == self.bits() | rhs.bits(),
    {
        MouseButtonsBitmask { bits: self.bits | rhs.bits }
    }
}

impl vstd::std_specs::ops::BitOrSpecImpl for MouseButtonsBitmask {
    open spec fn obeys_bitor_spec() -> bool {
        true
    }

    open spec fn bitor_req(self, rhs: Self) -> bool {
        true
    }

    open spec fn bitor_spec(self, rhs: Self) -> Self {
        self.spec_or(rhs)
    }
}

impl core::ops::BitXor for MouseButtonsBitmask {
    type Output = Self;

    fn bitxor(self, rhs: Self) -> (r: Self)
        ensures
            r.bits() == self.bits() ^ rhs.bits(),
    {
        MouseButtonsBitmask { bits: self.bits ^ rhs.bits }
    }
}

impl vstd::std_specs::ops::BitXorSpecImpl for MouseButtonsBitmask {
    open spec fn obeys_bitxor_spec() -> bool {
        true
    }

    open spec fn bitxor_req(self, rhs: Self) -> bool {
        true
    }

    open spec fn bitxor_spec(self, rhs: Self) -> Self {
        self.spec_xor(rhs)
    }
}

impl core::ops::BitAndAssign for MouseButtonsBitmask {
    fn bitand_assign(&mut self, rhs: Self)
        ensures
            final(self).bits() == old(self).bits() & rhs.bits(),
    {
        self.bits = self.bits & rhs.bits;
    }
}

impl core::ops::BitOrAssign for MouseButtonsBitmask {
    fn bitor_assign(&mut self, rhs: Self)
        ensures
            final(self).bits() == old(self).bits() | rhs.bits(),
    {
        self.bits = self.bits | rhs.bits;
    }
}

impl core::ops::BitXorAssign for MouseButtonsBitmask {
    fn bitxor_assign(&mut self, rhs: Self)
        ensures
            final(self).bits() == old(self).bits() ^ rhs.bits(),
    {
        self.bits = self.bits ^ rhs.bits;
    }
}

impl PartialEq<u16> for MouseButtonsBitmask {
    fn eq(&self, other: &u16) -> (r: bool)
        ensures
            r == (self.bits() == *other),
    {
        self.bits == *other
    }
}

impl vstd::std_specs::cmp::PartialEqSpecImpl<u16> for MouseButtonsBitmask {
    open spec fn obeys_eq_spec() -> bool {
        true
    }

    open spec fn eq_spec(&self, other: &u16) -> bool {
        self.spec_bits() == *other
    }
}

impl From<u16> for MouseButtonsBitmask {
    fn from(val: u16) -> (r: Self)
        ensures
            r.bits() == val,
    {
        MouseButtonsBitmask { bits: val }
    }
}

impl vstd::std_specs::convert::FromSpecImpl<u16> for MouseButtonsBitmask {
    open spec fn obeys_from_spec() -> bool {
        true
    }

    open spec fn from_spec(val: u16) -> Self {
        Self::spec_new(val)
    }
}

impl From<MouseButtonsBitmask> for u16 {
    fn from(val: MouseButtonsBitmask) -> (r: u16)
        ensures
            r == val.bits(),
    {
        val.bits
    }
}

impl vstd::std_specs::convert::FromSpecImpl<MouseButtonsBitmask> for u16 {
    open spec fn obeys_from_spec() -> bool {
        true
    }

    open spec fn from_spec(val: MouseButtonsBitmask) -> u16 {
        val.spec_bits()
    }
}

} // verus!
