use vstd::prelude::*;

verus! {

/// Button values of the `MouseEvent.button` property: which one button
/// changed state.
///
/// Any raw value is accepted, so that buttons not yet named pass through.
/// Values are ordered as their raw integers are.
///
/// Note that [`MouseButtonId::Auxiliary`] sorts below
/// [`MouseButtonId::RightOrSecondary`], while the matching bits of
/// `MouseButtonsBitmask` sort the other way round.
#[derive(Debug, Copy, Clone, PartialEq, Eq, Structural, Ord)]
pub struct MouseButtonId(pub i16);

impl MouseButtonId {
    pub open spec fn spec_left_or_primary() -> Self {
        MouseButtonId(0)
    }

    /// Left button or primary button.
    #[verifier::when_used_as_spec(spec_left_or_primary)]
    pub fn LeftOrPrimary() -> (r: Self)
        ensures
            r == Self::LeftOrPrimary(),
            r.0 == 0,
    {
        MouseButtonId(0)
    }

    pub open spec fn spec_right_or_secondary() -> Self {
        MouseButtonId(2)
    }

    /// Right button or secondary button.
    #[verifier::when_used_as_spec(spec_right_or_secondary)]
    pub fn RightOrSecondary() -> (r: Self)
        ensures
            r == Self::RightOrSecondary(),
            r.0 == 2,
    {
        MouseButtonId(2)
    }

    pub open spec fn spec_auxiliary() -> Self {
        MouseButtonId(1)
    }

    /// Mouse wheel button or middle button.
    #[verifier::when_used_as_spec(spec_auxiliary)]
    pub fn Auxiliary() -> (r: Self)
        ensures
            r == Self::Auxiliary(),
            r.0 == 1,
    {
        MouseButtonId(1)
    }

    pub open spec fn spec_browser_back_or_4th() -> Self {
        MouseButtonId(3)
    }

    /// Browser back button or 4th button.
    #[verifier::when_used_as_spec(spec_browser_back_or_4th)]
    pub fn BrowserBackOr4th() -> (r: Self)
        ensures
            r == Self::BrowserBackOr4th(),
            r.0 == 3,
    {
        MouseButtonId(3)
    }

    pub open spec fn spec_browser_forward_or_5th() -> Self {
        MouseButtonId(4)
    }

    /// Browser forward button or 5th button.
    #[verifier::when_used_as_spec(spec_browser_forward_or_5th)]
    pub fn BrowserForwardOr5th() -> (r: Self)
        ensures
            r == Self::BrowserForwardOr5th(),
            r.0 == 4,
    {
        MouseButtonId(4)
    }

    pub open spec fn spec_new(raw: i16) -> Self {
        MouseButtonId(raw)
    }

    /// Wraps a raw button value, unchanged.
    #[verifier::when_used_as_spec(spec_new)]
    pub fn new(raw: i16) -> (r: Self)
        ensures
            r == Self::new(raw),
            r.0 == raw,
    {
        MouseButtonId(raw)
    }
}

/// The order of two button identifiers as the order of their raw values.
pub open spec fn id_order(a: MouseButtonId, b: MouseButtonId) -> Option<core::cmp::Ordering> {
    if a.0 < b.0 {
        Some(core::cmp::Ordering::Less)
    } else if a.0 == b.0 {
        Some(core::cmp::Ordering::Equal)
    } else {
        Some(core::cmp::Ordering::Greater)
    }
}

impl PartialOrd for MouseButtonId {
    fn partial_cmp(&self, other: &MouseButtonId) -> (r: Option<core::cmp::Ordering>)
        ensures
            r == id_order(*self, *other),
    {
        if self.0 < other.0 {
            Some(core::cmp::Ordering::Less)
        } else if self.0 == other.0 {
            Some(core::cmp::Ordering::Equal)
        } else {
            Some(core::cmp::Ordering::Greater)
        }
    }
}

impl vstd::std_specs::cmp::PartialOrdSpecImpl for MouseButtonId {
    open spec fn obeys_partial_cmp_spec() -> bool {
        true
    }

    open spec fn partial_cmp_spec(&self, other: &MouseButtonId) -> Option<core::cmp::Ordering> {
        id_order(*self, *other)
    }
}

/// A button identifier built from a raw value holds exactly that value.
pub proof fn lemma_new_keeps_raw(n: i16)
    ensures
        MouseButtonId::new(n).0 == n,
{
}

/// The named identifiers have the fixed values 0 to 4, with `Auxiliary` at 1
/// and `RightOrSecondary` at 2, and no two of them are equal.
pub proof fn lemma_id_values()
    ensures
        MouseButtonId::LeftOrPrimary().0 == 0,
        MouseButtonId::Auxiliary().0 == 1,
        MouseButtonId::RightOrSecondary().0 == 2,
        MouseButtonId::BrowserBackOr4th().0 == 3,
        MouseButtonId::BrowserForwardOr5th().0 == 4,
{
}

} // verus!
