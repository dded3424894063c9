//! Typed forms of the two raw button fields of a platform mouse event.
//!
//! The discrete button number (`MouseEvent.button`) becomes a [`MouseButtonId`],
//! and the held-buttons bitmask (`MouseEvent.buttons`) becomes a
//! [`MouseButtonsBitmask`].
//!
//! # Warning
//!
//! The order relation for [`MouseButtonId::Auxiliary`] and
//! [`MouseButtonId::RightOrSecondary`] is reversed for
//! [`MouseButtonsBitmask::Auxiliary`] and [`MouseButtonsBitmask::RightOrSecondary`].
//! This is how the platform's `MouseEvent` API defines the two fields, and it is
//! kept as it is.
#![allow(non_snake_case)]

mod button_id;
mod buttons_mask;
mod handler;

pub use button_id::MouseButtonId;
pub use button_id::{id_order, lemma_id_values, lemma_new_keeps_raw};
pub use buttons_mask::MouseButtonsBitmask;
pub use buttons_mask::{
    combine_flags, flag_if, lemma_all_flags_contains_each, lemma_flag_bits, lemma_membership,
    lemma_eq_iff_bits, lemma_new_bits, lemma_ops_on_raw, lemma_or_and_algebra, lemma_or_idempotent, named_flag_bits,
};
pub use handler::MouseButtonEventHandler;

use vstd::prelude::*;

verus! {

/// The two encodings order `Auxiliary` and `RightOrSecondary` in opposite
/// ways: as identifiers `Auxiliary` is less than `RightOrSecondary`, while as
/// bitmask flags the bit of `Auxiliary` is greater.
pub proof fn lemma_inverted_order()
    ensures
        button_id::id_order(MouseButtonId::Auxiliary(), MouseButtonId::RightOrSecondary())
            == Some(core::cmp::Ordering::Less),
        MouseButtonId::Auxiliary().0 < MouseButtonId::RightOrSecondary().0,
        MouseButtonsBitmask::Auxiliary().bits() > MouseButtonsBitmask::RightOrSecondary().bits(),
{
    buttons_mask::lemma_flag_bits();
}

} // verus!
