use mouse_buttons::{MouseButtonId, MouseButtonsBitmask};

fn named_flags() -> [MouseButtonsBitmask; 5] {
    [
        MouseButtonsBitmask::LeftOrPrimary(),
        MouseButtonsBitmask::RightOrSecondary(),
        MouseButtonsBitmask::Auxiliary(),
        MouseButtonsBitmask::BrowserBackOr4th(),
        MouseButtonsBitmask::BrowserForwardOr5th(),
    ]
}

#[test]
fn weird_behavior_is_preserved() {
    assert!(MouseButtonsBitmask::Auxiliary().bits() == 4);
    assert!(MouseButtonsBitmask::RightOrSecondary().bits() == 2);
    assert!(MouseButtonsBitmask::Auxiliary().bits() > MouseButtonsBitmask::RightOrSecondary().bits());
    assert!(MouseButtonId::Auxiliary().0 == 1);
    assert!(MouseButtonId::RightOrSecondary().0 == 2);
    assert!(MouseButtonId::Auxiliary() < MouseButtonId::RightOrSecondary());
}

#[test]
fn button_id_keeps_raw_value() {
    for n in [i16::MIN, -1, 0, 1, 2, 4, 5, 77, i16::MAX] {
        assert_eq!(MouseButtonId::new(n).0, n);
        assert_eq!(MouseButtonId::new(n), MouseButtonId(n));
    }
}

#[test]
fn buttons_mask_keeps_raw_value() {
    for n in [0u16, 1, 6, 31, 32, 0x8000, u16::MAX] {
        assert_eq!(MouseButtonsBitmask::new(n).bits(), n);
        assert_eq!(u16::from(MouseButtonsBitmask::new(n)), n);
        assert_eq!(MouseButtonsBitmask::from(n), MouseButtonsBitmask::new(n));
    }
}

#[test]
fn button_id_named_values() {
    assert_eq!(MouseButtonId::LeftOrPrimary().0, 0);
    assert_eq!(MouseButtonId::Auxiliary().0, 1);
    assert_eq!(MouseButtonId::RightOrSecondary().0, 2);
    assert_eq!(MouseButtonId::BrowserBackOr4th().0, 3);
    assert_eq!(MouseButtonId::BrowserForwardOr5th().0, 4);
}

#[test]
fn buttons_mask_named_bits() {
    let expected = [1u16, 2, 4, 8, 16];
    for (f, v) in named_flags().iter().zip(expected) {
        assert_eq!(f.bits(), v);
    }
}

#[test]
fn button_id_order_follows_raw_value() {
    assert!(MouseButtonId::LeftOrPrimary() < MouseButtonId::Auxiliary());
    assert!(MouseButtonId::RightOrSecondary() > MouseButtonId::Auxiliary());
    assert!(MouseButtonId::BrowserBackOr4th() <= MouseButtonId::BrowserBackOr4th());
    assert!(MouseButtonId::BrowserForwardOr5th() >= MouseButtonId::BrowserBackOr4th());
    assert!(MouseButtonId::new(-3) < MouseButtonId::LeftOrPrimary());
    assert_eq!(
        MouseButtonId::Auxiliary().partial_cmp(&MouseButtonId::RightOrSecondary()),
        Some(std::cmp::Ordering::Less)
    );
}

#[test]
fn membership_of_combined_flags() {
    let flags = named_flags();
    for subset in 0u32..32 {
        let mut m = MouseButtonsBitmask::none();
        for (i, f) in flags.iter().enumerate() {
            if subset & (1 << i) != 0 {
                m = m.or(*f);
            }
        }
        for (i, f) in flags.iter().enumerate() {
            assert_eq!(m.contains(*f), subset & (1 << i) != 0);
        }
    }
}

#[test]
fn or_with_itself_and_all_flags() {
    for n in [0u16, 5, 32, 0xffff] {
        let m = MouseButtonsBitmask::new(n);
        assert_eq!(m.or(m), m);
        assert_eq!(m | m, m);
    }
    let all = named_flags().iter().fold(MouseButtonsBitmask::none(), |acc, f| acc.or(*f));
    assert_eq!(all, MouseButtonsBitmask::all_flags());
    assert_eq!(all.bits(), 31);
    assert!(all.is_all_flags());
    for f in named_flags() {
        assert!(all.contains(f));
    }
}

#[test]
fn raw_one_is_auxiliary_and_raw_six_holds_right_and_auxiliary() {
    assert_eq!(MouseButtonId::new(1), MouseButtonId::Auxiliary());
    let m = MouseButtonsBitmask::new(6);
    assert!(m.contains(MouseButtonsBitmask::RightOrSecondary()));
    assert!(m.contains(MouseButtonsBitmask::Auxiliary()));
    assert!(!m.contains(MouseButtonsBitmask::LeftOrPrimary()));
    assert_eq!(
        m,
        MouseButtonsBitmask::RightOrSecondary() | MouseButtonsBitmask::Auxiliary()
    );
}

#[test]
fn raw_zero_holds_no_flag() {
    let m = MouseButtonsBitmask::new(0);
    assert!(m.is_none());
    assert_eq!(m, MouseButtonsBitmask::none());
    for f in named_flags() {
        assert!(!m.contains(f));
    }
}

#[test]
fn unnamed_future_bit_passes_through() {
    let m = MouseButtonsBitmask::new(32);
    assert_eq!(m.bits(), 32);
    assert!(!m.is_none());
    for f in named_flags() {
        assert!(!m.contains(f));
    }
    assert_eq!(m.truncate(), MouseButtonsBitmask::none());
    assert_eq!(MouseButtonsBitmask::new(32 | 4).truncate().bits(), 4);
}

#[test]
fn or_and_algebra() {
    let values = [0u16, 1, 6, 19, 32, 0xabcd, 0xffff];
    for &x in &values {
        let a = MouseButtonsBitmask::new(x);
        assert_eq!(a.or(MouseButtonsBitmask::none()), a);
        assert_eq!(a.and(MouseButtonsBitmask::all_bits()), a);
        for &y in &values {
            let b = MouseButtonsBitmask::new(y);
            assert_eq!(a.or(b), b.or(a));
            assert_eq!(a.and(b), b.and(a));
            assert_eq!((a & b).bits(), x & y);
            assert_eq!((a | b).bits(), x | y);
            for &z in &values {
                let c = MouseButtonsBitmask::new(z);
                assert_eq!(a.or(b).or(c), a.or(b.or(c)));
                assert_eq!(a.and(b).and(c), a.and(b.and(c)));
            }
        }
    }
}

#[test]
fn not_and_xor() {
    let m = MouseButtonsBitmask::new(0x00f0);
    assert_eq!(m.not().bits(), 0xff0f);
    assert_eq!((!m).bits(), 0xff0f);
    let n = MouseButtonsBitmask::new(0x0ff0);
    assert_eq!(m.xor(n).bits(), 0x0f00);
    assert_eq!((m ^ n).bits(), 0x0f00);
    assert_eq!(MouseButtonsBitmask::none().not(), MouseButtonsBitmask::all_bits());
}

#[test]
fn all_bits_and_flag_queries() {
    let all = MouseButtonsBitmask::all_bits();
    assert_eq!(all.bits(), 0xffff);
    assert!(all.is_all_bits());
    assert!(!all.is_all_flags());
    assert!(all.truncate().is_all_flags());
    assert!(!MouseButtonsBitmask::all_flags().is_all_bits());
    assert!(!MouseButtonsBitmask::new(3).is_none());
}

#[test]
fn intersects_and_contains_sets() {
    let m = MouseButtonsBitmask::new(6);
    assert!(m.intersects(MouseButtonsBitmask::new(3)));
    assert!(!m.intersects(MouseButtonsBitmask::new(9)));
    assert!(m.intersects(MouseButtonsBitmask::none()));
    assert!(!m.contains(MouseButtonsBitmask::new(3)));
    assert!(m.contains(MouseButtonsBitmask::new(6)));
    assert!(m.contains(MouseButtonsBitmask::none()));
}

#[test]
fn raw_flag_values_equal_named_flags() {
    let raws = [1u16, 2, 4, 8, 16];
    for (f, v) in named_flags().iter().zip(raws) {
        assert_eq!(MouseButtonsBitmask::new(v), *f);
    }
    assert_eq!(MouseButtonsBitmask::new(31), MouseButtonsBitmask::all_flags());
    assert_ne!(MouseButtonsBitmask::new(2), MouseButtonsBitmask::Auxiliary());
}

#[test]
fn ops_on_masks_match_ops_on_raw_values() {
    let values = [0u16, 3, 6, 32, 0x1234, 0xffff];
    for &a in &values {
        let ma = MouseButtonsBitmask::new(a);
        assert_eq!(ma.not(), MouseButtonsBitmask::new(!a));
        for &b in &values {
            let mb = MouseButtonsBitmask::new(b);
            assert_eq!(ma.or(mb), MouseButtonsBitmask::new(a | b));
            assert_eq!(ma.and(mb), MouseButtonsBitmask::new(a & b));
            assert_eq!(ma.xor(mb), MouseButtonsBitmask::new(a ^ b));
        }
    }
}

#[test]
fn assign_operators() {
    let mut m = MouseButtonsBitmask::new(0b0011);
    m |= MouseButtonsBitmask::new(0b0100);
    assert_eq!(m.bits(), 0b0111);
    m &= MouseButtonsBitmask::new(0b0110);
    assert_eq!(m.bits(), 0b0110);
    m ^= MouseButtonsBitmask::new(0b1010);
    assert_eq!(m.bits(), 0b1100);
}

#[test]
fn mask_compares_with_raw_value() {
    assert!(MouseButtonsBitmask::new(6) == 6u16);
    assert!(MouseButtonsBitmask::Auxiliary() == 4u16);
    assert!(MouseButtonsBitmask::Auxiliary() != 2u16);
}
