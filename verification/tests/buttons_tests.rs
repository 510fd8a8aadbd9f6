use sc_evdev::buttons::{Buttons, STEAM_BUTTON_ORDER};

#[test]
fn empty_set_has_no_buttons() {
    let b = Buttons::empty();
    assert_eq!(b.bits(), 0);
    assert!(b.is_empty());
}

#[test]
fn truncate_keeps_every_bit() {
    assert_eq!(Buttons::from_bits_truncate(0xffff_ffff).bits(), 0xffff_ffff);
    assert_eq!(Buttons::from_bits_truncate(0x8000_0001).bits(), 0x8000_0001);
}

#[test]
fn contains_difference_union() {
    let ab = Buttons::from_bits_retain(Buttons::BTN_A | Buttons::BTN_B);
    let a = Buttons::from_bits_retain(Buttons::BTN_A);
    let x = Buttons::from_bits_retain(Buttons::BTN_X);
    assert!(ab.contains(a));
    assert!(!ab.contains(x));
    assert!(ab.contains(Buttons::empty()));
    assert_eq!(ab.difference(a).bits(), Buttons::BTN_B);
    assert_eq!(a.union(x).bits(), Buttons::BTN_A | Buttons::BTN_X);
}

#[test]
fn iter_yields_declaration_order() {
    let b = Buttons::from_bits_retain(Buttons::BTN_Y | Buttons::BTN_X | Buttons::BTN_START | Buttons::BTN_SELECT | Buttons::BTN_A);
    let got: Vec<u32> = b.iter().iter().map(|f| f.bits()).collect();
    assert_eq!(got, vec![Buttons::BTN_A, Buttons::BTN_X, Buttons::BTN_Y, Buttons::BTN_SELECT, Buttons::BTN_START]);
}

#[test]
fn iter_of_all_buttons_follows_the_order_table() {
    let got: Vec<u32> = Buttons::from_bits_retain(0xffff_ffff).iter().iter().map(|f| f.bits()).collect();
    assert_eq!(got, STEAM_BUTTON_ORDER.to_vec());
    assert!(Buttons::empty().iter().is_empty());
}
