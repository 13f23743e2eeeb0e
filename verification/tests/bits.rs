use lpc8xx_syscon::bits::{clear_bits, set_bits};
use lpc8xx_syscon::register::{RegisterWindow, ShadowRegister};

#[test]
fn set_bits_sets_the_mask() {
    assert_eq!(set_bits(0, 0), 0);
    assert_eq!(set_bits(0x0f0f_0000, 0x0000_00f0), 0x0f0f_00f0);
    assert_eq!(set_bits(0xffff_ffff, 0x1), 0xffff_ffff);
    assert_eq!(set_bits(0x5, 0x6), 0x7);
}

#[test]
fn clear_bits_clears_the_mask() {
    assert_eq!(clear_bits(0, 0xffff_ffff), 0);
    assert_eq!(clear_bits(0xffff_ffff, 0), 0xffff_ffff);
    assert_eq!(clear_bits(0x0f0f_00f0, 0x0000_00f0), 0x0f0f_0000);
    assert_eq!(clear_bits(0x7, 0x6), 0x1);
}

#[test]
fn shadow_register_reads_what_was_written() {
    let mut r = ShadowRegister::new(0xdead_beef);
    assert_eq!(r.read(), 0xdead_beef);
    r.write(0x0bad_f00d);
    assert_eq!(r.read(), 0x0bad_f00d);
    assert_eq!(r.bits, 0x0bad_f00d);
}

#[test]
fn modify_writes_back_what_the_function_returns() {
    let mut r = ShadowRegister::new(0x0000_00f0);
    r.modify(|w| (w << 4) | 1);
    assert_eq!(r.read(), 0x0000_0f01);
}
