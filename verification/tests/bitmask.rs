use bitmaskable::BitMaskable;

#[test]
fn mask_works() {
    let mut m: u32 = 0;

    m.mask(128);

    assert!(m.masked(128));

    m.unmask(128);

    assert!(!m.masked(128));
}

#[test]
fn flip_works() {
    let mut m: u32 = 0;

    m.flip(128);

    assert!(m.masked(128));

    m.flip(128);

    assert!(!m.masked(128));
}

#[test]
fn multi_masks_work() {
    let mut m: u32 = 0;

    m.mask(1 | 2 | 4);

    assert!(m.masked(1 | 2 | 4));

    assert!(m.masked(2 | 4));

    assert!(!m.masked(1 | 2 | 4 | 8));

    m.unmask(2 | 4 | 8);

    assert!(m.masked(1));
}

#[test]
fn mask_is_idempotent() {
    let mut once: u32 = 0b1010_0110;
    let mut twice: u32 = 0b1010_0110;

    once.mask(0b0101_0001);
    twice.mask(0b0101_0001);
    twice.mask(0b0101_0001);

    assert_eq!(once, twice);
    assert_eq!(once, 0b1111_0111);

    let mut s_once: i64 = -7;
    let mut s_twice: i64 = -7;
    s_once.mask(0b1000);
    s_twice.mask(0b1000);
    s_twice.mask(0b1000);
    assert_eq!(s_once, s_twice);
}

#[test]
fn unmask_is_idempotent() {
    let mut once: u32 = 0b1010_0110;
    let mut twice: u32 = 0b1010_0110;

    once.unmask(0b0011_0101);
    twice.unmask(0b0011_0101);
    twice.unmask(0b0011_0101);

    assert_eq!(once, twice);
    assert_eq!(once, 0b1000_0010);

    let mut s_once: i32 = -1;
    let mut s_twice: i32 = -1;
    s_once.unmask(0b110);
    s_twice.unmask(0b110);
    s_twice.unmask(0b110);
    assert_eq!(s_once, s_twice);
    assert_eq!(s_once, -7);
}

#[test]
fn flip_is_an_involution() {
    let mut m: u32 = 0xDEAD_BEEF;
    m.flip(0x1234_5678);
    m.flip(0x1234_5678);
    assert_eq!(m, 0xDEAD_BEEF);

    let mut s: i16 = -12345;
    s.flip(0x7FFF);
    assert_ne!(s, -12345);
    s.flip(0x7FFF);
    assert_eq!(s, -12345);
}

#[test]
fn complement_law() {
    let mut m: u64 = 0x00F0;

    m.mask(0x0F00);
    assert!(m.masked(0x0F00));

    m.unmask(0x0F00);
    assert!(!m.masked(0x0F00));

    let mut s: i8 = 0;
    s.mask(0b101);
    assert!(s.masked(0b101));
    s.unmask(0b101);
    assert!(!s.masked(0b101));
}

#[test]
fn zero_mask_is_always_applied() {
    assert!(0u32.masked(0));
    assert!(0xFFFF_FFFFu32.masked(0));
    assert!(0b1010u8.masked(0));
    assert!(u64::MAX.masked(0));
    assert!((-1i64).masked(0));
    assert!(0i16.masked(0));
    assert!(true.masked(false));
    assert!(false.masked(false));
}

#[test]
fn operations_leave_outside_bits_alone() {
    let b: u32 = 0b0000_1111;
    let outside: u32 = !b;
    let start: u32 = 0b1100_1010;

    let mut m: u32 = start;
    m.mask(b);
    assert_eq!(m & outside, start & outside);

    let mut f: u32 = start;
    f.flip(b);
    assert_eq!(f & outside, start & outside);

    let mut u: u32 = start;
    u.unmask(b);
    assert_eq!(u & outside, start & outside);
}

#[test]
fn flip_mask_unmask_scenario() {
    let mut m: u32 = 0;

    m.flip(128);
    assert_eq!(m, 128);

    m.mask(1 | 4 | 8 | 64);
    assert_eq!(m, 1 | 4 | 8 | 64 | 128);

    m.flip(128);
    assert_eq!(m, 1 | 4 | 8 | 64);

    m.unmask(8);
    assert_eq!(m, 1 | 4 | 64);

    assert!(m.masked(4 | 64));
    assert!(!m.masked(8 | 128));
}

#[test]
fn all_widths_mask_exactly() {
    let mut a: u8 = 0x0F;
    a.mask(0xF0);
    assert_eq!(a, 0xFF);

    let mut b: u16 = 0x00FF;
    b.mask(0x0F00);
    assert_eq!(b, 0x0FFF);

    let mut c: u32 = 0;
    c.mask(u32::MAX);
    assert_eq!(c, u32::MAX);

    let mut d: u64 = 0x8000_0000_0000_0000;
    d.mask(1);
    assert_eq!(d, 0x8000_0000_0000_0001);

    let mut e: i8 = 0;
    e.mask(-1);
    assert_eq!(e, -1);

    let mut f: i16 = 1;
    f.mask(2);
    assert_eq!(f, 3);

    let mut g: i32 = i32::MIN;
    g.mask(1);
    assert_eq!(g, i32::MIN | 1);

    let mut h: i64 = 0;
    h.mask(i64::MIN);
    assert_eq!(h, i64::MIN);
}

#[test]
fn all_widths_unmask_exactly() {
    let mut a: u8 = 0xFF;
    a.unmask(0x0F);
    assert_eq!(a, 0xF0);

    let mut b: u16 = 0xFFFF;
    b.unmask(0xFF00);
    assert_eq!(b, 0x00FF);

    let mut c: u32 = u32::MAX;
    c.unmask(u32::MAX);
    assert_eq!(c, 0);

    let mut d: u64 = u64::MAX;
    d.unmask(1);
    assert_eq!(d, u64::MAX - 1);

    let mut e: i8 = -1;
    e.unmask(-2);
    assert_eq!(e, 1);

    let mut f: i32 = -1;
    f.unmask(i32::MIN);
    assert_eq!(f, i32::MAX);

    let mut g: i64 = -1;
    g.unmask(-1);
    assert_eq!(g, 0);
}

#[test]
fn signed_values_test_masks() {
    let every_bit: i32 = -1;
    assert!(every_bit.masked(0x7FFF_FFFF));
    assert!(every_bit.masked(i32::MIN));
    assert!(every_bit.masked(-1));

    let low: i32 = 0b11;
    assert!(low.masked(0b10));
    assert!(!low.masked(0b100));
}

#[test]
fn free_functions_match_methods() {
    let mut m: u32 = 0;

    bitmaskable::mask(&mut m, 0b101);
    assert_eq!(m, 0b101);

    bitmaskable::flip(&mut m, 0b111);
    assert_eq!(m, 0b010);
    assert!(bitmaskable::masked(m, 0b010));

    bitmaskable::unmask(&mut m, 0b010);
    assert_eq!(m, 0);
    assert!(bitmaskable::masked(m, 0));
}

#[test]
fn bool_acts_as_one_bit_container() {
    let mut m: bool = false;

    m.mask(true);
    assert!(m);
    assert!(m.masked(true));

    m.flip(true);
    assert!(!m);
    assert!(!m.masked(true));

    m.flip(true);
    assert!(m);

    m.unmask(true);
    assert!(!m);
    assert!(!m.masked(true));

    m.mask(false);
    assert!(!m);
    assert!(m.masked(false));
}
