use rps2_sync::arch::{
    interrupt_disable_guard, is_uncached_seg, uncached_seg, uncached_seg_mut, CacheAligned,
};
use rps2_sync::color::slope;
use rps2_sync::deci2;
use rps2_sync::kernel::Kernel;

#[test]
fn uncached_segment_addresses() {
    assert_eq!(uncached_seg(0x0010_0000), 0x2010_0000);
    assert_eq!(uncached_seg_mut(0x2010_0000), 0x2010_0000);
    assert!(is_uncached_seg(0x2000_0040));
    assert!(!is_uncached_seg(0x0000_0040));
}

#[test]
fn cache_aligned_wraps_value() {
    let mut c = CacheAligned(5u32);
    *c.get_mut() += 1;
    assert_eq!(*c.get(), 6);
    assert!(CacheAligned(1) < CacheAligned(2));
}

#[test]
fn interrupt_guard_restores_previous_state() {
    let mut k = Kernel::new();
    let outer = interrupt_disable_guard(&mut k);
    assert!(!k.are_interrupts_enabled());
    let inner = interrupt_disable_guard(&mut k);
    inner.release(&mut k);
    assert!(!k.are_interrupts_enabled());
    outer.release(&mut k);
    assert!(k.are_interrupts_enabled());
}

#[test]
fn deci2_codes_round_trip() {
    assert_eq!(deci2::Event::WriteDone.code(), 4);
    assert_eq!(deci2::Event::from_code(6), Some(deci2::Event::Error));
    assert_eq!(deci2::Event::from_code(0), None);
    assert_eq!(deci2::Error::InvalHead.code(), -12);
    assert_eq!(deci2::Error::from_code(-7), Some(deci2::Error::WouldBlock));
    assert_eq!(deci2::Error::from_code(1), None);
}

#[test]
fn hue_ramp_values() {
    assert_eq!(slope(0), 0);
    assert_eq!(slope(30), 127);
    assert_eq!(slope(60), 255);
    assert_eq!(slope(179), 255);
    assert_eq!(slope(180), 510);
    assert_eq!(slope(239), 259);
    assert_eq!(slope(240), 0);
    assert_eq!(slope(420), 255);
}
