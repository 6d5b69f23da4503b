use msp430::critical_section::{acquire, release, with};
use msp430::interrupt::CriticalSection;
use msp430::register::{Core, Sr};

#[test]
fn acquire_masks_and_release_restores() {
    let mut core = Core::new(Sr::from_bits(0x0008));
    let saved = acquire(&mut core);
    assert!(!core.read().gie());
    release(&mut core, saved);
    assert!(core.read().gie());
    assert_eq!(core.read().bits(), 0x0008);
}

#[test]
fn release_keeps_interrupts_disabled() {
    let mut core = Core::new(Sr::from_bits(0x0000));
    let saved = acquire(&mut core);
    assert!(!core.read().gie());
    release(&mut core, saved);
    assert!(!core.read().gie());
    assert_eq!(core.read().bits(), 0x0000);
}

#[test]
fn nested_acquire_release_restores_only_at_outermost() {
    let mut core = Core::new(Sr::from_bits(0x000C));
    let outer = acquire(&mut core);
    assert!(!core.read().gie());
    let inner = acquire(&mut core);
    assert!(!core.read().gie());
    release(&mut core, inner);
    assert!(!core.read().gie());
    release(&mut core, outer);
    assert!(core.read().gie());
    assert_eq!(core.read().bits(), 0x000C);
}

#[test]
fn with_passes_result_through() {
    let mut core = Core::new(Sr::from_bits(0x0008));
    let n = with(&mut core, |_cs: &CriticalSection, _c: &Core| 42);
    assert_eq!(n, 42);
    let unit = with(&mut core, |_cs: &CriticalSection, _c: &Core| ());
    assert_eq!(unit, ());
}

#[test]
fn with_initially_disabled_stays_disabled() {
    let mut core = Core::new(Sr::from_bits(0x0000));
    let mut ran = false;
    let during = with(&mut core, |_cs: &CriticalSection, c: &Core| {
        ran = true;
        c.read().gie()
    });
    assert!(ran);
    assert!(!during);
    assert!(!core.read().gie());
    assert_eq!(core.read().bits(), 0x0000);
}

#[test]
fn with_initially_enabled_masks_then_restores() {
    let mut core = Core::new(Sr::from_bits(0x0008));
    let mut ran = false;
    let during = with(&mut core, |_cs: &CriticalSection, c: &Core| {
        ran = true;
        c.read().gie()
    });
    assert!(ran);
    assert!(!during);
    assert!(core.read().gie());
    assert_eq!(core.read().bits(), 0x0008);
}

#[test]
fn with_restores_whole_status_register() {
    let mut core = Core::new(Sr::from_bits(0x01FD));
    let during = with(&mut core, |_cs: &CriticalSection, c: &Core| c.read().bits());
    assert_eq!(during, 0x01F5);
    assert_eq!(core.read().bits(), 0x01FD);
}
