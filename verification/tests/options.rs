use toy_os::interrupts::idt::EntryOptions;

#[test]
fn minimal_options_hold_only_the_reserved_bits() {
    let options = EntryOptions::minimal();
    assert_eq!(options.bits(), 0b0000_1110_0000_0000);
    assert!(!options.present());
    assert!(!options.interrupts_enabled());
    assert_eq!(options.privilege_level(), 0);
    assert_eq!(options.stack_index(), 0);
}

#[test]
fn new_options_are_present_with_interrupts_disabled() {
    let options = EntryOptions::new();
    assert_eq!(options.bits(), 0b1000_1110_0000_0000);
    assert!(options.present());
    assert!(!options.interrupts_enabled());
    assert_eq!(options.privilege_level(), 0);
    assert_eq!(options.stack_index(), 0);
}

#[test]
fn set_present_writes_bit_15_only() {
    let mut options = EntryOptions::minimal();
    options.set_present(true);
    assert_eq!(options.bits(), 0x8E00);
    options.set_present(true);
    assert_eq!(options.bits(), 0x8E00);
    options.set_present(false);
    assert_eq!(options.bits(), 0x0E00);
}

#[test]
fn disable_interrupts_writes_the_inverse_into_bit_8() {
    let mut options = EntryOptions::new();
    options.disable_interrupts(false);
    assert_eq!(options.bits(), 0x8F00);
    assert!(options.interrupts_enabled());
    options.disable_interrupts(true);
    assert_eq!(options.bits(), 0x8E00);
    assert!(!options.interrupts_enabled());
}

#[test]
fn set_interrupts_enabled_writes_bit_8() {
    let mut options = EntryOptions::new();
    options.set_interrupts_enabled(true);
    assert_eq!(options.bits(), 0x8F00);
    options.set_interrupts_enabled(false);
    assert_eq!(options.bits(), 0x8E00);
}

#[test]
fn set_privilege_level_writes_bits_13_and_14() {
    let mut options = EntryOptions::new();
    options.set_privilege_level(3);
    assert_eq!(options.bits(), 0xEE00);
    assert_eq!(options.privilege_level(), 3);
    options.set_privilege_level(1);
    assert_eq!(options.bits(), 0xAE00);
    assert_eq!(options.privilege_level(), 1);
    options.set_privilege_level(0);
    assert_eq!(options.bits(), 0x8E00);
}

#[test]
fn set_stack_index_writes_bits_0_to_2() {
    let mut options = EntryOptions::new();
    options.set_stack_index(7);
    assert_eq!(options.bits(), 0x8E07);
    assert_eq!(options.stack_index(), 7);
    options.set_stack_index(2);
    assert_eq!(options.bits(), 0x8E02);
    assert_eq!(options.stack_index(), 2);
}

#[test]
fn setters_chain() {
    let mut options = EntryOptions::minimal();
    options
        .set_present(true)
        .disable_interrupts(false)
        .set_privilege_level(2)
        .set_stack_index(5);
    assert_eq!(options.bits(), 0b1100_1111_0000_0101);
    assert!(options.present());
    assert!(options.interrupts_enabled());
    assert_eq!(options.privilege_level(), 2);
    assert_eq!(options.stack_index(), 5);
}

#[test]
fn each_setter_leaves_the_other_fields_and_the_reserved_bits() {
    let mut start = EntryOptions::new();
    start.set_privilege_level(1).set_stack_index(3).disable_interrupts(false);
    let reserved: u16 = 0x0E00;

    let mut changed = start;
    changed.set_present(false);
    assert!(!changed.present());
    assert!(changed.interrupts_enabled());
    assert_eq!(changed.privilege_level(), 1);
    assert_eq!(changed.stack_index(), 3);
    assert_eq!(changed.bits() & reserved, reserved);

    let mut changed = start;
    changed.disable_interrupts(true);
    assert!(changed.present());
    assert!(!changed.interrupts_enabled());
    assert_eq!(changed.privilege_level(), 1);
    assert_eq!(changed.stack_index(), 3);
    assert_eq!(changed.bits() & reserved, reserved);

    let mut changed = start;
    changed.set_privilege_level(2);
    assert!(changed.present());
    assert!(changed.interrupts_enabled());
    assert_eq!(changed.privilege_level(), 2);
    assert_eq!(changed.stack_index(), 3);
    assert_eq!(changed.bits() & reserved, reserved);

    let mut changed = start;
    changed.set_stack_index(0);
    assert!(changed.present());
    assert!(changed.interrupts_enabled());
    assert_eq!(changed.privilege_level(), 1);
    assert_eq!(changed.stack_index(), 0);
    assert_eq!(changed.bits() & reserved, reserved);
}

#[test]
fn reserved_bits_survive_every_value_of_every_field() {
    let mut level: u16 = 0;
    while level <= 3 {
        let mut index: u16 = 0;
        while index <= 7 {
            let mut options = EntryOptions::minimal();
            options.set_privilege_level(level).set_stack_index(index);
            assert_eq!(options.bits(), 0x0E00 | (level << 13) | index);
            assert_eq!(options.privilege_level(), level);
            assert_eq!(options.stack_index(), index);
            index += 1;
        }
        level += 1;
    }
}
