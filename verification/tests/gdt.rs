use open_os::gdt::{build_gdt, build_tss, double_fault_stack_top, DOUBLE_FAULT_IST_INDEX, DOUBLE_FAULT_STACK_SIZE, KERNEL_CODE64};
use x86_64::structures::tss::TaskStateSegment;

#[test]
fn gdt_has_code_segment_then_tss() {
    let tss: &'static TaskStateSegment = Box::leak(Box::new(TaskStateSegment::new()));
    let (gdt, selectors) = build_gdt(tss);
    assert_eq!(selectors.code_selector, 0x08);
    assert_eq!(selectors.tss_selector, 0x10);
    let entries = gdt.as_raw_slice();
    assert_eq!(entries.len(), 4);
    assert_eq!(entries[0], 0);
    assert_eq!(entries[1], KERNEL_CODE64);
    assert_eq!(entries[1], 0x00af9b000000ffff);
    assert_eq!(entries[2] & 0xffff, 0x67);
    assert_eq!((entries[2] >> 40) & 0xf, 0b1001);
    assert_eq!((entries[2] >> 44) & 1, 0);
    assert_eq!((entries[2] >> 45) & 3, 0);
    assert_eq!((entries[2] >> 47) & 1, 1);
    assert_eq!((entries[2] >> 48) & 0xff, 0);
    assert_eq!(entries[3] >> 32, 0);
    let printed = format!("{:p}", tss);
    let address = u64::from_str_radix(printed.trim_start_matches("0x"), 16).unwrap();
    assert_eq!(entries[3], address >> 32);
}

#[test]
fn double_fault_stack_is_first_ist_slot_of_20_kib() {
    assert_eq!(DOUBLE_FAULT_IST_INDEX, 0);
    assert_eq!(DOUBLE_FAULT_STACK_SIZE, 20 * 1024);
}

#[test]
fn stack_top_is_start_plus_size() {
    assert_eq!(double_fault_stack_top(0x1000), 0x1000 + 20480);
    assert_eq!(double_fault_stack_top(0xffff_8000_0000_0000), 0xffff_8000_0000_5000);
}

#[test]
fn stack_top_is_sign_extended() {
    assert_eq!(double_fault_stack_top(0x7fff_ffff_f000), 0xffff_8000_0000_4000);
}

#[test]
fn tss_holds_double_fault_stack_in_first_slot() {
    let tss = build_tss(0x1000);
    let stacks = tss.interrupt_stack_table;
    assert_eq!(stacks[0].as_u64(), 0x1000 + 20480);
    for slot in stacks.iter().skip(1) {
        assert_eq!(slot.as_u64(), 0);
    }
}

#[test]
fn tss_stack_top_is_sign_extended() {
    let tss = build_tss(0x7fff_ffff_f000);
    let stacks = tss.interrupt_stack_table;
    assert_eq!(stacks[0].as_u64(), 0xffff_8000_0000_4000);
}
