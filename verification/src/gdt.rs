//! Layout of the global descriptor table: a kernel code segment and the
//! descriptor of the task state segment, with the selectors that the CPU
//! segment registers are loaded with; and the top of the dedicated stack
//! that the double-fault handler runs on.

use vstd::prelude::*;
use x86_64::structures::gdt::{Descriptor, GlobalDescriptorTable};
use x86_64::structures::tss::TaskStateSegment;
use x86_64::VirtAddr;

verus! {

/// `GlobalDescriptorTable` of x86_64, seen from here only through
/// `gdt_entries`.
#[verifier::external_type_specification]
#[verifier::external_body]
pub struct ExGlobalDescriptorTable(GlobalDescriptorTable);

/// `TaskStateSegment` of x86_64, carried through unopened.
#[verifier::external_type_specification]
#[verifier::external_body]
pub struct ExTaskStateSegment(TaskStateSegment);

/// Slot of the interrupt stack table that holds the double-fault stack.
pub const DOUBLE_FAULT_IST_INDEX: u16 = 0;

/// Size in bytes of the double-fault handler's stack (20 KiB).
pub const DOUBLE_FAULT_STACK_SIZE: u64 = 4096 * 5;

/// Raw value of the 64-bit kernel code segment descriptor.
pub const KERNEL_CODE64: u64 = 0x00af_9b00_0000_ffff;

/// Limit field of a task state segment descriptor: the size of the
/// segment (`TSS_SIZE`, 104 bytes) minus one.
pub const TSS_LIMIT: u64 = 0x67;

/// A segment descriptor as raw words: a code or data segment takes one
/// slot of the table, a system segment (such as a TSS) takes two.
#[derive(Debug, Clone, Copy, PartialEq, Eq, Structural)]
pub enum SegmentDescriptor {
    User(u64),
    System(u64, u64),
}

impl SegmentDescriptor {
    /// The words the descriptor occupies in the table.
    pub open spec fn words(self) -> Seq<u64> {
        match self {
            SegmentDescriptor::User(value) => seq![value],
            SegmentDescriptor::System(low, high) => seq![low, high],
        }
    }

    /// The descriptor privilege level: bits 45 and 46 of the first word.
    pub open spec fn dpl(self) -> u64 {
        match self {
            SegmentDescriptor::User(value) => (value >> 45u64) & 3u64,
            SegmentDescriptor::System(low, _) => (low >> 45u64) & 3u64,
        }
    }
}

/// The words held by a descriptor table, the leading null entry included.
pub uninterp spec fn gdt_entries(gdt: GlobalDescriptorTable) -> Seq<u64>;

/// A TSS descriptor: a present (bit 47) system segment (bit 44 clear) of
/// type available 64-bit TSS (bits 40 to 43), ring 0 (bits 45 and 46), with
/// the limit of a task state segment (bits 0 to 15), the high limit bits
/// and flags (bits 48 to 55) clear, and only the 32 base-address bits in the
/// low half of the second word.
pub open spec fn is_tss_descriptor(descriptor: SegmentDescriptor) -> bool {
    match descriptor {
        SegmentDescriptor::User(_) => false,
        SegmentDescriptor::System(low, high) => {
            &&& (low >> 48u64) & 0xffu64 == 0
            &&& high >> 32u64 == 0
            &&& low & 0xffffu64 == TSS_LIMIT
            &&& (low >> 40u64) & 0xfu64 == 9
            &&& (low >> 44u64) & 1u64 == 0
            &&& (low >> 45u64) & 3u64 == 0
            &&& (low >> 47u64) & 1u64 == 1
        },
    }
}

/// `GlobalDescriptorTable::new` of x86_64: a table that holds only the
/// null entry.
#[verifier::external_body]
fn new_table() -> (gdt: GlobalDescriptorTable)
    ensures
        gdt_entries(gdt) == seq![0u64],
{
    GlobalDescriptorTable::new()
}

/// `GlobalDescriptorTable::add_entry` of x86_64: appends the descriptor's
/// words to the table (which holds at most 8) and returns the selector of
/// its first word: the word's index times 8 plus the descriptor's DPL.
#[verifier::external_body]
fn add_entry(gdt: &mut GlobalDescriptorTable, entry: SegmentDescriptor) -> (selector: u16)
    requires
        gdt_entries(*old(gdt)).len() + entry.words().len() <= 8,
    ensures
        gdt_entries(*final(gdt)) == gdt_entries(*old(gdt)) + entry.words(),
        selector == gdt_entries(*old(gdt)).len() * 8 + entry.dpl(),
{
    let descriptor = match entry {
        SegmentDescriptor::User(value) => Descriptor::UserSegment(value),
        SegmentDescriptor::System(low, high) => Descriptor::SystemSegment(low, high),
    };
    gdt.add_entry(descriptor).0
}

/// `Descriptor::kernel_code_segment` of x86_64: the flat 64-bit ring-0
/// code segment.
#[verifier::external_body]
fn kernel_code_segment() -> (descriptor: SegmentDescriptor)
    ensures
        descriptor == SegmentDescriptor::User(KERNEL_CODE64),
{
    match Descriptor::kernel_code_segment() {
        Descriptor::UserSegment(value) => SegmentDescriptor::User(value),
        Descriptor::SystemSegment(low, high) => SegmentDescriptor::System(low, high),
    }
}

/// `Descriptor::tss_segment` of x86_64: a system descriptor for `tss`.
/// The base address bits, taken from where `tss` lies in memory, are not
/// stated.
#[verifier::external_body]
fn tss_segment(tss: &'static TaskStateSegment) -> (descriptor: SegmentDescriptor)
    ensures
        is_tss_descriptor(descriptor),
{
    match Descriptor::tss_segment(tss) {
        Descriptor::UserSegment(value) => SegmentDescriptor::User(value),
        Descriptor::SystemSegment(low, high) => SegmentDescriptor::System(low, high),
    }
}

/// An address that a virtual address can be made from: bits 47 to 63 all
/// clear, all set, or only bit 47 set.
pub open spec fn has_canonical_form(addr: u64) -> bool {
    addr >> 47u64 == 0 || addr >> 47u64 == 1 || addr >> 47u64 == 0x1ffff
}

/// The canonical form of such an address: bit 47 copied into bits 48 to 63.
pub open spec fn canonical_form(addr: u64) -> u64 {
    if addr >> 47u64 == 1 {
        addr | 0xffff_0000_0000_0000u64
    } else {
        addr
    }
}

/// The interrupt stack table of a task state segment: seven stack tops.
pub uninterp spec fn interrupt_stacks(tss: TaskStateSegment) -> Seq<u64>;

/// The privilege stack table of a task state segment: three stack tops.
pub uninterp spec fn privilege_stacks(tss: TaskStateSegment) -> Seq<u64>;

/// The I/O permission map base of a task state segment.
pub uninterp spec fn io_map_base(tss: TaskStateSegment) -> u16;

/// Size in bytes of a task state segment.
pub const TSS_SIZE: u16 = 104;

/// `TaskStateSegment::new` of x86_64: a task state segment whose interrupt
/// stack table holds seven zero addresses, whose privilege stack table holds
/// three, and whose I/O map base is the size of the segment (no I/O map).
#[verifier::external_body]
fn new_tss() -> (tss: TaskStateSegment)
    ensures
        interrupt_stacks(tss) == Seq::new(7, |i: int| 0u64),
        privilege_stacks(tss) == Seq::new(3, |i: int| 0u64),
        io_map_base(tss) == TSS_SIZE,
{
    TaskStateSegment::new()
}

/// Stores `VirtAddr::new(addr)` of x86_64 in slot `index` of the interrupt
/// stack table of `tss`: the slot then holds the canonical form of `addr`;
/// the other slots and the rest of the segment keep their values.
#[verifier::external_body]
fn set_interrupt_stack(tss: &mut TaskStateSegment, index: usize, addr: u64)
    requires
        index < 7,
        has_canonical_form(addr),
    ensures
        interrupt_stacks(*final(tss)) == interrupt_stacks(*old(tss)).update(
            index as int,
            canonical_form(addr),
        ),
        privilege_stacks(*final(tss)) == privilege_stacks(*old(tss)),
        io_map_base(*final(tss)) == io_map_base(*old(tss)),
{
    tss.interrupt_stack_table[index] = VirtAddr::new(addr);
}

/// `VirtAddr::new` of x86_64, read back with `as_u64`: an address whose
/// bits 47 to 63 are all clear or all set is kept; one with only bit 47 of
/// them set is sign-extended; any other address makes it panic.
#[verifier::external_body]
fn canonical_address(addr: u64) -> (canonical: u64)
    requires
        has_canonical_form(addr),
    ensures
        canonical == canonical_form(addr),
{
    VirtAddr::new(addr).as_u64()
}

/// The selectors to load after the table: the code segment register's and
/// the task register's.
#[derive(Debug, Clone, Copy, PartialEq, Eq, Structural)]
pub struct Selectors {
    pub code_selector: u16,
    pub tss_selector: u16,
}

/// Builds the kernel's descriptor table: the null entry, the kernel code
/// segment in slot 1 and the descriptor of `tss` in slots 2 and 3. The code
/// selector is 0x08 (index 1, ring 0) and the TSS selector 0x10 (index 2,
/// ring 0).
pub fn build_gdt(tss: &'static TaskStateSegment) -> (result: (GlobalDescriptorTable, Selectors))
    ensures
        gdt_entries(result.0).len() == 4,
        gdt_entries(result.0)[0] == 0,
        gdt_entries(result.0)[1] == KERNEL_CODE64,
        is_tss_descriptor(SegmentDescriptor::System(gdt_entries(result.0)[2], gdt_entries(result.0)[3])),
        result.1.code_selector == 8,
        result.1.tss_selector == 16,
{
    let mut gdt = new_table();
    let code = kernel_code_segment();
    assert((KERNEL_CODE64 >> 45u64) & 3u64 == 0) by (bit_vector);
    let code_selector = add_entry(&mut gdt, code);
    let tss_descriptor = tss_segment(tss);
    let tss_selector = add_entry(&mut gdt, tss_descriptor);
    (gdt, Selectors { code_selector, tss_selector })
}

/// The top of the double-fault stack that starts at `stack_start`: the
/// canonical form of `stack_start + DOUBLE_FAULT_STACK_SIZE`, where the
/// stack grows down from.
pub fn double_fault_stack_top(stack_start: u64) -> (top: u64)
    requires
        stack_start + DOUBLE_FAULT_STACK_SIZE <= u64::MAX,
        has_canonical_form((stack_start + DOUBLE_FAULT_STACK_SIZE) as u64),
    ensures
        top == canonical_form((stack_start + DOUBLE_FAULT_STACK_SIZE) as u64),
{
    canonical_address(stack_start + DOUBLE_FAULT_STACK_SIZE)
}

/// The kernel's task state segment: its interrupt stack table holds, in
/// slot `DOUBLE_FAULT_IST_INDEX`, the top of the double-fault stack that
/// starts at `stack_start`, and zero in the other six slots; its privilege
/// stack table holds three zero addresses and its I/O map base is the size
/// of the segment.
pub fn build_tss(stack_start: u64) -> (tss: TaskStateSegment)
    requires
        stack_start + DOUBLE_FAULT_STACK_SIZE <= u64::MAX,
        has_canonical_form((stack_start + DOUBLE_FAULT_STACK_SIZE) as u64),
    ensures
        interrupt_stacks(tss).len() == 7,
        interrupt_stacks(tss)[DOUBLE_FAULT_IST_INDEX as int] == canonical_form(
            (stack_start + DOUBLE_FAULT_STACK_SIZE) as u64,
        ),
        forall|i: int|
            0 <= i < 7 && i != DOUBLE_FAULT_IST_INDEX ==> #[trigger] interrupt_stacks(tss)[i] == 0,
        privilege_stacks(tss) == Seq::new(3, |i: int| 0u64),
        io_map_base(tss) == TSS_SIZE,
{
    let mut tss = new_tss();
    let top = double_fault_stack_top(stack_start);
    let ghost end = (stack_start + DOUBLE_FAULT_STACK_SIZE) as u64;
    assert(has_canonical_form(top) && canonical_form(top) == top) by (bit_vector)
        requires
            has_canonical_form(end),
            top == canonical_form(end),
    ;
    set_interrupt_stack(&mut tss, DOUBLE_FAULT_IST_INDEX as usize, top);
    tss
}

} // verus!
