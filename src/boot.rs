use vstd::prelude::*;
use crate::page::{flag_union, with_flags, Entry, Flag, PageTable};

verus! {

/// Virtual address the kernel image is linked to run at.
pub const KERNEL_VIRT_BASE: u64 = 0xffffffff80200000;

/// Physical address the kernel image is loaded at.
pub const KERNEL_PHYS_BASE: u64 = 0x80200000;

/// Virtual address of the post-translation init stage, a fixed offset above
/// the kernel's virtual base.
pub const KERNEL_INIT_VIRT: u64 = 0xffffffff80204000;

/// Mode field of the translation-root register that selects Sv39.
pub const SATP_MODE_SV39: u64 = 8;

/// Slot of the low device window.
pub const DEVICE_WINDOW_SLOT: usize = 0;

/// Top-level slot that translates `vaddr`: bits 30 to 38 of the address.
pub open spec fn spec_slot_index(vaddr: u64) -> u64 {
    (vaddr >> 30) & 0x1ff
}

/// Frame-number field of a 1 GiB superpage entry that maps the gigabyte
/// holding `paddr`: the top frame-number part, bits 30 to 55 of the address,
/// moved to bits 28 to 53 of the entry.
pub open spec fn spec_superpage_frame(paddr: u64) -> u64 {
    ((paddr >> 30) & 0x3ff_ffff) << 28
}

/// Translation-root register value that selects Sv39 with the table at
/// physical address `table_paddr` as the root.
pub open spec fn spec_translation_root(table_paddr: u64) -> u64 {
    (SATP_MODE_SV39 << 60) | (table_paddr >> 12)
}

/// Flags of the kernel image mappings.
pub open spec fn kernel_flags() -> Seq<Flag> {
    seq![Flag::Valid, Flag::Read, Flag::Write, Flag::Execute]
}

/// Flags of the device window: no Execute.
pub open spec fn device_flags() -> Seq<Flag> {
    seq![Flag::Valid, Flag::Read, Flag::Write]
}

/// Word installed in the higher-half and identity slots.
pub open spec fn kernel_word() -> u64 {
    with_flags(spec_superpage_frame(KERNEL_PHYS_BASE), kernel_flags())
}

/// Word installed in the device-window slot: physical address 0.
pub open spec fn device_word() -> u64 {
    with_flags(0, device_flags())
}

/// Slot of the higher-half kernel mapping.
pub open spec fn higher_half_slot() -> int {
    spec_slot_index(KERNEL_VIRT_BASE) as int
}

/// Slot of the identity kernel mapping.
pub open spec fn identity_slot() -> int {
    spec_slot_index(KERNEL_PHYS_BASE) as int
}

/// The table after the mapping stage: the higher-half slot, then the
/// identity slot, then the device-window slot are written, in that order.
pub open spec fn boot_words(before: Seq<u64>) -> Seq<u64> {
    before.update(higher_half_slot(), kernel_word()).update(identity_slot(), kernel_word()).update(
        DEVICE_WINDOW_SLOT as int,
        device_word(),
    )
}

/// One platform operation of the boot sequence, carried out by a shim in order.
#[derive(Clone, Copy, Debug, PartialEq, Eq, Structural)]
pub enum BootOp {
    /// Point the stack pointer at the linker-provided stack top.
    LoadStackTop,
    /// Transfer, never to return, to the mapping stage.
    EnterMappingStage { hart_id: u64, dev_tree: u64 },
    /// Write the translation-root register.
    WriteTranslationRoot(u64),
    /// Invalidate every cached translation.
    FlushTranslationCache,
    /// Transfer, never to return, to the code at virtual address `target`.
    JumpToVirtual { target: u64, hart_id: u64, dev_tree: u64, page_table: u64 },
    /// Call the kernel's general entry point.
    CallKernelMain { hart_id: u64, dev_tree: u64, page_table: u64 },
    /// Enter the idle wait loop.
    EnterIdle,
}

/// Top-level slot that translates `vaddr`.
pub fn slot_index(vaddr: u64) -> (r: usize)
    ensures
        r == spec_slot_index(vaddr),
        r < 512,
{
    let i = (vaddr >> 30) & 0x1ff;
    assert((vaddr >> 30) & 0x1ff < 512) by (bit_vector);
    i as usize
}

/// Frame-number field of the superpage entry that maps the gigabyte holding `paddr`.
pub fn superpage_frame(paddr: u64) -> (r: u64)
    ensures
        r == spec_superpage_frame(paddr),
{
    assert(((paddr >> 30) & 0x3ff_ffff) << 28 <= u64::MAX) by (bit_vector);
    ((paddr >> 30) & 0x3ff_ffff) << 28
}

/// Translation-root register value for a table at physical address `table_paddr`.
pub fn translation_root(table_paddr: u64) -> (r: u64)
    ensures
        r == spec_translation_root(table_paddr),
{
    (SATP_MODE_SV39 << 60) | (table_paddr >> 12)
}

/// Entry mapping the kernel's gigabyte with Valid, Read, Write and Execute.
pub fn kernel_page_entry() -> (r: Entry)
    ensures
        r.value() == kernel_word(),
{
    let flags = [Flag::Valid, Flag::Read, Flag::Write, Flag::Execute];
    assert(flags@ =~= kernel_flags());
    Entry::new(superpage_frame(KERNEL_PHYS_BASE)).flags(&flags)
}

/// Entry mapping the lowest gigabyte with Valid, Read and Write.
pub fn device_window_entry() -> (r: Entry)
    ensures
        r.value() == device_word(),
{
    let flags = [Flag::Valid, Flag::Read, Flag::Write];
    assert(flags@ =~= device_flags());
    Entry::new(0).flags(&flags)
}

/// Entry stage: with a provisional stack, hand the hardware's two arguments
/// on to the mapping stage unchanged.
pub fn start(hart_id: u64, dev_tree: u64) -> (ops: Vec<BootOp>)
    ensures
        ops@ == seq![BootOp::LoadStackTop, BootOp::EnterMappingStage { hart_id, dev_tree }],
{
    let mut ops: Vec<BootOp> = Vec::new();
    ops.push(BootOp::LoadStackTop);
    ops.push(BootOp::EnterMappingStage { hart_id, dev_tree });
    assert(ops@ =~= seq![BootOp::LoadStackTop, BootOp::EnterMappingStage { hart_id, dev_tree }]);
    ops
}

/// The operations that close the mapping stage: install the table at
/// `table_paddr` as the translation root, then flush stale translations,
/// then jump to the init stage in the higher half.
pub open spec fn mapping_handoff(hart_id: u64, dev_tree: u64, table_paddr: u64) -> Seq<BootOp> {
    seq![
        BootOp::WriteTranslationRoot(spec_translation_root(table_paddr)),
        BootOp::FlushTranslationCache,
        BootOp::JumpToVirtual {
            target: KERNEL_INIT_VIRT,
            hart_id,
            dev_tree,
            page_table: table_paddr,
        },
    ]
}

/// Mapping stage: installs the higher-half, identity and device-window
/// superpages in `table`, whose physical address is `table_paddr`, and
/// returns the operations that switch translation on and leave for the
/// higher half.
pub fn vmem_init(hart_id: u64, dev_tree: u64, table: &mut PageTable, table_paddr: u64) -> (ops: Vec<BootOp>)
    ensures
        final(table)@ == boot_words(old(table)@),
        ops@ == mapping_handoff(hart_id, dev_tree, table_paddr),
{
    let kernel_page = kernel_page_entry();
    let kernel_high = slot_index(KERNEL_VIRT_BASE);
    table.set_entry(kernel_high, kernel_page);
    let kernel_id = slot_index(KERNEL_PHYS_BASE);
    table.set_entry(kernel_id, kernel_page);
    table.set_entry(DEVICE_WINDOW_SLOT, device_window_entry());

    let mut ops: Vec<BootOp> = Vec::new();
    ops.push(BootOp::WriteTranslationRoot(translation_root(table_paddr)));
    ops.push(BootOp::FlushTranslationCache);
    ops.push(
        BootOp::JumpToVirtual {
            target: KERNEL_INIT_VIRT,
            hart_id,
            dev_tree,
            page_table: table_paddr,
        },
    );
    assert(ops@ =~= mapping_handoff(hart_id, dev_tree, table_paddr));
    ops
}

/// Post-translation init stage: with the stack set again, now through the
/// higher-half mapping, call the kernel's entry point with the three values,
/// and fall through to the idle loop should it return.
pub fn kernel_init(hart_id: u64, dev_tree: u64, page_table: u64) -> (ops: Vec<BootOp>)
    ensures
        ops@ == seq![
            BootOp::LoadStackTop,
            BootOp::CallKernelMain { hart_id, dev_tree, page_table },
            BootOp::EnterIdle,
        ],
{
    let mut ops: Vec<BootOp> = Vec::new();
    ops.push(BootOp::LoadStackTop);
    ops.push(BootOp::CallKernelMain { hart_id, dev_tree, page_table });
    ops.push(BootOp::EnterIdle);
    assert(ops@ =~= seq![
        BootOp::LoadStackTop,
        BootOp::CallKernelMain { hart_id, dev_tree, page_table },
        BootOp::EnterIdle,
    ]);
    ops
}

/// The configured slots and words, as numbers: the higher half of the
/// kernel goes through slot 510, its identity mapping through slot 2, the
/// kernel word maps physical gigabyte 2 with Valid, Read, Write and Execute,
/// and the device word maps physical gigabyte 0 with Valid, Read and Write.
pub proof fn lemma_boot_constants()
    ensures
        higher_half_slot() == 510,
        identity_slot() == 2,
        spec_superpage_frame(KERNEL_PHYS_BASE) == 0x2000_0000,
        flag_union(kernel_flags()) == 0xf,
        flag_union(device_flags()) == 0x7,
        kernel_word() == 0x2000_000f,
        device_word() == 0x7,
{
    assert((0xffffffff80200000u64 >> 30) & 0x1ff == 510 && (0x80200000u64 >> 30) & 0x1ff == 2 && ((
    0x80200000u64 >> 30) & 0x3ff_ffff) << 28 == 0x2000_0000) by (bit_vector);
    crate::page::lemma_flag_bit_values();
    let v = seq![Flag::Valid];
    let vr = seq![Flag::Valid, Flag::Read];
    let vrw = seq![Flag::Valid, Flag::Read, Flag::Write];
    assert(v.drop_last() =~= Seq::<Flag>::empty());
    assert(vr.drop_last() =~= v);
    assert(vrw.drop_last() =~= vr);
    assert(kernel_flags().drop_last() =~= vrw);
    assert(device_flags() =~= vrw);
    assert(flag_union(Seq::<Flag>::empty()) == 0);
    assert(0u64 | 1 == 1 && 1u64 | 2 == 3 && 3u64 | 4 == 7 && 7u64 | 8 == 0xf && 0u64 | 7 == 7
        && 0x2000_0000u64 | 0xf == 0x2000_000f) by (bit_vector);
    assert(flag_union(v) == 1);
    assert(flag_union(vr) == 3);
    assert(flag_union(vrw) == 7);
    assert(flag_union(kernel_flags()) == 0xf);
}

/// Both kernel slots lie inside the table, and after the mapping stage each
/// holds the kernel word, which carries Valid, Read, Write and Execute.
pub proof fn lemma_kernel_slots(before: Seq<u64>)
    requires
        before.len() == 512,
    ensures
        0 <= higher_half_slot() < 512,
        0 <= identity_slot() < 512,
        boot_words(before)[higher_half_slot()] == kernel_word(),
        boot_words(before)[identity_slot()] == kernel_word(),
        kernel_word() & Flag::Valid.spec_bit() != 0,
        kernel_word() & Flag::Read.spec_bit() != 0,
        kernel_word() & Flag::Write.spec_bit() != 0,
        kernel_word() & Flag::Execute.spec_bit() != 0,
{
    lemma_boot_constants();
    crate::page::lemma_flag_bit_values();
    assert(0x2000_000fu64 & 1 != 0 && 0x2000_000fu64 & 2 != 0 && 0x2000_000fu64 & 4 != 0
        && 0x2000_000fu64 & 8 != 0) by (bit_vector);
}

/// The device window is slot 0; after the mapping stage it maps physical
/// address 0 with Valid, Read and Write, and never with Execute.
pub proof fn lemma_device_window(before: Seq<u64>)
    requires
        before.len() == 512,
    ensures
        DEVICE_WINDOW_SLOT == 0,
        boot_words(before)[0] == device_word(),
        device_word() >> 10 == 0,
        device_word() & Flag::Valid.spec_bit() != 0,
        device_word() & Flag::Read.spec_bit() != 0,
        device_word() & Flag::Write.spec_bit() != 0,
        device_word() & Flag::Execute.spec_bit() == 0,
{
    lemma_boot_constants();
    crate::page::lemma_flag_bit_values();
    assert(7u64 >> 10 == 0 && 7u64 & 1 != 0 && 7u64 & 2 != 0 && 7u64 & 4 != 0 && 7u64 & 8 == 0)
        by (bit_vector);
}

/// With the kernel at virtual 0xffffffff80200000 and physical 0x80200000,
/// the two kernel slots are the ones those addresses select, and both hold
/// the same physical frame number, that of the gigabyte holding 0x80200000.
pub proof fn lemma_kernel_frames(before: Seq<u64>)
    requires
        before.len() == 512,
    ensures
        higher_half_slot() == (0xffffffff80200000u64 >> 30) & 0x1ff,
        identity_slot() == (0x80200000u64 >> 30) & 0x1ff,
        boot_words(before)[higher_half_slot()] >> 10 == boot_words(before)[identity_slot()] >> 10,
        boot_words(before)[identity_slot()] >> 10 == (0x80200000u64 >> 30) << 18,
{
    lemma_boot_constants();
    assert(0x2000_000fu64 >> 10 == (0x80200000u64 >> 30) << 18) by (bit_vector);
}

/// The translation-root value for any table below the 56-bit physical limit
/// holds the Sv39 mode in its top four bits, the table's frame number in its
/// low 44 bits, and address-space id 0 between them.
pub proof fn lemma_translation_root_fields(table_paddr: u64)
    requires
        table_paddr < 0x100_0000_0000_0000,
    ensures
        spec_translation_root(table_paddr) >> 60 == SATP_MODE_SV39,
        spec_translation_root(table_paddr) & 0xfff_ffff_ffff == table_paddr >> 12,
        (spec_translation_root(table_paddr) >> 44) & 0xffff == 0,
{
    let r = (8u64 << 60) | (table_paddr >> 12);
    assert(r >> 60 == 8 && r & 0xfff_ffff_ffff == table_paddr >> 12 && (r >> 44) & 0xffff == 0)
        by (bit_vector)
        requires
            table_paddr < 0x100_0000_0000_0000,
            r == (8u64 << 60) | (table_paddr >> 12),
    ;
}

/// Starting from an empty table, the mapping stage leaves exactly three
/// valid slots, the device window, the identity slot and the higher-half
/// slot, with their described words, and every other slot zero.
pub proof fn lemma_boot_table_exact(before: Seq<u64>)
    requires
        before.len() == 512,
        forall|i: int| 0 <= i < 512 ==> before[i] == 0,
    ensures
        boot_words(before).len() == 512,
        forall|i: int|
            0 <= i < 512 ==> #[trigger] boot_words(before)[i] == if i == DEVICE_WINDOW_SLOT {
                device_word()
            } else if i == identity_slot() || i == higher_half_slot() {
                kernel_word()
            } else {
                0
            },
        forall|i: int|
            0 <= i < 512 ==> ((#[trigger] boot_words(before)[i] & Flag::Valid.spec_bit() != 0) <==> (i
                == DEVICE_WINDOW_SLOT || i == identity_slot() || i == higher_half_slot())),
{
    lemma_boot_constants();
    crate::page::lemma_flag_bit_values();
    assert(0x2000_000fu64 & 1 != 0 && 7u64 & 1 != 0 && 0u64 & 1 == 0) by (bit_vector);
}

/// Composing a superpage entry for physical address `paddr` with any flags
/// gives a word whose low byte is exactly the union of the flag bits and
/// whose bits from 28 up are the gigabyte frame number of `paddr`.
pub proof fn lemma_superpage_entry_layout(paddr: u64, flags: Seq<Flag>)
    ensures
        with_flags(spec_superpage_frame(paddr), flags) & 0xff == flag_union(flags),
        with_flags(spec_superpage_frame(paddr), flags) >> 28 == (paddr >> 30) & 0x3ff_ffff,
{
    crate::page::lemma_flag_union_bits(flags);
    let u = flag_union(flags);
    let w = (((paddr >> 30) & 0x3ff_ffff) << 28) | u;
    assert(w & 0xff == u && w >> 28 == (paddr >> 30) & 0x3ff_ffff) by (bit_vector)
        requires
            u < 256,
            w == (((paddr >> 30) & 0x3ff_ffff) << 28) | u,
    ;
}

/// The address the mapping stage jumps to is translated by the higher-half
/// slot, which the stage has filled with an executable kernel word, and
/// resolves to the same offset above the kernel's physical base as it lies
/// above the kernel's virtual base.
pub proof fn lemma_jump_target_mapped(before: Seq<u64>)
    requires
        before.len() == 512,
    ensures
        spec_slot_index(KERNEL_INIT_VIRT) == higher_half_slot(),
        boot_words(before)[higher_half_slot()] & Flag::Execute.spec_bit() != 0,
        ((boot_words(before)[higher_half_slot()] >> 28) << 30) | (KERNEL_INIT_VIRT & 0x3fff_ffff)
            == KERNEL_PHYS_BASE + (KERNEL_INIT_VIRT - KERNEL_VIRT_BASE),
{
    lemma_kernel_slots(before);
    lemma_boot_constants();
    assert((0xffffffff80204000u64 >> 30) & 0x1ff == 510 && ((0x2000_000fu64 >> 28) << 30) | (
    0xffffffff80204000u64 & 0x3fff_ffff) == 0x80204000) by (bit_vector);
}

} // verus!
