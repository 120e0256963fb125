use sv39_boot::boot::{
    device_window_entry, kernel_init, kernel_page_entry, slot_index, start, superpage_frame,
    translation_root, vmem_init, BootOp, DEVICE_WINDOW_SLOT, KERNEL_INIT_VIRT, KERNEL_PHYS_BASE,
    KERNEL_VIRT_BASE, SATP_MODE_SV39,
};
use sv39_boot::page::PageTable;

#[test]
fn slot_indices_of_configured_bases() {
    assert_eq!(slot_index(0xffffffff80200000), ((0xffffffff80200000u64 >> 30) & 0x1ff) as usize);
    assert_eq!(slot_index(0x80200000), ((0x80200000u64 >> 30) & 0x1ff) as usize);
    assert_eq!(slot_index(KERNEL_VIRT_BASE), 510);
    assert_eq!(slot_index(KERNEL_PHYS_BASE), 2);
}

#[test]
fn slot_index_stays_in_table() {
    assert_eq!(slot_index(u64::MAX), 511);
    assert_eq!(slot_index(0), 0);
    assert_eq!(slot_index(0x3fff_ffff), 0);
    assert_eq!(slot_index(0x4000_0000), 1);
    assert_eq!(slot_index(0x80_0000_0000), 0);
}

#[test]
fn superpage_frame_of_kernel() {
    assert_eq!(superpage_frame(0x80200000), 0x2000_0000);
    assert_eq!(superpage_frame(0x3fff_ffff), 0);
    assert_eq!(superpage_frame(u64::MAX), 0x3ff_ffff << 28);
}

#[test]
fn translation_root_encoding() {
    assert_eq!(SATP_MODE_SV39, 8);
    assert_eq!(translation_root(0x8020_5000), (8u64 << 60) | 0x80205);
    assert_eq!(translation_root(0), 0x8000_0000_0000_0000);
    assert_eq!(translation_root(0x8020_5fff), 0x8000_0000_0008_0205);
    let r = translation_root(0xff_ffff_ffff_f000);
    assert_eq!(r >> 60, 8);
    assert_eq!(r & 0xfff_ffff_ffff, 0xfff_ffff_ffff);
}

#[test]
fn kernel_entry_is_rwx() {
    let k = kernel_page_entry().bits();
    assert_eq!(k, 0x2000_000f);
    assert_eq!(k & 0xf, 0xf);
}

#[test]
fn device_window_is_never_executable() {
    let d = device_window_entry().bits();
    assert_eq!(DEVICE_WINDOW_SLOT, 0);
    assert_eq!(d, 0x7);
    assert_eq!(d & 0x8, 0);
    assert_eq!(d >> 10, 0);
}

#[test]
fn kernel_slots_share_physical_frame() {
    let mut t = PageTable::zeroed();
    let _ = vmem_init(0, 0, &mut t, 0x8020_6000);
    let high = t.entry(((0xffffffff80200000u64 >> 30) & 0x1ff) as usize).bits();
    let id = t.entry(((0x80200000u64 >> 30) & 0x1ff) as usize).bits();
    assert_eq!(high >> 10, id >> 10);
    assert_eq!((id >> 10) << 12, 0x8000_0000);
    assert_eq!(high & 0xf, 0xf);
}

#[test]
fn mapping_stage_end_to_end() {
    let mut t = PageTable::zeroed();
    let dev_tree: u64 = 0x8220_0000;
    let table_paddr: u64 = 0x8020_6000;
    let ops = vmem_init(0, dev_tree, &mut t, table_paddr);
    for i in 0..512 {
        let w = t.entry(i).bits();
        match i {
            0 => assert_eq!(w, 0x7),
            2 | 510 => assert_eq!(w, 0x2000_000f),
            _ => assert_eq!(w, 0, "slot {}", i),
        }
    }
    assert_eq!(
        ops,
        vec![
            BootOp::WriteTranslationRoot((8u64 << 60) | (table_paddr >> 12)),
            BootOp::FlushTranslationCache,
            BootOp::JumpToVirtual {
                target: 0xffffffff80204000,
                hart_id: 0,
                dev_tree,
                page_table: table_paddr,
            },
        ]
    );
    assert_eq!(KERNEL_INIT_VIRT, 0xffffffff80204000);
}

#[test]
fn mapping_stage_keeps_other_slots() {
    let mut t = PageTable::zeroed();
    t.set_entry(100, sv39_boot::page::Entry::new(0x55));
    t.set_entry(2, sv39_boot::page::Entry::new(0x99));
    let _ = vmem_init(3, 4, &mut t, 0);
    assert_eq!(t.entry(100).bits(), 0x55);
    assert_eq!(t.entry(2).bits(), 0x2000_000f);
}

#[test]
fn entry_stage_forwards_arguments() {
    assert_eq!(
        start(1, 0xbfe0_0000),
        vec![BootOp::LoadStackTop, BootOp::EnterMappingStage { hart_id: 1, dev_tree: 0xbfe0_0000 }]
    );
}

#[test]
fn init_stage_calls_kernel_then_idles() {
    assert_eq!(
        kernel_init(0, 0x8220_0000, 0x8020_6000),
        vec![
            BootOp::LoadStackTop,
            BootOp::CallKernelMain { hart_id: 0, dev_tree: 0x8220_0000, page_table: 0x8020_6000 },
            BootOp::EnterIdle,
        ]
    );
}

#[test]
fn jump_target_resolves_into_kernel_image() {
    let mut t = PageTable::zeroed();
    let _ = vmem_init(0, 0, &mut t, 0x8020_6000);
    let slot = slot_index(KERNEL_INIT_VIRT);
    assert_eq!(slot, 510);
    let w = t.entry(slot).bits();
    assert_ne!(w & 0x8, 0);
    assert_eq!(((w >> 28) << 30) | (KERNEL_INIT_VIRT & 0x3fff_ffff), 0x8020_4000);
}
