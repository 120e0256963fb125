use sv39_boot::page::{Entry, Flag, PageTable};

#[test]
fn flag_bits_are_distinct_powers_of_two() {
    let all = [
        Flag::Valid,
        Flag::Read,
        Flag::Write,
        Flag::Execute,
        Flag::User,
        Flag::Global,
        Flag::Accessed,
        Flag::Dirty,
    ];
    let expected: [u64; 8] = [1, 2, 4, 8, 16, 32, 64, 128];
    for (f, e) in all.iter().zip(expected.iter()) {
        assert_eq!(f.bit(), *e);
    }
}

#[test]
fn entry_new_holds_the_word() {
    assert_eq!(Entry::new(0x2000_0000).bits(), 0x2000_0000);
    assert_eq!(Entry::new(0).bits(), 0);
}

#[test]
fn flags_attach_their_union() {
    let e = Entry::new(0x2000_0000).flags(&[Flag::Valid, Flag::Read, Flag::Write, Flag::Execute]);
    assert_eq!(e.bits(), 0x2000_000f);
    let all = Entry::new(0).flags(&[
        Flag::Valid,
        Flag::Read,
        Flag::Write,
        Flag::Execute,
        Flag::User,
        Flag::Global,
        Flag::Accessed,
        Flag::Dirty,
    ]);
    assert_eq!(all.bits(), 0xff);
}

#[test]
fn flags_empty_keeps_entry() {
    assert_eq!(Entry::new(0x1234_0000).flags(&[]).bits(), 0x1234_0000);
}

#[test]
fn flags_keep_the_frame_field() {
    let e = Entry::new(0x3ff_ffff << 28).flags(&[Flag::Dirty, Flag::Valid]);
    assert_eq!(e.bits() & 0xff, 0x81);
    assert_eq!(e.bits() >> 28, 0x3ff_ffff);
}

#[test]
fn flags_order_does_not_matter() {
    let a = Entry::new(0x400).flags(&[Flag::Read, Flag::Valid, Flag::User]);
    let b = Entry::new(0x400).flags(&[Flag::User, Flag::Valid, Flag::Read]);
    assert_eq!(a.bits(), b.bits());
    assert_eq!(a.bits(), 0x413);
}

#[test]
fn flags_compose_in_either_order() {
    let base = Entry::new(0x8000);
    let ab = base.flags(&[Flag::Read]).flags(&[Flag::Global]);
    let ba = base.flags(&[Flag::Global]).flags(&[Flag::Read]);
    assert_eq!(ab.bits(), ba.bits());
    assert_eq!(ab.bits(), 0x8022);
}

#[test]
fn flags_twice_is_flags_once() {
    let once = Entry::new(0x1000).flags(&[Flag::Write, Flag::Accessed]);
    let twice = once.flags(&[Flag::Write, Flag::Accessed]);
    assert_eq!(once.bits(), twice.bits());
    let repeated = Entry::new(0x1000).flags(&[Flag::Write, Flag::Write]);
    assert_eq!(repeated.bits(), Entry::new(0x1000).flags(&[Flag::Write]).bits());
}

#[test]
fn zeroed_table_maps_nothing() {
    let t = PageTable::zeroed();
    for i in 0..512 {
        assert_eq!(t.entry(i).bits(), 0);
    }
}

#[test]
fn map_leaves_table_unchanged() {
    let mut t = PageTable::zeroed();
    t.set_entry(7, Entry::new(0x2000_0000).flags(&[Flag::Valid]));
    t.map();
    assert_eq!(t.entry(7).bits(), 0x2000_0001);
    assert_eq!(t.entry(6).bits(), 0);
}

#[test]
fn set_entry_writes_one_slot() {
    let mut t = PageTable::zeroed();
    t.set_entry(511, Entry::new(5));
    assert_eq!(t.entry(511).bits(), 5);
    assert_eq!(t.entries[511].bits(), 5);
    assert_eq!(t.entry(510).bits(), 0);
    assert_eq!(t.entry(0).bits(), 0);
}
