use vstd::prelude::*;

verus! {

/// A permission or status bit of an Sv39 page-table entry.
#[derive(Clone, Copy, Debug, PartialEq, Eq, Structural)]
pub enum Flag {
    Valid,
    Read,
    Write,
    Execute,
    User,
    Global,
    Accessed,
    Dirty,
}

impl Flag {
    /// Bit position of the flag inside an entry.
    pub open spec fn position(self) -> u64 {
        match self {
            Flag::Valid => 0,
            Flag::Read => 1,
            Flag::Write => 2,
            Flag::Execute => 3,
            Flag::User => 4,
            Flag::Global => 5,
            Flag::Accessed => 6,
            Flag::Dirty => 7,
        }
    }

    /// The single bit that the flag occupies.
    pub open spec fn spec_bit(self) -> u64 {
        1u64 << self.position()
    }

    /// The single bit that the flag occupies.
    pub fn bit(self) -> (r: u64)
        ensures
            r == self.spec_bit(),
    {
        proof {
            lemma_flag_bit_values();
        }
        match self {
            Flag::Valid => 1,
            Flag::Read => 2,
            Flag::Write => 4,
            Flag::Execute => 8,
            Flag::User => 16,
            Flag::Global => 32,
            Flag::Accessed => 64,
            Flag::Dirty => 128,
        }
    }
}

/// Bitwise union of the bits of a sequence of flags.
pub open spec fn flag_union(flags: Seq<Flag>) -> u64
    decreases flags.len(),
{
    if flags.len() == 0 {
        0
    } else {
        flag_union(flags.drop_last()) | flags.last().spec_bit()
    }
}

/// The machine word that results from attaching `flags` to `bits`.
pub open spec fn with_flags(bits: u64, flags: Seq<Flag>) -> u64 {
    bits | flag_union(flags)
}

/// The union of a flag sequence fits in the low byte, and holds the bit of a
/// flag exactly when the sequence contains that flag.
pub proof fn lemma_flag_union_bits(flags: Seq<Flag>)
    ensures
        flag_union(flags) < 256,
        forall|f: Flag| (#[trigger] (flag_union(flags) & f.spec_bit()) != 0) <==> flags.contains(f),
    decreases flags.len(),
{
    if flags.len() > 0 {
        let rest = flags.drop_last();
        let last = flags.last();
        lemma_flag_union_bits(rest);
        let u = flag_union(rest);
        let p = last.position();
        assert(u < 256 && p < 8 ==> u | (1u64 << p) < 256) by (bit_vector);
        assert(flags =~= rest.push(last));
        assert forall|f: Flag| (#[trigger] (flag_union(flags) & f.spec_bit()) != 0) <==> flags.contains(f) by {
            let q = f.position();
            assert(p < 8 && q < 8 ==> (((u | (1u64 << p)) & (1u64 << q)) != 0 <==> ((u & (1u64 << q)) != 0 || p == q))) by (bit_vector);
            assert(p == q <==> last == f);
            assert(flags.contains(f) <==> (rest.contains(f) || last == f)) by {
                if flags.contains(f) {
                    let k = choose|k: int| 0 <= k < flags.len() && flags[k] == f;
                    if k < rest.len() {
                        assert(rest[k] == f);
                    }
                }
                if rest.contains(f) {
                    let k = choose|k: int| 0 <= k < rest.len() && rest[k] == f;
                    assert(flags[k] == f);
                }
                if last == f {
                    assert(flags[flags.len() - 1] == f);
                }
            }
        }
    } else {
        assert forall|f: Flag| (#[trigger] (flag_union(flags) & f.spec_bit()) != 0) <==> flags.contains(f) by {
            let b = f.spec_bit();
            assert(0u64 & b == 0) by (bit_vector);
        }
    }
}

/// Two values of the low byte that agree on every flag bit are equal.
proof fn lemma_low_byte_eq(a: u64, b: u64)
    requires
        a < 256,
        b < 256,
        (a & 1 == 0) == (b & 1 == 0),
        (a & 2 == 0) == (b & 2 == 0),
        (a & 4 == 0) == (b & 4 == 0),
        (a & 8 == 0) == (b & 8 == 0),
        (a & 16 == 0) == (b & 16 == 0),
        (a & 32 == 0) == (b & 32 == 0),
        (a & 64 == 0) == (b & 64 == 0),
        (a & 128 == 0) == (b & 128 == 0),
    ensures
        a == b,
{
    assert(a == b) by (bit_vector)
        requires
            a < 256,
            b < 256,
            (a & 1 == 0) == (b & 1 == 0),
            (a & 2 == 0) == (b & 2 == 0),
            (a & 4 == 0) == (b & 4 == 0),
            (a & 8 == 0) == (b & 8 == 0),
            (a & 16 == 0) == (b & 16 == 0),
            (a & 32 == 0) == (b & 32 == 0),
            (a & 64 == 0) == (b & 64 == 0),
            (a & 128 == 0) == (b & 128 == 0),
    ;
}

/// The bit of each flag is the power of two at its position.
pub proof fn lemma_flag_bit_values()
    ensures
        Flag::Valid.spec_bit() == 1,
        Flag::Read.spec_bit() == 2,
        Flag::Write.spec_bit() == 4,
        Flag::Execute.spec_bit() == 8,
        Flag::User.spec_bit() == 16,
        Flag::Global.spec_bit() == 32,
        Flag::Accessed.spec_bit() == 64,
        Flag::Dirty.spec_bit() == 128,
{
    assert(1u64 << 0u64 == 1 && 1u64 << 1u64 == 2 && 1u64 << 2u64 == 4 && 1u64 << 3u64 == 8
        && 1u64 << 4u64 == 16 && 1u64 << 5u64 == 32 && 1u64 << 6u64 == 64 && 1u64 << 7u64 == 128)
        by (bit_vector);
}

/// The bit union of a flag sequence depends only on which flags it contains:
/// neither their order nor repetitions change it.
pub proof fn lemma_flag_union_order_free(a: Seq<Flag>, b: Seq<Flag>)
    requires
        a.to_set() == b.to_set(),
    ensures
        flag_union(a) == flag_union(b),
{
    lemma_flag_union_bits(a);
    lemma_flag_union_bits(b);
    lemma_flag_bit_values();
    assert forall|f: Flag| a.contains(f) <==> b.contains(f) by {
        assert(a.contains(f) <==> a.to_set().contains(f));
        assert(b.contains(f) <==> b.to_set().contains(f));
    }
    let x = flag_union(a);
    let y = flag_union(b);
    assert((x & Flag::Valid.spec_bit() != 0) == (y & Flag::Valid.spec_bit() != 0));
    assert((x & Flag::Read.spec_bit() != 0) == (y & Flag::Read.spec_bit() != 0));
    assert((x & Flag::Write.spec_bit() != 0) == (y & Flag::Write.spec_bit() != 0));
    assert((x & Flag::Execute.spec_bit() != 0) == (y & Flag::Execute.spec_bit() != 0));
    assert((x & Flag::User.spec_bit() != 0) == (y & Flag::User.spec_bit() != 0));
    assert((x & Flag::Global.spec_bit() != 0) == (y & Flag::Global.spec_bit() != 0));
    assert((x & Flag::Accessed.spec_bit() != 0) == (y & Flag::Accessed.spec_bit() != 0));
    assert((x & Flag::Dirty.spec_bit() != 0) == (y & Flag::Dirty.spec_bit() != 0));
    lemma_low_byte_eq(x, y);
}

/// A word with flags attached holds exactly the bit of each flag it was given
/// (besides its own bits), and no other flag bit unless the word had it.
pub proof fn lemma_with_flags_bits(bits: u64, flags: Seq<Flag>, f: Flag)
    ensures
        (with_flags(bits, flags) & f.spec_bit() != 0) <==> (flags.contains(f) || bits & f.spec_bit() != 0),
{
    lemma_flag_union_bits(flags);
    let u = flag_union(flags);
    let b = f.spec_bit();
    assert(((bits | u) & b != 0) <==> (u & b != 0 || bits & b != 0)) by (bit_vector);
}

/// Attaching the flags of one sequence and then of another gives the same word
/// as attaching them in the other order.
pub proof fn lemma_with_flags_commute(bits: u64, a: Seq<Flag>, b: Seq<Flag>)
    ensures
        with_flags(with_flags(bits, a), b) == with_flags(with_flags(bits, b), a),
{
    let x = flag_union(a);
    let y = flag_union(b);
    assert((bits | x) | y == (bits | y) | x) by (bit_vector);
}

/// Attaching the same flags a second time changes nothing.
pub proof fn lemma_with_flags_idempotent(bits: u64, flags: Seq<Flag>)
    ensures
        with_flags(with_flags(bits, flags), flags) == with_flags(bits, flags),
{
    let x = flag_union(flags);
    assert((bits | x) | x == bits | x) by (bit_vector);
}

/// One machine word of a page table: a frame-number field and flag bits.
#[derive(Clone, Copy)]
pub struct Entry(u64);

impl Entry {
    /// The machine word the entry holds.
    pub closed spec fn value(self) -> u64 {
        self.0
    }

    /// An entry holding `paddr`, already shifted into the frame-number field,
    /// with no flags.
    pub fn new(paddr: u64) -> (r: Entry)
        ensures
            r.value() == paddr,
    {
        Entry(paddr)
    }

    /// This entry with every flag of `flags` attached.
    pub fn flags(self, flags: &[Flag]) -> (r: Entry)
        ensures
            r.value() == with_flags(self.value(), flags@),
    {
        let mut acc: u64 = self.0;
        let mut i: usize = 0;
        assert(flag_union(flags@.take(0)) == 0);
        assert(acc | 0 == acc) by (bit_vector);
        while i < flags.len()
            invariant
                i <= flags@.len(),
                acc == with_flags(self.0, flags@.take(i as int)),
            decreases flags@.len() - i,
        {
            let f = flags[i];
            let ghost before = acc;
            let b = f.bit();
            acc = acc | b;
            proof {
                let s = flags@.take(i as int + 1);
                assert(s.drop_last() =~= flags@.take(i as int));
                assert(s.last() == f);
                let u = flag_union(flags@.take(i as int));
                let x = self.0;
                assert((x | u) | b == x | (u | b)) by (bit_vector);
            }
            i = i + 1;
        }
        assert(flags@.take(flags@.len() as int) =~= flags@);
        Entry(acc)
    }

    /// The machine word the entry holds.
    pub fn bits(&self) -> (r: u64)
        ensures
            r == self.value(),
    {
        self.0
    }
}

} // verus!

verus! {

/// A top-level Sv39 translation table: 512 entries, 4 KiB in all.
pub struct PageTable {
    pub entries: [Entry; 512],
}

impl View for PageTable {
    type V = Seq<u64>;

    /// The machine word held in each slot, in slot order.
    open spec fn view(&self) -> Seq<u64> {
        self.entries@.map_values(|e: Entry| e.value())
    }
}

impl PageTable {
    /// A table whose 512 slots are all the zero word, so that nothing is mapped.
    pub fn zeroed() -> (r: PageTable)
        ensures
            r@.len() == 512,
            forall|i: int| 0 <= i < 512 ==> r@[i] == 0,
    {
        PageTable { entries: [Entry::new(0); 512] }
    }

    /// Leaves the table as it is: a permanent table is built by later stages.
    pub fn map(&mut self)
        ensures
            final(self)@ == old(self)@,
    {
    }

    /// The entry held in slot `index`.
    pub fn entry(&self, index: usize) -> (r: Entry)
        requires
            index < 512,
        ensures
            r.value() == self@[index as int],
    {
        self.entries[index]
    }

    /// Puts `entry` in slot `index`, leaving every other slot as it was.
    pub fn set_entry(&mut self, index: usize, entry: Entry)
        requires
            index < 512,
        ensures
            final(self)@ == old(self)@.update(index as int, entry.value()),
    {
        self.entries[index] = entry;
        assert(self@ =~= old(self)@.update(index as int, entry.value()));
    }
}

} // verus!
