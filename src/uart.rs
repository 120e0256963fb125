use vstd::prelude::*;
use crate::boot::{device_word, lemma_boot_constants, spec_slot_index};

verus! {

/// Physical address of the UART's transmit register.
pub const UART_DATA: u64 = 0x1000_0000;

/// Physical address of the UART's line-status register.
pub const UART_LSR: u64 = 0x1000_0005;

/// The diagnostic byte sink: a UART whose transmit register takes one byte
/// per write.
pub struct UartWriter;

impl UartWriter {
    /// The bytes that writing `text` as one line sends: the text, then a newline.
    pub fn line(text: &[u8]) -> (r: Vec<u8>)
        ensures
            r@ == text@.push(10u8),
    {
        let mut out: Vec<u8> = Vec::new();
        append_bytes(&mut out, text);
        out.push(10u8);
        out
    }
}

/// Appends every byte of `src` to `out`.
pub fn append_bytes(out: &mut Vec<u8>, src: &[u8])
    ensures
        final(out)@ == old(out)@ + src@,
{
    let mut i: usize = 0;
    while i < src.len()
        invariant
            i <= src@.len(),
            out@ == old(out)@ + src@.take(i as int),
        decreases src@.len() - i,
    {
        out.push(src[i]);
        assert(src@.take(i as int + 1) =~= src@.take(i as int).push(src@[i as int]));
        i = i + 1;
    }
    assert(src@.take(src@.len() as int) =~= src@);
}

/// Both UART registers lie in the lowest gigabyte, which the device window
/// maps to itself: through slot 0 they translate to their own addresses.
pub proof fn lemma_uart_in_device_window()
    ensures
        spec_slot_index(UART_DATA) == 0,
        spec_slot_index(UART_LSR) == 0,
        ((device_word() >> 28) << 30) | (UART_DATA & 0x3fff_ffff) == UART_DATA,
        ((device_word() >> 28) << 30) | (UART_LSR & 0x3fff_ffff) == UART_LSR,
{
    lemma_boot_constants();
    assert((0x1000_0000u64 >> 30) & 0x1ff == 0 && (0x1000_0005u64 >> 30) & 0x1ff == 0 && ((7u64 >> 28)
        << 30) | (0x1000_0000u64 & 0x3fff_ffff) == 0x1000_0000 && ((7u64 >> 28) << 30) | (0x1000_0005u64
        & 0x3fff_ffff) == 0x1000_0005) by (bit_vector);
}

} // verus!
