use vstd::prelude::*;
use vstd::string::StringSliceAdditionalSpecFns;
use crate::uart::{append_bytes, UartWriter};

verus! {

/// Text that opens the report of an unrecoverable condition.
pub open spec fn fault_prefix() -> Seq<u8> {
    "Kernel panicked! Reason: ".spec_bytes()
}

/// Text that announces the idle wait loop.
pub open spec fn idle_text() -> Seq<u8> {
    "Falling into infinite loop...".spec_bytes()
}

/// The line the fault sink sends through the byte sink for a condition
/// described by `reason`, before it parks the processor.
pub fn fault_report(reason: &[u8]) -> (r: Vec<u8>)
    ensures
        r@ == fault_prefix() + reason@ + seq![10u8],
{
    let mut text: Vec<u8> = Vec::new();
    append_bytes(&mut text, "Kernel panicked! Reason: ".as_bytes());
    append_bytes(&mut text, reason);
    let r = UartWriter::line(text.as_slice());
    assert(r@ =~= fault_prefix() + reason@ + seq![10u8]);
    r
}

/// The line the idle wait loop sends once, before it starts waiting.
pub fn idle_notice() -> (r: Vec<u8>)
    ensures
        r@ == idle_text() + seq![10u8],
{
    let r = UartWriter::line("Falling into infinite loop...".as_bytes());
    assert(r@ =~= idle_text() + seq![10u8]);
    r
}

} // verus!
