//! The interrupt descriptor table.

use vstd::prelude::*;
use x86_64::structures::idt::InterruptDescriptorTable;

verus! {

#[verifier::external_type_specification]
#[verifier::external_body]
pub struct ExInterruptDescriptorTable(InterruptDescriptorTable);

/// `InterruptDescriptorTable::new()`: a table whose entries are all
/// non-present. Its entries are opaque here, so nothing is stated of them.
#[verifier::external_body]
fn new_idt() -> (idt: InterruptDescriptorTable) {
    InterruptDescriptorTable::new()
}

/// Builds an empty interrupt descriptor table (no handler is installed yet,
/// and the table is not loaded).
pub fn init_idt() {
    let _idt = new_idt();
}

} // verus!
