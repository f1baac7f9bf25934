//! Virtual-address arithmetic of x86_64 paging, computed by the `x86_64`
//! crate and used to pick the addresses the kernel inspects and writes.

use vstd::prelude::*;
use x86_64::structures::paging::{Page, Size4KiB};
use x86_64::VirtAddr;

verus! {

/// Size of a 4 KiB page.
pub const PAGE_SIZE: u64 = 4096;

/// Whether bits 48..64 of `addr` hold no data: they are all clear, all a
/// copy of bit 47, or clear while bit 47 is set (then they get sign-extended).
pub open spec fn virt_addr_accepted(addr: u64) -> bool {
    ||| addr < 0x8000_0000_0000
    ||| 0x8000_0000_0000 <= addr < 0x1_0000_0000_0000
    ||| addr >= 0xffff_8000_0000_0000
}

/// The canonical form of an accepted address: bit 47 copied into bits 48..64.
pub open spec fn canonical_form(addr: u64) -> u64 {
    if 0x8000_0000_0000 <= addr < 0x1_0000_0000_0000 {
        (addr + 0xffff_0000_0000_0000) as u64
    } else {
        addr
    }
}

/// The start of the 4 KiB page that holds `addr`.
pub open spec fn page_start(addr: u64) -> u64 {
    (addr - addr % 4096) as u64
}

/// `VirtAddr::new(addr).as_u64()`: `VirtAddr::new` panics unless bits 48..64
/// hold no data, and otherwise sign-extends bit 47 into them.
#[verifier::external_body]
fn canonical_virt_addr(addr: u64) -> (v: u64)
    requires
        virt_addr_accepted(addr),
    ensures
        v == canonical_form(addr),
{
    VirtAddr::new(addr).as_u64()
}

/// `Page::<Size4KiB>::containing_address(VirtAddr::new(addr))` and its start
/// address: the canonical form of `addr` rounded down to a multiple of 4096.
#[verifier::external_body]
fn containing_page_start(addr: u64) -> (start: u64)
    requires
        virt_addr_accepted(addr),
    ensures
        start == page_start(canonical_form(addr)),
{
    Page::<Size4KiB>::containing_address(VirtAddr::new(addr)).start_address().as_u64()
}

/// The virtual addresses whose translations the kernel reports at boot: the
/// identity-mapped VGA buffer page, a code page, a stack page, and the
/// address at which all of physical memory is mapped.
pub fn translation_examples(physical_memory_offset: u64) -> (addrs: Vec<u64>)
    requires
        virt_addr_accepted(physical_memory_offset),
    ensures
        addrs@ == seq![0xb8000u64, 0x201008u64, 0x0100_0020_1a10u64, canonical_form(physical_memory_offset)],
{
    let mut addrs: Vec<u64> = Vec::new();
    addrs.push(canonical_virt_addr(0xb8000));
    addrs.push(canonical_virt_addr(0x201008));
    addrs.push(canonical_virt_addr(0x0100_0020_1a10));
    addrs.push(canonical_virt_addr(physical_memory_offset));
    addrs
}

/// Index, in 64-bit words from the start of a freshly mapped page, of the
/// word that receives a message; with the page mapped onto the VGA frame it
/// is the start of screen row 20.
pub const MESSAGE_WORD_INDEX: u64 = 400;

/// The address of the message word in the page that holds `page_vaddr`.
pub fn mapped_message_address(page_vaddr: u64) -> (addr: u64)
    requires
        virt_addr_accepted(page_vaddr),
    ensures
        addr == page_start(canonical_form(page_vaddr)) + MESSAGE_WORD_INDEX * 8,
{
    let start = containing_page_start(page_vaddr);
    proof {
        assert(start <= 0xffff_ffff_ffff_f000u64) by {
            assert(canonical_form(page_vaddr) % 4096 <= canonical_form(page_vaddr));
        }
    }
    start + MESSAGE_WORD_INDEX * 8
}

} // verus!
