use blog_os::interrupts::init_idt;
use blog_os::paging::{mapped_message_address, translation_examples, MESSAGE_WORD_INDEX};

#[test]
fn translation_examples_lists_the_boot_addresses() {
    let addrs = translation_examples(0x0000_1000_0000_0000);
    assert_eq!(addrs, vec![0xb8000, 0x201008, 0x0100_0020_1a10, 0x0000_1000_0000_0000]);
}

#[test]
fn translation_examples_sign_extends_the_offset() {
    let addrs = translation_examples(0x0000_8000_0000_0000);
    assert_eq!(addrs[3], 0xffff_8000_0000_0000);
    let addrs = translation_examples(0xffff_8000_0000_1000);
    assert_eq!(addrs[3], 0xffff_8000_0000_1000);
}

#[test]
fn message_address_is_word_400_of_the_page() {
    assert_eq!(MESSAGE_WORD_INDEX, 400);
    assert_eq!(mapped_message_address(0), 3200);
    assert_eq!(mapped_message_address(0x1234_5678), 0x1234_5000 + 3200);
    assert_eq!(mapped_message_address(0x0000_8000_0000_0fff), 0xffff_8000_0000_0000 + 3200);
}

#[test]
fn init_idt_builds_a_table() {
    init_idt();
}
