use axiom_loader::error::LoaderError;
use axiom_loader::handoff::{verify_copy, AxiomHandoff, HANDOFF_SIZE};

fn sample_block() -> AxiomHandoff {
    let mut block = AxiomHandoff::new();
    block.framebuffer_base = 0x0000_0000_E000_0000;
    block.framebuffer_width = 1024;
    block.framebuffer_height = 768;
    block.framebuffer_stride = 4096;
    block.framebuffer_format = 1;
    block.memory_map = 0x1122_3344_5566_7788;
    block.memory_map_size = 4800;
    block.memory_map_desc_size = 48;
    block.memory_map_desc_version = 1;
    block.memory_map_key = 0xA1B2_C3D4_E5F6_0718;
    block.memory_descriptor_count = 100;
    block.acpi_rsdp = 0x000F_5A10;
    block.reserved = [1, 2, 3, 4, 5, 6, 7, 0x0807_0605_0403_0201];
    block
}

#[test]
fn new_block_is_stamped_and_zeroed() {
    let block = AxiomHandoff::new();
    assert_eq!(block.magic, 0x4158494F4D4F53);
    assert_eq!(block.magic, AxiomHandoff::MAGIC);
    assert_eq!(block.version, 1);
    assert_eq!(block.version, AxiomHandoff::VERSION);
    assert_eq!(block.framebuffer_base, 0);
    assert_eq!(block.framebuffer_width, 0);
    assert_eq!(block.framebuffer_height, 0);
    assert_eq!(block.framebuffer_stride, 0);
    assert_eq!(block.framebuffer_format, 0);
    assert_eq!(block.memory_map, 0);
    assert_eq!(block.memory_map_size, 0);
    assert_eq!(block.memory_map_desc_size, 0);
    assert_eq!(block.memory_map_desc_version, 0);
    assert_eq!(block.memory_map_key, 0);
    assert_eq!(block.memory_descriptor_count, 0);
    assert_eq!(block.acpi_rsdp, 0);
    assert_eq!(block.reserved, [0u64; 8]);
}

#[test]
fn magic_spells_the_system_name() {
    let bytes = AxiomHandoff::MAGIC.to_be_bytes();
    assert_eq!(&bytes[1..], b"AXIOMOS");
}

#[test]
fn size_is_the_same_for_every_block() {
    assert_eq!(AxiomHandoff::size(), 160);
    assert_eq!(HANDOFF_SIZE, 160);
    assert_eq!(AxiomHandoff::new().to_bytes().len(), AxiomHandoff::size());
    assert_eq!(sample_block().to_bytes().len(), AxiomHandoff::size());
}

#[test]
fn bytes_follow_the_layout() {
    let bytes = sample_block().to_bytes();
    assert_eq!(&bytes[0..8], &[0x53, 0x4F, 0x4D, 0x4F, 0x49, 0x58, 0x41, 0x00]);
    assert_eq!(&bytes[8..12], &[1, 0, 0, 0]);
    assert_eq!(&bytes[12..16], &[0, 0, 0, 0]);
    assert_eq!(&bytes[16..24], &0x0000_0000_E000_0000u64.to_le_bytes());
    assert_eq!(&bytes[24..28], &1024u32.to_le_bytes());
    assert_eq!(&bytes[28..32], &768u32.to_le_bytes());
    assert_eq!(&bytes[32..36], &4096u32.to_le_bytes());
    assert_eq!(&bytes[36..40], &1u32.to_le_bytes());
    assert_eq!(&bytes[40..48], &[0x88, 0x77, 0x66, 0x55, 0x44, 0x33, 0x22, 0x11]);
    assert_eq!(&bytes[48..56], &4800u64.to_le_bytes());
    assert_eq!(&bytes[56..64], &48u64.to_le_bytes());
    assert_eq!(&bytes[64..68], &1u32.to_le_bytes());
    assert_eq!(&bytes[68..72], &[0, 0, 0, 0]);
    assert_eq!(&bytes[72..80], &0xA1B2_C3D4_E5F6_0718u64.to_le_bytes());
    assert_eq!(&bytes[80..88], &100u64.to_le_bytes());
    assert_eq!(&bytes[88..96], &0x000F_5A10u64.to_le_bytes());
    for word in 0..7usize {
        let at = 96 + 8 * word;
        assert_eq!(&bytes[at..at + 8], &(word as u64 + 1).to_le_bytes());
    }
    assert_eq!(&bytes[152..160], &[1, 2, 3, 4, 5, 6, 7, 8]);
}

#[test]
fn fresh_block_is_zero_after_the_stamp() {
    let bytes = AxiomHandoff::new().to_bytes();
    assert!(bytes[12..].iter().all(|b| *b == 0));
}

#[test]
fn encode_into_appends_without_touching_the_prefix() {
    let mut out: Vec<u8> = vec![0xAA, 0xBB];
    sample_block().encode_into(&mut out);
    assert_eq!(out.len(), 162);
    assert_eq!(&out[0..2], &[0xAA, 0xBB]);
    assert_eq!(&out[2..], &sample_block().to_bytes()[..]);
}

#[test]
fn encode_into_stays_within_reserved_room() {
    let mut out: Vec<u8> = Vec::with_capacity(AxiomHandoff::size());
    let before = out.as_ptr();
    sample_block().encode_into(&mut out);
    assert_eq!(out.as_ptr(), before);
    assert_eq!(out.len(), 160);
}

#[test]
fn faithful_copy_passes_the_check() {
    let bytes = sample_block().to_bytes();
    assert_eq!(verify_copy(&bytes), Ok(()));
}

#[test]
fn corrupted_magic_is_rejected() {
    for at in 0..8usize {
        let mut bytes = sample_block().to_bytes();
        bytes[at] ^= 0x01;
        assert_eq!(verify_copy(&bytes), Err(LoaderError::MagicMismatch));
    }
}

#[test]
fn wrong_magic_in_the_block_is_rejected() {
    let mut block = sample_block();
    block.magic = 0;
    assert_eq!(verify_copy(&block.to_bytes()), Err(LoaderError::MagicMismatch));
}

#[test]
fn short_copy_is_rejected() {
    let bytes = sample_block().to_bytes();
    assert_eq!(verify_copy(&bytes[..159]), Err(LoaderError::MagicMismatch));
    assert_eq!(verify_copy(&[]), Err(LoaderError::MagicMismatch));
}

#[test]
fn corruption_after_the_magic_is_not_the_check_s_business() {
    let mut bytes = sample_block().to_bytes();
    bytes[100] ^= 0xFF;
    assert_eq!(verify_copy(&bytes), Ok(()));
}
