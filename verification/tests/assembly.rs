use axiom_loader::acpi::{ConfigTableEntry, ACPI2_GUID};
use axiom_loader::assembler::{AssemblerState, ASSEMBLY_STEP_BOUND};
use axiom_loader::boot_exit::ExitState;
use axiom_loader::memory_map::{CollectorState, MemoryMapInfo};
use axiom_loader::error::LoaderError;
use axiom_loader::firmware::{FirmwareCall, FirmwareReply};
use axiom_loader::framebuffer::{DisplayMode, PixelFormat, Resolution};
use axiom_loader::handoff::{verify_copy, AxiomHandoff};
use axiom_loader::loader::Loader;

/// Firmware that answers every call with success.
struct MockFirmware {
    next_pool: u64,
    next_key: u64,
    map_fetches: u32,
    exit_calls: u32,
    reject_exits: u32,
}

impl MockFirmware {
    fn new(reject_exits: u32) -> Self {
        MockFirmware { next_pool: 0x10_0000, next_key: 1, map_fetches: 0, exit_calls: 0, reject_exits }
    }

    fn perform(&mut self, call: FirmwareCall) -> FirmwareReply {
        match call {
            FirmwareCall::ProbeMapSize => FirmwareReply::BufferTooSmall { required: 96 * 40 },
            FirmwareCall::AllocatePool { size } => {
                let address = self.next_pool;
                self.next_pool += size;
                FirmwareReply::Allocated { address }
            }
            FirmwareCall::GetMemoryMap { size, .. } => {
                assert!(size >= 96 * 40);
                self.map_fetches += 1;
                self.next_key += 1;
                FirmwareReply::MapFetched {
                    size: 96 * 40,
                    descriptor_size: 40,
                    descriptor_version: 1,
                    map_key: self.next_key,
                }
            }
            FirmwareCall::ExitBootServices { map_key } => {
                self.exit_calls += 1;
                if self.exit_calls <= self.reject_exits || map_key != self.next_key {
                    FirmwareReply::ExitRejected
                } else {
                    FirmwareReply::ExitAccepted
                }
            }
            FirmwareCall::Finished | FirmwareCall::Abort => panic!("no call is due"),
        }
    }
}

fn two_modes() -> Vec<DisplayMode> {
    vec![
        DisplayMode { base: 0xD000_0000, width: 800, height: 600, stride: 3200, format: PixelFormat::Bgr },
        DisplayMode {
            base: 0xE000_0000,
            width: 1920,
            height: 1080,
            stride: 7680,
            format: PixelFormat::Rgb,
        },
    ]
}

#[test]
fn prepare_handoff_records_display_and_acpi() {
    let tables = vec![ConfigTableEntry { guid: ACPI2_GUID, address: 0xF_5A10 }];
    let block = Loader::new(None).prepare_handoff(&two_modes(), &tables).unwrap();
    assert_eq!(block.magic, AxiomHandoff::MAGIC);
    assert_eq!(block.version, AxiomHandoff::VERSION);
    assert_eq!(block.framebuffer_base, 0xE000_0000);
    assert_eq!(block.framebuffer_width, 1920);
    assert_eq!(block.framebuffer_height, 1080);
    assert_eq!(block.framebuffer_stride, 7680);
    assert_eq!(block.framebuffer_format, 0);
    assert_eq!(block.acpi_rsdp, 0xF_5A10);
    assert_eq!(block.memory_map, 0);
    assert_eq!(block.memory_map_key, 0);
    assert_eq!(block.reserved, [0u64; 8]);
}

#[test]
fn prepare_handoff_honours_the_preferred_resolution() {
    let loader = Loader::new(Some(Resolution { width: 800, height: 600 }));
    let block = loader.prepare_handoff(&two_modes(), &Vec::new()).unwrap();
    assert_eq!(block.framebuffer_base, 0xD000_0000);
    assert_eq!(block.framebuffer_width, 800);
    assert_eq!(block.framebuffer_height, 600);
    assert_eq!(block.framebuffer_format, 1);
}

#[test]
fn missing_acpi_does_not_fail_the_assembly() {
    let tables = vec![ConfigTableEntry { guid: 0x1234, address: 0x9000 }];
    let block = Loader::new(None).prepare_handoff(&two_modes(), &tables).unwrap();
    assert_eq!(block.acpi_rsdp, 0);
    assert_eq!(block.framebuffer_width, 1920);
    let mut again = AxiomHandoff::new();
    again.acpi_rsdp = 77;
    assert_eq!(Loader::new(None).find_acpi_rsdp(&mut again, &tables), Ok(()));
    assert_eq!(again.acpi_rsdp, 0);
}

#[test]
fn missing_display_fails_the_assembly() {
    let blit = vec![DisplayMode {
        base: 0,
        width: 1024,
        height: 768,
        stride: 4096,
        format: PixelFormat::BltOnly,
    }];
    let tables = vec![ConfigTableEntry { guid: ACPI2_GUID, address: 0xF_5A10 }];
    assert_eq!(
        Loader::new(None).prepare_handoff(&blit, &tables),
        Err(LoaderError::NoGraphicsOutput)
    );
    let mut block = AxiomHandoff::new();
    assert_eq!(
        Loader::new(None).init_framebuffer(&mut block, &blit),
        Err(LoaderError::NoGraphicsOutput)
    );
    assert_eq!(block, AxiomHandoff::new());
}

fn assemble(firmware: &mut MockFirmware, region: &mut Vec<u8>) -> Result<(AxiomHandoff, u64), LoaderError> {
    let loader = Loader::new(None);
    let tables = vec![ConfigTableEntry { guid: ACPI2_GUID, address: 0xF_5A10 }];
    let prepared = loader.prepare_handoff(&two_modes(), &tables)?;
    let mut state = AssemblerState::begin(prepared);
    let mut replies = 0u32;
    while !state.is_terminal() {
        state = state.step(firmware.perform(state.call()));
        replies += 1;
    }
    assert!(replies <= ASSEMBLY_STEP_BOUND);
    if let AssemblerState::Ready { block, .. } = state {
        block.encode_into(region);
    }
    let address = state.finish(region)?;
    match state {
        AssemblerState::Ready { block, .. } => Ok((block, address)),
        other => panic!("finished in {:?}", other),
    }
}

#[test]
fn end_to_end_against_a_successful_firmware() {
    let mut firmware = MockFirmware::new(0);
    let mut region: Vec<u8> = Vec::with_capacity(AxiomHandoff::size());
    let (block, address) = assemble(&mut firmware, &mut region).unwrap();
    assert_eq!(block.framebuffer_width, 1920);
    assert_eq!(block.framebuffer_height, 1080);
    assert_ne!(block.acpi_rsdp, 0);
    assert_eq!(block.magic, AxiomHandoff::MAGIC);
    assert_eq!(block.version, AxiomHandoff::VERSION);
    assert_eq!(firmware.map_fetches, 1);
    assert_eq!(firmware.exit_calls, 1);
    assert_eq!(address, 0x10_0000);
    assert_eq!(block.memory_map, 0x10_0000 + 160);
    assert_eq!(block.memory_map_size, 3840);
    assert_eq!(block.memory_map_desc_size, 40);
    assert_eq!(block.memory_descriptor_count, 96);
    assert_eq!(block.memory_map_key, 2);
    assert_eq!(region.len(), AxiomHandoff::size());
    assert_eq!(region, block.to_bytes());
    assert_ne!(format!("{:p}", region.as_ptr()), format!("{:p}", &block));
    assert_eq!(&region[24..28], &1920u32.to_le_bytes());
    assert_eq!(&region[28..32], &1080u32.to_le_bytes());
    assert_eq!(&region[72..80], &2u64.to_le_bytes());
}

#[test]
fn end_to_end_with_one_rejected_exit() {
    let mut firmware = MockFirmware::new(1);
    let mut region: Vec<u8> = Vec::with_capacity(AxiomHandoff::size());
    let (block, address) = assemble(&mut firmware, &mut region).unwrap();
    assert_eq!(firmware.map_fetches, 2);
    assert_eq!(firmware.exit_calls, 2);
    assert_eq!(block.memory_map_key, 3);
    assert_eq!(address, 0x10_0000);
    assert_eq!(verify_copy(&region), Ok(()));
}

#[test]
fn end_to_end_with_every_exit_rejected() {
    let mut firmware = MockFirmware::new(u32::MAX);
    let mut region: Vec<u8> = Vec::with_capacity(AxiomHandoff::size());
    assert_eq!(assemble(&mut firmware, &mut region), Err(LoaderError::ExitFailed));
    assert_eq!(firmware.exit_calls, 3);
    assert!(region.is_empty());
}

#[test]
fn assembler_allocates_the_region_before_the_exit_begins() {
    let block = AxiomHandoff::new();
    let start = AssemblerState::begin(block);
    assert_eq!(start, AssemblerState::AllocatingBlock { block });
    assert_eq!(start.call(), FirmwareCall::AllocatePool { size: 160 });
    assert!(!start.is_terminal());
    let exiting = start.step(FirmwareReply::Allocated { address: 0x5000 });
    assert_eq!(
        exiting,
        AssemblerState::Exiting { block, region: 0x5000, exit: ExitState::start() }
    );
    assert_eq!(exiting.call(), FirmwareCall::ProbeMapSize);
    assert_eq!(
        start.step(FirmwareReply::AllocationFailed),
        AssemblerState::Failed { error: LoaderError::AllocationFailure }
    );
    assert_eq!(
        start.step(FirmwareReply::ExitAccepted),
        AssemblerState::Failed { error: LoaderError::AllocationFailure }
    );
}

#[test]
fn assembler_takes_the_map_of_the_accepted_exit() {
    let map = MemoryMapInfo {
        buffer: 0x9000,
        size: 960,
        descriptor_size: 48,
        descriptor_version: 1,
        map_key: 0x77,
        count: 20,
    };
    let block = AxiomHandoff::new();
    let exiting = AssemblerState::Exiting {
        block,
        region: 0x5000,
        exit: ExitState::MapFetched { map, attempt: 1 },
    };
    assert_eq!(exiting.call(), FirmwareCall::ExitBootServices { map_key: 0x77 });
    let ready = exiting.step(FirmwareReply::ExitAccepted);
    let mut expected = block;
    expected.memory_map = 0x9000;
    expected.memory_map_size = 960;
    expected.memory_map_desc_size = 48;
    expected.memory_map_desc_version = 1;
    expected.memory_map_key = 0x77;
    expected.memory_descriptor_count = 20;
    assert_eq!(ready, AssemblerState::Ready { block: expected, region: 0x5000 });
    assert!(ready.is_terminal());
    assert_eq!(ready.call(), FirmwareCall::Finished);
    assert_eq!(ready.step(FirmwareReply::Failure), ready);

    let retry = exiting.step(FirmwareReply::ExitRejected);
    assert_eq!(
        retry,
        AssemblerState::Exiting {
            block,
            region: 0x5000,
            exit: ExitState::Idle { collector: CollectorState::Probing, attempt: 2 },
        }
    );
}

#[test]
fn assembler_replays_a_recorded_exchange() {
    let replies = vec![
        FirmwareReply::Allocated { address: 0x5000 },
        FirmwareReply::BufferTooSmall { required: 960 },
        FirmwareReply::Allocated { address: 0x9000 },
        FirmwareReply::MapFetched { size: 960, descriptor_size: 48, descriptor_version: 1, map_key: 5 },
        FirmwareReply::ExitAccepted,
    ];
    let end = AssemblerState::begin(AxiomHandoff::new()).run(&replies);
    match end {
        AssemblerState::Ready { block, region } => {
            assert_eq!(region, 0x5000);
            assert_eq!(block.memory_map, 0x9000);
            assert_eq!(block.memory_map_key, 5);
            assert_eq!(block.memory_descriptor_count, 20);
            assert_eq!(block.magic, AxiomHandoff::MAGIC);
            assert_eq!(block.version, AxiomHandoff::VERSION);
        }
        other => panic!("finished in {:?}", other),
    }
}

#[test]
fn finish_hands_out_the_region_only_for_a_sound_copy() {
    let block = AxiomHandoff::new();
    let ready = AssemblerState::Ready { block, region: 0x5000 };
    let copy = block.to_bytes();
    assert_eq!(ready.finish(&copy), Ok(0x5000));
    let mut torn = copy.clone();
    torn[3] = 0;
    assert_eq!(ready.finish(&torn), Err(LoaderError::MagicMismatch));
    assert_eq!(ready.finish(&copy[..100]), Err(LoaderError::MagicMismatch));
    let failed = AssemblerState::Failed { error: LoaderError::AllocationFailure };
    assert_eq!(failed.finish(&copy), Err(LoaderError::AllocationFailure));
    assert_eq!(AssemblerState::begin(block).finish(&copy), Err(LoaderError::ExitFailed));
}
