use vstd::prelude::*;
use crate::acpi::{is_root_pointer, locate, ConfigTableEntry};
use crate::boot_exit::ExitState;
use crate::error::LoaderError;
use crate::framebuffer::{has_usable, is_selected, probe, DisplayMode, FramebufferInfo, Resolution};
use crate::handoff::AxiomHandoff;
use crate::memory_map::{CollectorState, MemoryMapInfo};

verus! {

impl AxiomHandoff {
    /// The block with the display surface recorded.
    pub open spec fn with_framebuffer(self, info: FramebufferInfo) -> AxiomHandoff {
        AxiomHandoff {
            framebuffer_base: info.base,
            framebuffer_width: info.width,
            framebuffer_height: info.height,
            framebuffer_stride: info.stride,
            framebuffer_format: info.format,
            ..self
        }
    }

    /// The block with the memory map recorded.
    pub open spec fn with_memory_map(self, map: MemoryMapInfo) -> AxiomHandoff {
        AxiomHandoff {
            memory_map: map.buffer,
            memory_map_size: map.size,
            memory_map_desc_size: map.descriptor_size,
            memory_map_desc_version: map.descriptor_version,
            memory_map_key: map.map_key,
            memory_descriptor_count: map.count,
            ..self
        }
    }

    /// The block with the ACPI root pointer recorded.
    pub open spec fn with_acpi(self, address: u64) -> AxiomHandoff {
        AxiomHandoff { acpi_rsdp: address, ..self }
    }

    /// Records a memory map in the block.
    pub fn record_memory_map(&mut self, map: &MemoryMapInfo)
        ensures
            *final(self) == old(self).with_memory_map(*map),
    {
        self.memory_map = map.buffer;
        self.memory_map_size = map.size;
        self.memory_map_desc_size = map.descriptor_size;
        self.memory_map_desc_version = map.descriptor_version;
        self.memory_map_key = map.map_key;
        self.memory_descriptor_count = map.count;
    }
}

/// Assembles the handoff block from what the caller read from firmware.
#[derive(Debug, Clone, Copy, PartialEq, Eq, Structural)]
pub struct Loader {
    /// The resolution to select where a usable mode has it.
    pub preferred: Option<Resolution>,
}

impl Loader {
    /// Create a new Loader instance
    pub fn new(preferred: Option<Resolution>) -> (loader: Self)
        ensures
            loader.preferred == preferred,
    {
        Self { preferred }
    }

    /// Selects a display mode among `modes` and records it. Fails, and
    /// leaves the block as it is, exactly when no mode is usable.
    pub fn init_framebuffer(&self, handoff: &mut AxiomHandoff, modes: &Vec<DisplayMode>) -> (r:
        Result<(), LoaderError>)
        ensures
            r is Err <==> !has_usable(modes@),
            r is Err ==> r == Err::<(), LoaderError>(LoaderError::NoGraphicsOutput) && *final(handoff) == *old(handoff),
            r is Ok ==> exists|i: int| #[trigger]
                is_selected(modes@, self.preferred, i) && *final(handoff) == old(handoff).with_framebuffer(modes@[i].spec_info()),
    {
        match probe(modes, self.preferred) {
            Ok(info) => {
                handoff.framebuffer_base = info.base;
                handoff.framebuffer_width = info.width;
                handoff.framebuffer_height = info.height;
                handoff.framebuffer_stride = info.stride;
                handoff.framebuffer_format = info.format;
                Ok(())
            },
            Err(e) => Err(e),
        }
    }

    /// Records the map that a finished collection fetched. Fails with
    /// `AllocationFailure`, and leaves the block as it is, where the
    /// collection failed or has not ended.
    pub fn get_memory_map(&self, handoff: &mut AxiomHandoff, collected: &CollectorState) -> (r:
        Result<(), LoaderError>)
        ensures
            r is Ok <==> *collected is Done,
            r is Ok ==> *final(handoff) == old(handoff).with_memory_map(collected->Done_map),
            r is Err ==> r == Err::<(), LoaderError>(LoaderError::AllocationFailure) && *final(handoff) == *old(handoff),
    {
        match collected {
            CollectorState::Done { map } => {
                handoff.record_memory_map(map);
                Ok(())
            },
            _ => Err(LoaderError::AllocationFailure),
        }
    }

    /// Finds the ACPI root pointer among `tables` and records it, the null
    /// address where there is none. Never fails.
    pub fn find_acpi_rsdp(&self, handoff: &mut AxiomHandoff, tables: &Vec<ConfigTableEntry>) -> (r:
        Result<(), LoaderError>)
        ensures
            r is Ok,
            is_root_pointer(tables@, final(handoff).acpi_rsdp),
            *final(handoff) == old(handoff).with_acpi(final(handoff).acpi_rsdp),
    {
        handoff.acpi_rsdp = locate(tables);
        Ok(())
    }

    /// Closes the exit from boot services: where the sequence ended out of
    /// boot services, records the map fetched last, whose key firmware
    /// accepted. Where the sequence failed, returns its error; where it has
    /// not ended, `ExitFailed`. On an error the block stays as it is.
    pub fn exit_boot_services(&self, handoff: &mut AxiomHandoff, outcome: &ExitState) -> (r:
        Result<(), LoaderError>)
        ensures
            r is Ok <==> *outcome is Exited,
            r is Ok ==> *final(handoff) == old(handoff).with_memory_map(outcome->Exited_map),
            r is Err ==> *final(handoff) == *old(handoff),
            *outcome is Failed ==> r == Err::<(), LoaderError>(outcome->Failed_error),
            !outcome.spec_is_terminal() ==> r == Err::<(), LoaderError>(LoaderError::ExitFailed),
    {
        match outcome {
            ExitState::Exited { map, .. } => {
                handoff.record_memory_map(map);
                Ok(())
            },
            ExitState::Failed { error } => Err(*error),
            _ => Err(LoaderError::ExitFailed),
        }
    }

    /// Builds the block from the display modes and the configuration table:
    /// a fresh block with the selected mode and the ACPI root pointer
    /// recorded. Fails exactly when no mode is usable; a missing ACPI table
    /// is no failure.
    pub fn prepare_handoff(&self, modes: &Vec<DisplayMode>, tables: &Vec<ConfigTableEntry>) -> (r:
        Result<AxiomHandoff, LoaderError>)
        ensures
            r is Err <==> !has_usable(modes@),
            r is Err ==> r == Err::<AxiomHandoff, LoaderError>(LoaderError::NoGraphicsOutput),
            r is Ok ==> {
                let block = r.unwrap();
                &&& block.is_stamped()
                &&& is_root_pointer(tables@, block.acpi_rsdp)
                &&& exists|i: int, fresh: AxiomHandoff| #[trigger]
                    is_selected(modes@, self.preferred, i) && #[trigger] fresh.is_fresh() && block
                        == fresh.with_framebuffer(modes@[i].spec_info()).with_acpi(block.acpi_rsdp)
            },
    {
        let mut handoff = AxiomHandoff::new();
        let ghost fresh = handoff;
        match self.init_framebuffer(&mut handoff, modes) {
            Ok(()) => {},
            Err(e) => {
                return Err(e);
            },
        }
        let _ = self.find_acpi_rsdp(&mut handoff, tables);
        if handoff.magic != AxiomHandoff::MAGIC {
            return Err(LoaderError::MagicMismatch);
        }
        proof {
            let i = choose|i: int| #[trigger]
                is_selected(modes@, self.preferred, i) && handoff == fresh.with_framebuffer(
                    modes@[i].spec_info(),
                ).with_acpi(handoff.acpi_rsdp);
            assert(is_selected(modes@, self.preferred, i) && fresh.is_fresh());
        }
        Ok(handoff)
    }
}

/// Recording leaves the magic value and the version alone: a block that
/// carried them carries them after every step of the assembly.
pub proof fn lemma_assembly_keeps_stamp(
    block: AxiomHandoff,
    info: FramebufferInfo,
    map: MemoryMapInfo,
    address: u64,
)
    requires
        block.is_stamped(),
    ensures
        block.with_framebuffer(info).is_stamped(),
        block.with_memory_map(map).is_stamped(),
        block.with_acpi(address).is_stamped(),
        block.with_framebuffer(info).with_acpi(address).with_memory_map(map).is_stamped(),
{
}

} // verus!
