//! The circular sample buffer and the DMA channel that drains it. Once the
//! engine is enabled, each conversion trigger moves exactly one sample from
//! the buffer to the converter's data register, wrapping from the last entry
//! back to the first with no CPU involvement. The buffer's length and
//! address are fixed for the pipeline's lifetime; refreshing its contents
//! while the engine may be mid-read is an accepted hazard of this design,
//! not detected here.

use vstd::prelude::*;
use crate::errors::ConfigError;

verus! {

/// Declared length of the sample buffer, in samples.
pub const DMA_BUFFER_LEN: usize = 64;

/// Width of one bus access.
#[derive(Clone, Copy, Debug, PartialEq, Eq, Structural)]
pub enum TransferWidth {
    Bits8,
    Bits16,
    Bits32,
}

/// Direction of a transfer.
#[derive(Clone, Copy, Debug, PartialEq, Eq, Structural)]
pub enum TransferDirection {
    MemoryToPeripheral,
    PeripheralToMemory,
}

/// The fixed-length sample store the DMA engine reads in wrap-around
/// fashion. Its length is `DMA_BUFFER_LEN` from construction on and never
/// changes.
pub struct SampleBuffer {
    samples: Vec<u32>,
}

impl SampleBuffer {
    /// The stored samples, in order.
    pub closed spec fn contents(&self) -> Seq<u32> {
        self.samples@
    }

    /// The length never leaves `DMA_BUFFER_LEN`.
    pub open spec fn wf(&self) -> bool {
        self.contents().len() == DMA_BUFFER_LEN
    }

    /// A zero-filled buffer of the declared length.
    pub fn new() -> (r: SampleBuffer)
        ensures
            r.wf(),
            forall|i: int| 0 <= i < DMA_BUFFER_LEN ==> r.contents()[i] == 0u32,
    {
        let mut samples: Vec<u32> = Vec::new();
        let mut i: usize = 0;
        while i < DMA_BUFFER_LEN
            invariant
                i <= DMA_BUFFER_LEN,
                samples@.len() == i,
                forall|j: int| 0 <= j < i ==> samples@[j] == 0u32,
            decreases DMA_BUFFER_LEN - i,
        {
            samples.push(0);
            i = i + 1;
        }
        SampleBuffer { samples }
    }

    pub fn len(&self) -> (r: usize)
        ensures
            r == self.contents().len(),
    {
        self.samples.len()
    }

    pub fn read(&self, i: usize) -> (r: u32)
        requires
            i < self.contents().len(),
        ensures
            r == self.contents()[i as int],
    {
        self.samples[i]
    }

    /// Overwrite one sample. Content producers call this knowing the engine
    /// may be mid-read; the length and address stay fixed.
    pub fn write(&mut self, i: usize, value: u32)
        requires
            i < old(self).contents().len(),
        ensures
            final(self).contents() == old(self).contents().update(i as int, value),
            final(self).wf() == old(self).wf(),
    {
        self.samples[i] = value;
    }

    /// The transfer count a DMA channel draining this buffer must be
    /// programmed with: one transfer per sample.
    pub fn transfer_count(&self) -> (r: u16)
        requires
            self.wf(),
        ensures
            r == self.contents().len(),
    {
        let n = self.samples.len();
        n as u16
    }
}

/// A validated configuration of the DMA channel that feeds the converter.
#[derive(Clone, Copy, Debug, PartialEq, Eq, Structural)]
pub struct DmaConfig {
    /// Number of bus accesses before the channel wraps.
    pub transfer_count: u16,
    /// Width of one read from the sample buffer.
    pub memory_width: TransferWidth,
    /// Width of one write to the converter's data register.
    pub peripheral_width: TransferWidth,
    /// Wrap to the start of the buffer after the last transfer.
    pub circular: bool,
    pub direction: TransferDirection,
}

impl DmaConfig {
    /// Whether this channel correctly drains a well-formed sample buffer:
    /// count equals the declared length, source and destination widths
    /// agree, and the channel wraps without re-arming.
    pub open spec fn drains_buffer(&self) -> bool {
        &&& self.transfer_count == DMA_BUFFER_LEN
        &&& self.memory_width == self.peripheral_width
        &&& self.circular
        &&& self.direction == TransferDirection::MemoryToPeripheral
    }

    /// Configure the channel for one buffer and one destination register
    /// width. The buffer holds 32-bit samples, so a destination register of
    /// any other width would truncate or mis-align samples: rejected, as is
    /// a count that differs from the buffer's declared length. Nothing is
    /// silently truncated at setup.
    pub fn for_buffer(buffer: &SampleBuffer, transfer_count: u16, peripheral_width: TransferWidth) -> (r:
        Result<DmaConfig, ConfigError>)
        requires
            buffer.wf(),
        ensures
            r is Ok <==> transfer_count == DMA_BUFFER_LEN && peripheral_width == TransferWidth::Bits32,
            r matches Ok(c) ==> c == (DmaConfig {
                transfer_count,
                memory_width: TransferWidth::Bits32,
                peripheral_width,
                circular: true,
                direction: TransferDirection::MemoryToPeripheral,
            }) && c.drains_buffer(),
            r matches Err(e) ==> (e == ConfigError::TransferCountMismatch
                ==> transfer_count != DMA_BUFFER_LEN),
            r matches Err(e) ==> (e == ConfigError::WidthMismatch
                ==> peripheral_width != TransferWidth::Bits32),
    {
        if transfer_count as usize != buffer.len() {
            return Err(ConfigError::TransferCountMismatch);
        }
        match peripheral_width {
            TransferWidth::Bits32 => {},
            _ => {
                return Err(ConfigError::WidthMismatch);
            },
        }
        Ok(DmaConfig {
            transfer_count,
            memory_width: TransferWidth::Bits32,
            peripheral_width,
            circular: true,
            direction: TransferDirection::MemoryToPeripheral,
        })
    }
}

/// In every configuration that drains the buffer, the transfer count equals
/// the buffer's declared length — a mismatch never survives setup.
pub proof fn lemma_drain_count_is_buffer_length(c: DmaConfig)
    requires
        c.drains_buffer(),
    ensures
        c.transfer_count == DMA_BUFFER_LEN,
{
}

} // verus!
