//! The hardware abstraction layer the firmware registers with the radar
//! system software.

use vstd::prelude::*;

verus! {

/// Largest SPI transfer, in bytes, that the HAL lets the radar software ask
/// for.
pub const MAX_SPI_TRANSFER_SIZE: u16 = 65535;

/// What the radar system software receives when a HAL is registered: the SPI
/// transfer limit and which of the HAL's callbacks are present.
#[derive(Clone, Copy, PartialEq, Eq, Structural, Debug)]
pub struct HalRecord {
    /// Largest SPI transfer the radar software may request, in bytes.
    pub max_spi_transfer_size: u16,
    /// The memory allocation callback is present.
    pub mem_alloc: bool,
    /// The memory release callback is present.
    pub mem_free: bool,
    /// The 8-bit SPI transfer callback is present.
    pub transfer: bool,
    /// The log callback is present.
    pub log: bool,
    /// The optional 16-bit SPI transfer callback is present.
    pub transfer16: bool,
}

/// The HAL record a well-formed HAL hands over, given which of the optional
/// callbacks were supplied.
pub open spec fn hal_record(transfer16: bool, log: bool) -> HalRecord {
    HalRecord {
        max_spi_transfer_size: MAX_SPI_TRANSFER_SIZE,
        mem_alloc: true,
        mem_free: true,
        transfer: true,
        log,
        transfer16,
    }
}

/// The record registers exactly the optional callbacks that were supplied,
/// together with the mandatory transfer and memory callbacks and the 65535
/// byte SPI limit; two records agree exactly when the same optional
/// callbacks were supplied.
pub proof fn lemma_hal_record_fields(transfer16: bool, log: bool, t2: bool, l2: bool)
    ensures
        hal_record(transfer16, log).log == log,
        hal_record(transfer16, log).transfer16 == transfer16,
        hal_record(transfer16, log).transfer,
        hal_record(transfer16, log).mem_alloc,
        hal_record(transfer16, log).mem_free,
        hal_record(transfer16, log).max_spi_transfer_size == 65535,
        (hal_record(transfer16, log) == hal_record(t2, l2)) <==> (transfer16 == t2 && log == l2),
{
}

/// A HAL for the radar system software. It always carries an SPI transfer
/// callback and both memory callbacks; logging and 16-bit transfers are
/// optional.
pub struct AccHAL(HalRecord);

impl View for AccHAL {
    type V = HalRecord;

    closed spec fn view(&self) -> HalRecord {
        self.0
    }
}

impl AccHAL {
    #[verifier::type_invariant]
    spec fn well_formed(self) -> bool {
        self.0 == hal_record(self.0.transfer16, self.0.log)
    }

    /// A HAL with the given callbacks present. The memory callbacks are
    /// always supplied; without an SPI transfer callback there is no HAL
    /// (`None`).
    pub fn new(transfer: bool, transfer16: bool, log: bool) -> (hal: Option<AccHAL>)
        ensures
            hal is Some <==> transfer,
            hal matches Some(h) ==> h@ == hal_record(transfer16, log),
            hal matches Some(h) ==> {
                &&& h@.log == log
                &&& h@.transfer16 == transfer16
                &&& h@.transfer
                &&& h@.mem_alloc
                &&& h@.mem_free
                &&& h@.max_spi_transfer_size == 65535
            },
    {
        if !transfer {
            return Option::None;
        }
        Some(
            AccHAL(
                HalRecord {
                    max_spi_transfer_size: MAX_SPI_TRANSFER_SIZE,
                    mem_alloc: true,
                    mem_free: true,
                    transfer: true,
                    log,
                    transfer16,
                },
            ),
        )
    }

    /// The record that registering this HAL hands to the radar software. It
    /// always names an SPI transfer callback and both memory callbacks and
    /// allows SPI transfers of up to 65535 bytes.
    pub fn register(&self) -> (record: HalRecord)
        ensures
            record == self@,
            record == hal_record(record.transfer16, record.log),
            record.transfer,
            record.mem_alloc,
            record.mem_free,
            record.max_spi_transfer_size == 65535,
    {
        proof {
            use_type_invariant(self);
        }
        self.0
    }
}

} // verus!
