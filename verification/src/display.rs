//! The display driver: how large the render buffers are that the renderer
//! is given, and what is signalled back to it when a flush has been drawn.

use vstd::prelude::*;
use crate::color::COLOR_SIZE;

verus! {

/// Rows of the widest display that one render buffer holds.
pub const REFRESH_BUFFER_LEN: u32 = 2;

/// Render buffers handed to the renderer, which draws into one while the
/// other is flushed.
pub const BUFFER_COUNT: u32 = 2;

/// What can go wrong in the adapter.
#[derive(Clone, Copy, Debug, PartialEq, Eq, Structural)]
pub enum DisplayError {
    /// The render buffers could not be provided.
    AllocationFailure,
    /// The drawing surface rejected a pixel.
    PixelWriteFailure,
    /// The drawing surface panicked while it took the pixels.
    ForeignPanicEscape,
}

/// What the adapter owes the renderer once the pixel writes of a flush have
/// been handed to the drawing surface.
#[derive(Clone, Copy, Debug, PartialEq, Eq, Structural)]
pub enum FlushAction {
    /// Tell the renderer that the flush is complete. The renderer does not
    /// render on before it is told.
    Acknowledge,
}

/// `count` as a counter of the driver holds it: itself, or the largest value
/// of the counter where it is beyond that.
pub open spec fn saturated(count: nat) -> nat {
    if count <= u64::MAX {
        count
    } else {
        u64::MAX as nat
    }
}

/// A counter that holds `count`, raised by one.
pub open spec fn counted(count: nat) -> nat {
    saturated(count + 1)
}

/// What a display driver stands for.
pub struct DriverModel {
    /// Largest horizontal resolution of a display the driver serves.
    pub hor_res_max: nat,
    /// Flushes acknowledged so far.
    pub acknowledged: nat,
    /// Acknowledged flushes that the drawing surface did not take whole.
    pub failures: nat,
    /// The failure of the latest flush that the surface did not take whole.
    pub last_failure: Option<DisplayError>,
}

impl DriverModel {
    /// Whether a driver can be made for displays up to `hor_res_max` pixels
    /// wide: the renderer takes the length of a render buffer as a 32-bit
    /// pixel count, so that length has to fit.
    pub open spec fn constructible(hor_res_max: nat) -> bool {
        hor_res_max * REFRESH_BUFFER_LEN as nat <= u32::MAX
    }

    /// A driver for displays up to `hor_res_max` pixels wide that has seen no
    /// flush yet.
    pub open spec fn initial(hor_res_max: nat) -> DriverModel {
        DriverModel { hor_res_max, acknowledged: 0, failures: 0, last_failure: None }
    }

    /// Pixels one render buffer holds.
    pub open spec fn buffer_len(self) -> nat {
        self.hor_res_max * REFRESH_BUFFER_LEN as nat
    }

    /// Bytes one render buffer occupies.
    pub open spec fn buffer_bytes(self) -> nat {
        self.buffer_len() * COLOR_SIZE as nat
    }

    /// Bytes all render buffers occupy together.
    pub open spec fn total_buffer_bytes(self) -> nat {
        self.buffer_bytes() * BUFFER_COUNT as nat
    }

    /// The renderer can be told the length of a buffer, the counters fit, and
    /// no more flushes failed than were acknowledged.
    pub open spec fn well_formed(self) -> bool {
        &&& self.buffer_len() <= u32::MAX
        &&& self.failures <= self.acknowledged <= u64::MAX
        &&& self.failures == 0 <==> self.last_failure is None
    }

    /// The driver after one flush that ended in `outcome`.
    pub open spec fn finish_flush(self, outcome: Result<(), DisplayError>) -> DriverModel {
        match outcome {
            Ok(()) => DriverModel { acknowledged: counted(self.acknowledged), ..self },
            Err(error) => DriverModel {
                acknowledged: counted(self.acknowledged),
                failures: counted(self.failures),
                last_failure: Some(error),
                ..self
            },
        }
    }

    /// The driver after a run of flushes that ended in `outcomes`, in order.
    pub open spec fn finish_flushes(self, outcomes: Seq<Result<(), DisplayError>>) -> DriverModel
        decreases outcomes.len(),
    {
        if outcomes.len() == 0 {
            self
        } else {
            self.finish_flush(outcomes.first()).finish_flushes(outcomes.drop_first())
        }
    }
}

/// How many of `outcomes` are failures.
pub open spec fn failure_count(outcomes: Seq<Result<(), DisplayError>>) -> nat
    decreases outcomes.len(),
{
    if outcomes.len() == 0 {
        0
    } else if outcomes.first() is Err {
        1 + failure_count(outcomes.drop_first())
    } else {
        failure_count(outcomes.drop_first())
    }
}

/// The render buffers are sized by the largest horizontal resolution alone,
/// not by the surface that is drawn to: wherever a driver can be made, each
/// buffer holds `REFRESH_BUFFER_LEN` rows of that width, a pixel takes
/// `COLOR_SIZE` bytes, and there are `BUFFER_COUNT` buffers. A driver can be
/// made for every resolution below 2^31.
pub proof fn lemma_buffers_sized_by_resolution(hor_res_max: nat)
    ensures
        DriverModel::constructible(hor_res_max) <==> hor_res_max < 0x8000_0000,
        DriverModel::constructible(hor_res_max) ==> DriverModel::initial(hor_res_max).well_formed(),
        DriverModel::initial(hor_res_max).buffer_len() == 2 * hor_res_max,
        DriverModel::initial(hor_res_max).buffer_bytes() == 4 * hor_res_max,
        DriverModel::initial(hor_res_max).total_buffer_bytes() == 8 * hor_res_max,
{
    assert(REFRESH_BUFFER_LEN == 2 && COLOR_SIZE == 2 && BUFFER_COUNT == 2);
    assert(hor_res_max * 2 * 2 * 2 == 8 * hor_res_max);
}

/// Every flush is acknowledged exactly once, whatever became of its pixels:
/// after any run of flushes the driver has acknowledged one more flush for
/// each of them, up to the largest count it can hold, and has counted the
/// failures among them in the same way. The buffers stay as they were.
pub proof fn lemma_every_flush_acknowledged(
    driver: DriverModel,
    outcomes: Seq<Result<(), DisplayError>>,
)
    requires
        driver.well_formed(),
    ensures
        driver.finish_flushes(outcomes).well_formed(),
        driver.finish_flushes(outcomes).hor_res_max == driver.hor_res_max,
        driver.finish_flushes(outcomes).acknowledged == saturated(
            driver.acknowledged + outcomes.len(),
        ),
        driver.finish_flushes(outcomes).failures == saturated(
            driver.failures + failure_count(outcomes),
        ),
    decreases outcomes.len(),
{
    if outcomes.len() > 0 {
        lemma_every_flush_acknowledged(driver.finish_flush(outcomes.first()), outcomes.drop_first());
    }
}

/// The driver of one display: the geometry of its render buffers and a record
/// of the flushes it has acknowledged.
#[derive(Debug)]
pub struct DisplayDriver {
    hor_res_max: u32,
    acknowledged: u64,
    failures: u64,
    last_failure: Option<DisplayError>,
}

impl View for DisplayDriver {
    type V = DriverModel;

    closed spec fn view(&self) -> DriverModel {
        DriverModel {
            hor_res_max: self.hor_res_max as nat,
            acknowledged: self.acknowledged as nat,
            failures: self.failures as nat,
            last_failure: self.last_failure,
        }
    }
}

impl DisplayDriver {
    #[verifier::type_invariant]
    spec fn inv(self) -> bool {
        self@.well_formed()
    }

    /// A driver for displays up to `hor_res_max` pixels wide.
    ///
    /// Each of its render buffers holds `REFRESH_BUFFER_LEN` rows of that
    /// width, whatever the size of the surface that is drawn to. Construction
    /// fails with `AllocationFailure` when the length of such a buffer cannot
    /// be told to the renderer, which takes it as a 32-bit pixel count.
    pub fn new(hor_res_max: u32) -> (driver: Result<DisplayDriver, DisplayError>)
        ensures
            driver is Ok <==> DriverModel::constructible(hor_res_max as nat),
            driver matches Ok(d) ==> d@ == DriverModel::initial(hor_res_max as nat)
                && d@.well_formed(),
            driver matches Err(error) ==> error == DisplayError::AllocationFailure,
    {
        match hor_res_max.checked_mul(REFRESH_BUFFER_LEN) {
            Some(_) => Ok(
                DisplayDriver { hor_res_max, acknowledged: 0, failures: 0, last_failure: None },
            ),
            None => Err(DisplayError::AllocationFailure),
        }
    }

    /// Largest horizontal resolution of a display the driver serves.
    pub fn hor_res_max(&self) -> (pixels: u32)
        ensures
            pixels == self@.hor_res_max,
    {
        self.hor_res_max
    }

    /// Pixels one render buffer holds: the count the renderer is told.
    pub fn buffer_len(&self) -> (pixels: u32)
        ensures
            pixels == self@.buffer_len(),
    {
        proof {
            use_type_invariant(self);
        }
        self.hor_res_max * REFRESH_BUFFER_LEN
    }

    /// Bytes one render buffer occupies.
    pub fn buffer_bytes(&self) -> (bytes: u64)
        ensures
            bytes == self@.buffer_bytes(),
    {
        self.buffer_len() as u64 * COLOR_SIZE as u64
    }

    /// Bytes all render buffers occupy together.
    pub fn total_buffer_bytes(&self) -> (bytes: u64)
        ensures
            bytes == self@.total_buffer_bytes(),
    {
        let bytes: u64 = self.buffer_bytes();
        proof {
            use_type_invariant(self);
            assert(bytes * BUFFER_COUNT <= u64::MAX) by (nonlinear_arith)
                requires
                    bytes == self@.buffer_len() * COLOR_SIZE,
                    self@.buffer_len() <= u32::MAX,
                    COLOR_SIZE == 2,
                    BUFFER_COUNT == 2,
            ;
        }
        bytes * BUFFER_COUNT as u64
    }

    /// Flushes acknowledged so far. The count stops at the largest value it
    /// can hold.
    pub fn acknowledged(&self) -> (count: u64)
        ensures
            count == self@.acknowledged,
    {
        self.acknowledged
    }

    /// Acknowledged flushes that the drawing surface did not take whole. The
    /// count stops at the largest value it can hold.
    pub fn failures(&self) -> (count: u64)
        ensures
            count == self@.failures,
    {
        self.failures
    }

    /// The failure of the latest flush that the surface did not take whole,
    /// or `None` while every flush went well.
    pub fn last_failure(&self) -> (failure: Option<DisplayError>)
        ensures
            failure == self@.last_failure,
    {
        self.last_failure
    }

    /// Records that the pixel writes of one flush have been handed to the
    /// drawing surface, with `outcome` saying how the surface took them, and
    /// returns what is owed to the renderer: the acknowledgment, always.
    pub fn finish_flush(&mut self, outcome: Result<(), DisplayError>) -> (action: FlushAction)
        ensures
            action == FlushAction::Acknowledge,
            final(self)@ == old(self)@.finish_flush(outcome),
            final(self)@.well_formed(),
    {
        proof {
            use_type_invariant(&*self);
        }
        let acknowledged: u64 = self.acknowledged.saturating_add(1);
        match outcome {
            Ok(()) => {
                self.acknowledged = acknowledged;
            },
            Err(error) => {
                *self = DisplayDriver {
                    hor_res_max: self.hor_res_max,
                    acknowledged,
                    failures: self.failures.saturating_add(1),
                    last_failure: Some(error),
                };
            },
        }
        FlushAction::Acknowledge
    }
}

} // verus!
