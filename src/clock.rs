//! A monotonic clock that extends a narrow hardware counter, which wraps
//! around, into a 64-bit tick count by counting the counter's overflows.
use vstd::prelude::*;

verus! {

/// Width of the hardware counter: 24 bits for RTC peripherals, 32 for timers.
#[derive(Copy, Clone, PartialEq, Eq, Structural, Debug)]
pub enum CounterWidth {
    Bits24,
    Bits32,
}

impl CounterWidth {
    pub open spec fn spec_bits(self) -> u64 {
        match self {
            CounterWidth::Bits24 => 24,
            CounterWidth::Bits32 => 32,
        }
    }

    pub open spec fn spec_max_count(self) -> u64 {
        match self {
            CounterWidth::Bits24 => 0xFF_FFFF,
            CounterWidth::Bits32 => 0xFFFF_FFFF,
        }
    }

    /// The largest epoch whose instants do not wrap the 64-bit tick count.
    pub open spec fn spec_max_epoch(self) -> u64 {
        match self {
            CounterWidth::Bits24 => 0xFF_FFFF_FFFF,
            CounterWidth::Bits32 => 0xFFFF_FFFF,
        }
    }

    /// Number of bits of the counter.
    pub fn bits(&self) -> (r: u64)
        ensures
            r == self.spec_bits(),
    {
        match self {
            CounterWidth::Bits24 => 24,
            CounterWidth::Bits32 => 32,
        }
    }

    /// The largest value the counter reaches before it wraps to zero.
    pub fn max_count(&self) -> (r: u64)
        ensures
            r == self.spec_max_count(),
    {
        match self {
            CounterWidth::Bits24 => 0xFF_FFFF,
            CounterWidth::Bits32 => 0xFFFF_FFFF,
        }
    }
}

/// The tick count for an epoch and a counter reading: `(epoch << width) | counter`.
pub open spec fn instant(epoch: u64, width: CounterWidth, counter: u64) -> u64 {
    (epoch << width.spec_bits()) | counter
}

/// The compare value that wakes the clock at `target` when it reads `now`:
/// the low bits of `target` when it lies within one counter period ahead,
/// and 0 otherwise (the wake-up is then armed again after the next overflow).
pub open spec fn compare_for(target: u64, now: u64, width: CounterWidth) -> u32 {
    if now <= target && target - now <= width.spec_max_count() {
        (target & width.spec_max_count()) as u32
    } else {
        0
    }
}

/// A monotonic clock: the number of counter overflows seen so far (the epoch)
/// combined with a fresh reading of the hardware counter.
pub struct MonotonicClock {
    epoch: u64,
    width: CounterWidth,
}

impl MonotonicClock {
    pub closed spec fn spec_epoch(&self) -> u64 {
        self.epoch
    }

    pub closed spec fn spec_width(&self) -> CounterWidth {
        self.width
    }

    /// The epoch a reader uses: one more than the count so far when an
    /// overflow is pending that the interrupt has not handled yet (the count
    /// wraps to 0 after its largest value).
    pub open spec fn observed_epoch(&self, overflow_pending: bool) -> u64 {
        if overflow_pending {
            if self.spec_epoch() == u64::MAX {
                0
            } else {
                (self.spec_epoch() + 1) as u64
            }
        } else {
            self.spec_epoch()
        }
    }

    /// A clock at epoch 0 over a counter of the given width.
    pub fn new(width: CounterWidth) -> (r: Self)
        ensures
            r.spec_epoch() == 0,
            r.spec_width() == width,
    {
        MonotonicClock { epoch: 0, width }
    }

    /// Number of counter overflows counted so far.
    pub fn epoch(&self) -> (r: u64)
        ensures
            r == self.spec_epoch(),
    {
        self.epoch
    }

    /// Width of the underlying counter.
    pub fn width(&self) -> (r: CounterWidth)
        ensures
            r == self.spec_width(),
    {
        self.width
    }

    /// The current instant, from a reading of the hardware counter and of its
    /// overflow flag.
    pub fn now(&self, counter: u32, overflow_pending: bool) -> (r: u64)
        requires
            counter <= self.spec_width().spec_max_count(),
        ensures
            r == instant(self.observed_epoch(overflow_pending), self.spec_width(), counter as u64),
    {
        let epoch = if overflow_pending {
            self.epoch.wrapping_add(1)
        } else {
            self.epoch
        };
        (epoch << self.width.bits()) | (counter as u64)
    }

    /// Handles the counter's overflow interrupt: counts the overflow when the
    /// flag is set. Returns whether the flag must be cleared.
    pub fn on_overflow_interrupt(&mut self, overflow_pending: bool) -> (clear: bool)
        ensures
            clear == overflow_pending,
            final(self).spec_width() == old(self).spec_width(),
            final(self).spec_epoch() == old(self).observed_epoch(overflow_pending),
    {
        if overflow_pending {
            self.epoch = self.epoch.wrapping_add(1);
        }
        overflow_pending
    }

    /// The value for the hardware compare register that wakes the clock at
    /// `target`, given a reading of the counter and of its overflow flag.
    pub fn compare_value(&self, target: u64, counter: u32, overflow_pending: bool) -> (r: u32)
        requires
            counter <= self.spec_width().spec_max_count(),
        ensures
            r == compare_for(target, self.now_spec(counter, overflow_pending), self.spec_width()),
    {
        let now = self.now(counter, overflow_pending);
        let max = self.width.max_count();
        if now <= target && target - now <= max {
            (target & max) as u32
        } else {
            0
        }
    }

    /// The instant `now` returns for these readings.
    pub open spec fn now_spec(&self, counter: u32, overflow_pending: bool) -> u64 {
        instant(self.observed_epoch(overflow_pending), self.spec_width(), counter as u64)
    }
}

proof fn lemma_instant_arith(epoch: u64, width: CounterWidth, counter: u64)
    requires
        epoch <= width.spec_max_epoch(),
        counter <= width.spec_max_count(),
    ensures
        instant(epoch, width, counter) == epoch * (width.spec_max_count() + 1) + counter,
{
    match width {
        CounterWidth::Bits24 => {
            assert((epoch << 24u64) | counter == epoch * 0x100_0000 + counter) by (bit_vector)
                requires
                    epoch <= 0xFF_FFFF_FFFF,
                    counter <= 0xFF_FFFF,
            ;
        },
        CounterWidth::Bits32 => {
            assert((epoch << 32u64) | counter == epoch * 0x1_0000_0000 + counter) by (bit_vector)
                requires
                    epoch <= 0xFFFF_FFFF,
                    counter <= 0xFFFF_FFFF,
            ;
        },
    }
}

proof fn lemma_instant_counter_order(epoch: u64, width: CounterWidth, c1: u64, c2: u64)
    requires
        c1 <= c2 <= width.spec_max_count(),
    ensures
        instant(epoch, width, c1) <= instant(epoch, width, c2),
{
    match width {
        CounterWidth::Bits24 => {
            assert((epoch << 24u64) | c1 <= (epoch << 24u64) | c2) by (bit_vector)
                requires
                    c1 <= c2 <= 0xFF_FFFF,
            ;
        },
        CounterWidth::Bits32 => {
            assert((epoch << 32u64) | c1 <= (epoch << 32u64) | c2) by (bit_vector)
                requires
                    c1 <= c2 <= 0xFFFF_FFFF,
            ;
        },
    }
}

/// Between overflows the clock never runs backwards: readings of the counter
/// that do not decrease give instants that do not decrease.
pub proof fn lemma_now_monotonic(clock: MonotonicClock, c1: u32, c2: u32, overflow_pending: bool)
    requires
        c1 <= c2 <= clock.spec_width().spec_max_count(),
    ensures
        clock.now_spec(c1, overflow_pending) <= clock.now_spec(c2, overflow_pending),
{
    lemma_instant_counter_order(
        clock.observed_epoch(overflow_pending),
        clock.spec_width(),
        c1 as u64,
        c2 as u64,
    );
}

/// One handled overflow moves every instant forward by exactly one counter
/// period (`1 << width` ticks), as long as the 64-bit tick count does not wrap.
pub proof fn lemma_overflow_advances_one_period(before: MonotonicClock, after: MonotonicClock, counter: u32)
    requires
        after.spec_width() == before.spec_width(),
        after.spec_epoch() == before.observed_epoch(true),
        before.spec_epoch() < before.spec_width().spec_max_epoch(),
        counter <= before.spec_width().spec_max_count(),
    ensures
        after.now_spec(counter, false) == before.now_spec(counter, false) + (1u64 << before.spec_width().spec_bits()),
        after.now_spec(counter, false) > before.now_spec(counter, false),
{
    let w = before.spec_width();
    lemma_instant_arith(before.spec_epoch(), w, counter as u64);
    lemma_instant_arith(after.spec_epoch(), w, counter as u64);
    match w {
        CounterWidth::Bits24 => {
            assert(1u64 << 24u64 == 0x100_0000) by (bit_vector);
        },
        CounterWidth::Bits32 => {
            assert(1u64 << 32u64 == 0x1_0000_0000) by (bit_vector);
        },
    }
    assert(after.spec_epoch() * (w.spec_max_count() + 1) == before.spec_epoch() * (w.spec_max_count()
        + 1) + w.spec_max_count() + 1) by (nonlinear_arith)
        requires
            after.spec_epoch() == before.spec_epoch() + 1,
    ;
}

} // verus!
