use vstd::prelude::*;

verus! {

/// The four selectable TIMA rates, named by their frequency in Hz.
#[derive(Clone, Copy, PartialEq, Eq, Structural)]
pub enum Clock {
    C4096,
    C262144,
    C65536,
    C16384,
}

impl Clock {
    /// The rate's period in clock ticks.
    pub open spec fn spec_cycles(self) -> u16 {
        match self {
            Clock::C4096 => 1024,
            Clock::C262144 => 16,
            Clock::C65536 => 64,
            Clock::C16384 => 256,
        }
    }

    pub fn to_cycles(&self) -> (r: u16)
        ensures
            r == self.spec_cycles(),
    {
        match self {
            Clock::C4096 => 1024,
            Clock::C262144 => 16,
            Clock::C65536 => 64,
            Clock::C16384 => 256,
        }
    }

    /// The rate selected by the low two bits of TAC.
    pub open spec fn spec_from_bits(bits: u8) -> Clock {
        if bits == 0 {
            Clock::C4096
        } else if bits == 1 {
            Clock::C262144
        } else if bits == 2 {
            Clock::C65536
        } else {
            Clock::C16384
        }
    }

    pub fn from_bits(bits: u8) -> (r: Clock)
        ensures
            r == Clock::spec_from_bits(bits),
    {
        if bits == 0 {
            Clock::C4096
        } else if bits == 1 {
            Clock::C262144
        } else if bits == 2 {
            Clock::C65536
        } else {
            Clock::C16384
        }
    }
}

/// Repeatedly takes one period out of the accumulated ticks, incrementing
/// TIMA each time; an increment past 0xFF reloads TIMA from TMA and marks
/// the interrupt request. Returns the final accumulator, the final TIMA,
/// and whether any increment overflowed.
pub open spec fn tick_tima(counter: int, period: int, tima: int, tma: int) -> (int, int, bool)
    decreases counter,
    when period > 0 && counter >= 0
{
    if counter < period {
        (counter, tima, false)
    } else {
        let next_tima = if tima == 0xFF {
            tma
        } else {
            tima + 1
        };
        let rest = tick_tima(counter - period, period, next_tima, tma);
        (rest.0, rest.1, rest.2 || tima == 0xFF)
    }
}

/// The timer block: DIV as the upper byte of a free-running 16-bit tick
/// counter, and TIMA driven by its own accumulator at the TAC-selected rate.
pub struct Timer {
    pub div_counter: u16,
    pub timer_counter: u16,
    pub tima: u8,
    pub tma: u8,
    pub tac: u8,
}

impl Timer {
    /// The TIMA accumulator never holds a full largest period.
    pub open spec fn wf(self) -> bool {
        self.timer_counter < 1024
    }

    /// TAC bit 2 gates TIMA counting.
    pub open spec fn spec_enabled(self) -> bool {
        (self.tac >> 2) & 1 == 1
    }

    /// The TIMA period in clock ticks that TAC bits 1..0 select.
    pub open spec fn spec_period(self) -> u16 {
        Clock::spec_from_bits(self.tac & 3).spec_cycles()
    }

    pub fn new() -> (r: Timer)
        ensures
            r.div_counter == 0,
            r.timer_counter == 0,
            r.tima == 0,
            r.tma == 0,
            r.tac == 4,
            r.wf(),
    {
        Timer { div_counter: 0, timer_counter: 0, tima: 0, tma: 0, tac: 4 }
    }

    pub fn is_enabled(&self) -> (r: bool)
        ensures
            r == self.spec_enabled(),
    {
        (self.tac >> 2) & 1 == 1
    }

    pub fn get_frequency(&self) -> (r: Clock)
        ensures
            r == Clock::spec_from_bits(self.tac & 3),
    {
        Clock::from_bits(self.tac & 3)
    }

    pub fn set_frequency(&mut self, frequency: Clock)
        ensures
            final(self).tac == (old(self).tac & !3u8) | (match frequency {
                Clock::C4096 => 0u8,
                Clock::C262144 => 1u8,
                Clock::C65536 => 2u8,
                Clock::C16384 => 3u8,
            }),
            final(self).div_counter == old(self).div_counter,
            final(self).timer_counter == old(self).timer_counter,
            final(self).tima == old(self).tima,
            final(self).tma == old(self).tma,
    {
        let bits: u8 = match frequency {
            Clock::C4096 => 0,
            Clock::C262144 => 1,
            Clock::C65536 => 2,
            Clock::C16384 => 3,
        };
        self.tac = (self.tac & !3u8) | bits;
    }

    /// The value a read of 0xFF04 returns: the upper byte of the tick counter.
    pub fn read_div(&self) -> (r: u8)
        ensures
            r == (self.div_counter >> 8) as u8,
    {
        (self.div_counter >> 8) as u8
    }

    /// Any write to 0xFF04 clears the whole tick counter.
    pub fn reset_div(&mut self)
        ensures
            *final(self) == (Timer { div_counter: 0, ..*old(self) }),
    {
        self.div_counter = 0;
    }

    pub fn write_tima(&mut self, data: u8)
        ensures
            *final(self) == (Timer { tima: data, ..*old(self) }),
    {
        self.tima = data;
    }

    pub fn write_tma(&mut self, data: u8)
        ensures
            *final(self) == (Timer { tma: data, ..*old(self) }),
    {
        self.tma = data;
    }

    pub fn write_tac(&mut self, data: u8)
        ensures
            *final(self) == (Timer { tac: data, ..*old(self) }),
    {
        self.tac = data;
    }

    /// Advances the timer by the given machine cycles (four ticks each).
    /// DIV always counts; TIMA counts only while enabled, and every overflow
    /// reloads it from TMA and requests the Timer interrupt.
    pub fn update(&mut self, cycles: u8) -> (fired: bool)
        requires
            old(self).wf(),
        ensures
            final(self).wf(),
            final(self).div_counter == vstd::wrapping::u16_specs::wrapping_add(
                old(self).div_counter,
                (4 * cycles as u16) as u16,
            ),
            final(self).tma == old(self).tma,
            final(self).tac == old(self).tac,
            !old(self).spec_enabled() ==> final(self).tima == old(self).tima
                && final(self).timer_counter == old(self).timer_counter && !fired,
            old(self).spec_enabled() ==> {
                let stepped = tick_tima(
                    old(self).timer_counter + 4 * cycles as u16,
                    old(self).spec_period() as int,
                    old(self).tima as int,
                    old(self).tma as int,
                );
                final(self).timer_counter == stepped.0 && final(self).tima == stepped.1 && fired
                    == stepped.2
            },
    {
        let ticks: u16 = 4 * (cycles as u16);
        self.div_counter = self.div_counter.wrapping_add(ticks);

        if !self.is_enabled() {
            return false;
        }

        self.timer_counter = self.timer_counter + ticks;
        let period = self.get_frequency().to_cycles();
        let mut fired = false;

        let ghost c0 = self.timer_counter as int;
        let ghost t0 = self.tima as int;
        let ghost p = period as int;
        let ghost m = self.tma as int;
        let ghost dv = self.div_counter;

        while self.timer_counter >= period
            invariant
                p == period,
                period == old(self).spec_period(),
                period >= 16,
                m == self.tma as int,
                self.div_counter == dv,
                self.tma == old(self).tma,
                self.tac == old(self).tac,
                self.timer_counter <= c0,
                tick_tima(c0, p, t0, m).0 == tick_tima(
                    self.timer_counter as int,
                    p,
                    self.tima as int,
                    m,
                ).0,
                tick_tima(c0, p, t0, m).1 == tick_tima(
                    self.timer_counter as int,
                    p,
                    self.tima as int,
                    m,
                ).1,
                tick_tima(c0, p, t0, m).2 == (fired || tick_tima(
                    self.timer_counter as int,
                    p,
                    self.tima as int,
                    m,
                ).2),
            decreases self.timer_counter,
        {
            self.timer_counter = self.timer_counter - period;
            if self.tima == 0xFF {
                self.tima = self.tma;
                fired = true;
            } else {
                self.tima = self.tima + 1;
            }
        }
        fired
    }
}

/// A single TIMA increment that overflows reloads TIMA from TMA and requests
/// the interrupt exactly once: when one period is taken and TIMA stood at
/// 0xFF, the result is TMA with the request raised, and no request is
/// raised without an overflow.
pub proof fn lemma_tima_overflow_reloads(counter: int, period: int, tima: int, tma: int)
    requires
        period > 0,
        period <= counter < 2 * period,
    ensures
        tima == 0xFF ==> tick_tima(counter, period, tima, tma) == (counter - period, tma, true),
        tima != 0xFF ==> tick_tima(counter, period, tima, tma) == (counter - period, tima + 1, false),
{
    reveal_with_fuel(tick_tima, 2);
}

} // verus!
