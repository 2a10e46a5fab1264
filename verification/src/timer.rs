//! The programmable timer: DIV, TIMA, TMA and TAC.
//!
//! DIV is the upper byte of a free-running 16-bit counter. TIMA advances at
//! the TAC-selected rate while TAC's enable bit is set; on overflow it
//! reloads from TMA and raises the timer interrupt.

use vstd::prelude::*;

verus! {

/// Ghost image of the timer state.
pub struct TimerView {
    pub div_counter: u16,
    pub tima: u8,
    pub tma: u8,
    pub tac: u8,
    /// T-cycles accumulated towards the next TIMA increment.
    pub tima_acc: u32,
    /// Raised interrupt mask, harvested by the bus.
    pub interrupt: u8,
}

/// T-cycles per TIMA increment for the given TAC frequency select.
pub open spec fn tac_period(tac: u8) -> u32 {
    if tac & 0x03 == 0 {
        1024
    } else if tac & 0x03 == 1 {
        16
    } else if tac & 0x03 == 2 {
        64
    } else {
        256
    }
}

impl TimerView {
    /// TIMA after `n` increments from `tima`, reloading from `tma` on each
    /// overflow.
    pub open spec fn tima_after(tima: u8, tma: u8, n: int) -> u8 {
        if n < 0x100 - tima {
            (tima + n) as u8
        } else {
            (tma + ((n - (0x100 - tima)) % (0x100 - tma))) as u8
        }
    }

    /// The whole timer state after `t` T-cycles.
    pub open spec fn step(self, t: u32) -> TimerView {
        let div2 = ((self.div_counter + t) % 0x10000) as u16;
        let total = self.tima_acc + t;
        let p = tac_period(self.tac);
        let n = total / p as int;
        let acc2 = (total % p as int) as u32;
        if self.tac & 0x04 != 0 && n > 0 {
            TimerView {
                div_counter: div2,
                tima: TimerView::tima_after(self.tima, self.tma, n),
                tima_acc: acc2,
                interrupt: if n >= 0x100 - self.tima {
                    self.interrupt | 0x04
                } else {
                    self.interrupt
                },
                ..self
            }
        } else {
            TimerView { div_counter: div2, tima_acc: acc2, ..self }
        }
    }

    /// Register read: DIV exposes the counter's upper byte.
    pub open spec fn read(self, address: u16) -> u8 {
        if address == 0xFF04 {
            (self.div_counter >> 8) as u8
        } else if address == 0xFF05 {
            self.tima
        } else if address == 0xFF06 {
            self.tma
        } else {
            self.tac
        }
    }

    /// Register write: any DIV write clears the whole internal counter.
    pub open spec fn write(self, address: u16, value: u8) -> TimerView {
        if address == 0xFF04 {
            TimerView { div_counter: 0, ..self }
        } else if address == 0xFF05 {
            TimerView { tima: value, ..self }
        } else if address == 0xFF06 {
            TimerView { tma: value, ..self }
        } else {
            TimerView { tac: value & 0x07, ..self }
        }
    }
}

/// The timer device.
pub struct Timer {
    pub div_counter: u16,
    pub tima: u8,
    pub tma: u8,
    pub tac: u8,
    pub tima_acc: u32,
    pub interrupt: u8,
}

impl View for Timer {
    type V = TimerView;

    open spec fn view(&self) -> TimerView {
        TimerView {
            div_counter: self.div_counter,
            tima: self.tima,
            tma: self.tma,
            tac: self.tac,
            tima_acc: self.tima_acc,
            interrupt: self.interrupt,
        }
    }
}

impl Timer {
    /// The accumulator stays below the largest TIMA period.
    pub open spec fn wf(self) -> bool {
        self.tima_acc < 1024
    }

    pub fn new() -> (r: Timer)
        ensures
            r@ == (TimerView {
                div_counter: 0u16,
                tima: 0u8,
                tma: 0u8,
                tac: 0u8,
                tima_acc: 0u32,
                interrupt: 0u8,
            }),
            r.wf(),
    {
        Timer { div_counter: 0, tima: 0, tma: 0, tac: 0, tima_acc: 0, interrupt: 0 }
    }

    pub fn reset(&mut self)
        ensures
            final(self)@ == (TimerView {
                div_counter: 0u16,
                tima: 0u8,
                tma: 0u8,
                tac: 0u8,
                tima_acc: 0u32,
                interrupt: 0u8,
            }),
            final(self).wf(),
    {
        self.div_counter = 0;
        self.tima = 0;
        self.tma = 0;
        self.tac = 0;
        self.tima_acc = 0;
        self.interrupt = 0;
    }

    pub fn read_byte(&self, address: u16) -> (r: u8)
        ensures
            r == self@.read(address),
    {
        if address == 0xFF04 {
            (self.div_counter >> 8) as u8
        } else if address == 0xFF05 {
            self.tima
        } else if address == 0xFF06 {
            self.tma
        } else {
            self.tac
        }
    }

    pub fn write_byte(&mut self, address: u16, value: u8)
        ensures
            final(self)@ == old(self)@.write(address, value),
            old(self).wf() ==> final(self).wf(),
    {
        if address == 0xFF04 {
            self.div_counter = 0;
        } else if address == 0xFF05 {
            self.tima = value;
        } else if address == 0xFF06 {
            self.tma = value;
        } else {
            self.tac = value & 0x07;
        }
    }

    /// Advance the timer by `t` T-cycles.
    pub fn execute_ticks(&mut self, t: u32)
        requires
            old(self).wf(),
            t <= 0x40000,
        ensures
            final(self)@ == old(self)@.step(t),
            final(self).wf(),
    {
        self.div_counter = ((self.div_counter as u32 + t) % 0x10000) as u16;
        let total: u32 = self.tima_acc + t;
        let p: u32 = if self.tac & 0x03 == 0 {
            1024
        } else if self.tac & 0x03 == 1 {
            16
        } else if self.tac & 0x03 == 2 {
            64
        } else {
            256
        };
        let n: u32 = total / p;
        self.tima_acc = total % p;
        if self.tac & 0x04 != 0 && n > 0 {
            let k: u32 = 0x100 - self.tima as u32;
            if n < k {
                self.tima = self.tima + n as u8;
            } else {
                let reload_span: u32 = 0x100 - self.tma as u32;
                self.tima = (self.tma as u32 + ((n - k) % reload_span)) as u8;
                self.interrupt = self.interrupt | 0x04;
            }
        }
    }
}

} // verus!
