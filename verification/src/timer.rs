//! The timer: DIV ticking at 16384 Hz, TIMA counting at the TAC-selected
//! rate and reloading from TMA on overflow, which raises the timer
//! interrupt.
use vstd::prelude::*;

verus! {

/// Mathematical model of the timer: the free-running divider's internal
/// 16-bit cycle counter (DIV reads its high byte), the counter TIMA with
/// its cycle accumulator, the reload value TMA, the control TAC, and the
/// latch for the one-tick-delayed reload after a TIMA overflow.
pub ghost struct TimerView {
    pub div_counter: u16,
    pub tima: u8,
    pub tima_counter: u32,
    pub tma: u8,
    pub tac: u8,
    pub reload_pending: bool,
}

/// Machine cycles per TIMA increment for a control value: 4096, 262144,
/// 65536 or 16384 Hz.
pub open spec fn spec_timer_period(tac: u8) -> u32 {
    if tac % 4 == 0 {
        1024u32
    } else if tac % 4 == 1 {
        16u32
    } else if tac % 4 == 2 {
        64u32
    } else {
        256u32
    }
}

/// Well-formed timer: the control holds only its three architected bits,
/// and the accumulator stays below one period.
pub open spec fn timer_view_wf(t: TimerView) -> bool {
    &&& t.tac < 8
    &&& t.tima_counter < spec_timer_period(t.tac)
}

/// The byte read from timer register `offset` (relative to 0xFF04): DIV,
/// TIMA, TMA, TAC in order.
pub open spec fn spec_timer_read(t: TimerView, offset: u16) -> u8 {
    if offset == 0 {
        (t.div_counter / 256) as u8
    } else if offset == 1 {
        t.tima
    } else if offset == 2 {
        t.tma
    } else {
        t.tac
    }
}

/// The timer after a register write: writing DIV clears the divider, and
/// writing TAC restarts the period accumulator.
pub open spec fn spec_timer_write(t: TimerView, offset: u16, byte: u8) -> TimerView {
    if offset == 0 {
        TimerView { div_counter: 0u16, ..t }
    } else if offset == 1 {
        TimerView { tima: byte, ..t }
    } else if offset == 2 {
        TimerView { tma: byte, ..t }
    } else {
        TimerView { tac: byte % 8, tima_counter: 0u32, ..t }
    }
}

/// The timer advanced by 4 machine cycles, and whether the timer
/// interrupt is requested. A TIMA overflow leaves TIMA at zero with the
/// reload latched; on the next tick — after the 4-cycle delay — TIMA
/// takes TMA and the interrupt is requested.
pub open spec fn spec_timer_tick(t: TimerView) -> (TimerView, bool) {
    let div2 = if t.div_counter + 4 < 0x10000 {
        (t.div_counter + 4) as u16
    } else {
        (t.div_counter + 4 - 0x10000) as u16
    };
    if t.reload_pending {
        (TimerView { div_counter: div2, tima: t.tma, reload_pending: false, ..t }, true)
    } else if t.tac % 8 >= 4 {
        let c2 = t.tima_counter + 4;
        if c2 >= spec_timer_period(t.tac) {
            let rest = (c2 - spec_timer_period(t.tac)) as u32;
            if t.tima == 0xFF {
                (
                    TimerView {
                        div_counter: div2,
                        tima: 0u8,
                        tima_counter: rest,
                        reload_pending: true,
                        ..t
                    },
                    false,
                )
            } else {
                (
                    TimerView {
                        div_counter: div2,
                        tima: (t.tima + 1) as u8,
                        tima_counter: rest,
                        ..t
                    },
                    false,
                )
            }
        } else {
            (TimerView { div_counter: div2, tima_counter: c2 as u32, ..t }, false)
        }
    } else {
        (TimerView { div_counter: div2, ..t }, false)
    }
}

/// The four timer registers and their cycle bookkeeping.
pub struct Timer {
    div_counter: u16,
    tima: u8,
    tima_counter: u32,
    tma: u8,
    tac: u8,
    reload_pending: bool,
}

impl View for Timer {
    type V = TimerView;

    closed spec fn view(&self) -> TimerView {
        TimerView {
            div_counter: self.div_counter,
            tima: self.tima,
            tima_counter: self.tima_counter,
            tma: self.tma,
            tac: self.tac,
            reload_pending: self.reload_pending,
        }
    }
}

impl Timer {
    /// Well-formed timer.
    pub open spec fn wf(&self) -> bool {
        timer_view_wf(self@)
    }

    /// A timer at reset: everything cleared, TIMA disabled.
    pub fn new() -> (r: Timer)
        ensures
            r.wf(),
            r@ == (TimerView {
                div_counter: 0u16,
                tima: 0u8,
                tima_counter: 0u32,
                tma: 0u8,
                tac: 0u8,
                reload_pending: false,
            }),
    {
        Timer {
            div_counter: 0,
            tima: 0,
            tima_counter: 0,
            tma: 0,
            tac: 0,
            reload_pending: false,
        }
    }

    /// The byte at timer register `offset` (relative to 0xFF04).
    pub fn read(&self, offset: u16) -> (r: u8)
        ensures
            r == spec_timer_read(self@, offset),
    {
        if offset == 0 {
            (self.div_counter / 256) as u8
        } else if offset == 1 {
            self.tima
        } else if offset == 2 {
            self.tma
        } else {
            self.tac
        }
    }

    /// Writes a byte to timer register `offset`.
    pub fn write(&mut self, offset: u16, byte: u8)
        requires
            old(self).wf(),
        ensures
            final(self).wf(),
            final(self)@ == spec_timer_write(old(self)@, offset, byte),
    {
        if offset == 0 {
            self.div_counter = 0;
        } else if offset == 1 {
            self.tima = byte;
        } else if offset == 2 {
            self.tma = byte;
        } else {
            self.tac = byte % 8;
            self.tima_counter = 0;
        }
    }

    /// Advances the timer by 4 machine cycles; reports whether the timer
    /// interrupt is requested, which happens one tick after a TIMA
    /// overflow, when the delayed reload from TMA lands.
    pub fn step(&mut self) -> (request: bool)
        requires
            old(self).wf(),
        ensures
            final(self).wf(),
            (final(self)@, request) == spec_timer_tick(old(self)@),
    {
        self.div_counter = ((self.div_counter as u32 + 4) % 0x10000) as u16;
        if self.reload_pending {
            self.tima = self.tma;
            self.reload_pending = false;
            return true;
        }
        if self.tac >= 4 {
            let period: u32 = if self.tac % 4 == 0 {
                1024
            } else if self.tac % 4 == 1 {
                16
            } else if self.tac % 4 == 2 {
                64
            } else {
                256
            };
            let c2 = self.tima_counter + 4;
            if c2 >= period {
                self.tima_counter = c2 - period;
                if self.tima == 0xFF {
                    self.tima = 0;
                    self.reload_pending = true;
                } else {
                    self.tima = self.tima + 1;
                }
            } else {
                self.tima_counter = c2;
            }
        }
        false
    }
}

} // verus!
