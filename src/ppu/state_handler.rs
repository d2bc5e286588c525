use vstd::prelude::*;
use crate::ppu::config::{State, HEIGHT, WIDTH};
use crate::ppu::{timing_ok, Ppu};
use crate::ppu::renderer::{
    base_color, line_objects, on_line, scan_complete, sprites_at, window_on_line,
};
use crate::ppu::config::VIDEO_BUFFER;
use crate::ppu::stat::{mode_bits, stat_source};
use crate::cpu::registers::wrap8;

verus! {

/// Mode, dot counter and line counter after one dot.
pub open spec fn next_timing(state: State, dot: u32, ly: u8) -> (State, u32, u8) {
    let d = dot + 1;
    match state {
        State::Mode2 => if d % 456 >= 80 {
            (State::Mode3, d as u32, ly)
        } else {
            (State::Mode2, d as u32, ly)
        },
        State::Mode3 => if d % 456 >= 80 + 172 {
            (State::Mode0, d as u32, ly)
        } else {
            (State::Mode3, d as u32, ly)
        },
        State::Mode0 => if d % 456 == 0 {
            if ly + 1 < 144 {
                (State::Mode2, d as u32, (ly + 1) as u8)
            } else {
                (State::Mode1, d as u32, (ly + 1) as u8)
            }
        } else if d < 50 {
            (State::Mode2, d as u32, ly)
        } else {
            (State::Mode0, d as u32, ly)
        },
        State::Mode1 => if d % 456 == 0 {
            if ly == 153 {
                (State::Mode2, 0u32, 0u8)
            } else {
                (State::Mode1, d as u32, (ly + 1) as u8)
            }
        } else {
            (State::Mode1, d as u32, ly)
        },
    }
}

/// The dot that ends the horizontal blank of the last visible line.
pub open spec fn enters_vblank(state: State, dot: u32, ly: u8) -> bool {
    state == State::Mode0 && (dot + 1) % 456 == 0 && ly + 1 >= 144
}

/// One of the first `k` dots from `t` enters vertical blank.
pub open spec fn vblank_in(t: (State, u32, u8), k: nat) -> bool
    decreases k,
{
    if k == 0 {
        false
    } else {
        let p = timing_after(t, (k - 1) as nat);
        vblank_in(t, (k - 1) as nat) || enters_vblank(p.0, p.1, p.2)
    }
}

/// Mode, dot and line after `k` dots.
pub open spec fn timing_after(t: (State, u32, u8), k: nat) -> (State, u32, u8)
    decreases k,
{
    if k == 0 {
        t
    } else {
        let p = timing_after(t, (k - 1) as nat);
        next_timing(p.0, p.1, p.2)
    }
}

impl Ppu {
    /// The fields that drawing a line leaves alone are those of `other`.
    pub open spec fn same_but_pixels(&self, other: &Ppu) -> bool {
        *self == (Ppu { video_buffer: self.video_buffer, bg_trace: self.bg_trace, ..*other })
    }

    /// Advances the pipeline by one dot.
    #[verifier::spinoff_prover]
    #[verifier::rlimit(100)]
    pub fn run_ppu(&mut self)
        requires
            old(self).wf(),
        ensures
            final(self).wf(),
            (final(self).state, final(self).dot, final(self).ly) == next_timing(
                old(self).state,
                old(self).dot,
                old(self).ly,
            ),
            final(self).vblank == (old(self).vblank || enters_vblank(
                old(self).state,
                old(self).dot,
                old(self).ly,
            )),
            final(self).frame_drawn == (old(self).frame_drawn || enters_vblank(
                old(self).state,
                old(self).dot,
                old(self).ly,
            )),
            final(self).lcdc == old(self).lcdc,
            final(self).lyc == old(self).lyc,
            final(self).stat & 0x78 == old(self).stat & 0x78,
            final(self).oam == old(self).oam,
            final(self).vram == old(self).vram,
            final(self).tiles == old(self).tiles,
            old(self).state == State::Mode2 && final(self).state == State::Mode3 ==> line_objects(
                final(self).objects@,
                old(self).oam,
                old(self).ly,
                old(self).lcdc & 0x04 != 0,
            ) && scan_complete(
                final(self).objects@,
                old(self).oam,
                old(self).ly,
                old(self).lcdc & 0x04 != 0,
            ),
            !(old(self).state == State::Mode2 && final(self).state == State::Mode3) ==> final(self).objects == old(self).objects,
            old(self).state == State::Mode3 && !old(self).scanline_drawn ==> {
                &&& forall|sx: int|
                    0 <= sx < WIDTH ==> #[trigger] final(self).video_buffer@[old(self).ly * 160 + sx]
                        == if old(self).lcdc & 0x02 != 0 {
                        match sprites_at(*final(self), old(self).objects@, sx) {
                            Some(c) => c,
                            None => base_color(*old(self), sx),
                        }
                    } else {
                        base_color(*old(self), sx)
                    }
                &&& forall|i: int|
                    0 <= i < VIDEO_BUFFER && !on_line(i, old(self).ly as int) ==> final(self).video_buffer@[i] == old(self).video_buffer@[i]
            },
            !(old(self).state == State::Mode3 && !old(self).scanline_drawn) ==> final(self).video_buffer == old(self).video_buffer && final(self).bg_trace == old(self).bg_trace,
            final(self).state != old(self).state ==> final(self).stat_int == (!old(self).stat_int
                && stat_source(final(self).stat, final(self).state)),
            final(self).state == old(self).state ==> final(self).stat_int == old(self).stat_int,
            final(self).ly != old(self).ly ==> final(self).stat_int_ly == (old(self).lyc
                == final(self).ly && old(self).stat & 0x40 != 0),
            final(self).ly == old(self).ly ==> final(self).stat_int_ly == old(self).stat_int_ly,
            final(self).ly != old(self).ly && final(self).ly != 0 ==> final(self).window_ly == if window_on_line(*old(self)) {
                wrap8(old(self).window_ly + 1)
            } else {
                old(self).window_ly
            },
            final(self).ly != old(self).ly && final(self).ly == 0 ==> final(self).window_ly == 0,
            final(self).ly == old(self).ly ==> final(self).window_ly == old(self).window_ly,
    {
        self.dot = self.dot + 1;
        match self.state {
            State::Mode0 => {
                if self.dot % 456 == 0 {
                    self.scanline_drawn = false;
                    self.increment_ly();
                    if self.ly < 144 {
                        self.switch_state(State::Mode2);
                    } else {
                        self.frame_drawn = true;
                        self.switch_state(State::Mode1);
                        self.vblank = true;
                    }
                } else if self.dot < 50 {
                    self.switch_state(State::Mode2);
                }
            },
            State::Mode1 => {
                if self.dot % 456 == 0 {
                    if self.ly == 153 {
                        self.ly = 0;
                        self.window_ly = 0;
                        self.window_latched = false;
                        self.dot = 0;
                        self.check_lcy_y();
                        self.switch_state(State::Mode2);
                    } else {
                        self.increment_ly();
                    }
                }
            },
            State::Mode2 => {
                if self.dot % 456 >= 80 {
                    self.build_objects_list();
                    self.switch_state(State::Mode3);
                }
            },
            State::Mode3 => {
                if !self.scanline_drawn {
                    self.render();
                    self.scanline_drawn = true;
                }
                if self.dot % 456 >= 80 + 172 {
                    self.switch_state(State::Mode0);
                }
            },
        }
        proof {
            lemma_timing_steps(old(self).state, old(self).dot, old(self).ly);
        }
    }

    fn switch_state(&mut self, state: State)
        ensures
            *final(self) == (Ppu {
                state,
                stat: (old(self).stat & 0xFC) | mode_bits(state),
                stat_int: !old(self).stat_int && stat_source(
                    (old(self).stat & 0xFC) | mode_bits(state),
                    state,
                ),
                ..*old(self)
            }),
            final(self).stat & 0x03 == mode_bits(state),
            final(self).stat & 0x78 == old(self).stat & 0x78,
    {
        self.update_stat(&state);
        self.state = state;
        proof {
            lemma_stat_bits(old(self).stat, mode_bits(state));
        }
    }

    fn increment_ly(&mut self)
        requires
            old(self).ly < 153,
        ensures
            *final(self) == (Ppu {
                ly: (old(self).ly + 1) as u8,
                window_ly: if window_on_line(*old(self)) {
                    wrap8(old(self).window_ly + 1)
                } else {
                    old(self).window_ly
                },
                window_latched: old(self).window_latched || window_on_line(*old(self)),
                stat_int_ly: old(self).lyc == old(self).ly + 1 && old(self).stat & 0x40 != 0,
                stat: final(self).stat,
                ..*old(self)
            }),
            final(self).stat & 0x03 == old(self).stat & 0x03,
            final(self).stat & 0x78 == old(self).stat & 0x78,
    {
        if self.window_visible() {
            self.window_ly = self.window_ly.wrapping_add(1);
            self.window_latched = true;
        }
        self.ly = self.ly + 1;
        self.check_lcy_y();
    }

    /// The window is drawn on this line: it is enabled, its horizontal
    /// position is on screen, and its vertical trigger has been reached in
    /// this frame (once reached, it stays reached until the frame ends).
    pub fn window_visible(&self) -> (r: bool)
        ensures
            r == (self.lcdc & 0x20 != 0 && self.wx < WIDTH + 7 && (self.window_latched || (
            self.wy < HEIGHT && self.wy <= self.ly))),
    {
        self.is_window() && self.wx < WIDTH as u8 + 7 && (self.window_latched || (self.wy
            < HEIGHT as u8 && self.wy <= self.ly))
    }

    fn check_lcy_y(&mut self)
        ensures
            *final(self) == (Ppu {
                stat_int_ly: old(self).lyc == old(self).ly && old(self).stat & 0x40 != 0,
                stat: if old(self).lyc == old(self).ly {
                    old(self).stat | 0x04
                } else {
                    old(self).stat & !0x04u8
                },
                ..*old(self)
            }),
            final(self).stat & 0x03 == old(self).stat & 0x03,
            final(self).stat & 0x78 == old(self).stat & 0x78,
    {
        proof {
            lemma_stat_bits(old(self).stat, 0);
        }
        self.stat_int_ly = self.lyc == self.ly && (self.stat & 0b_0100_0000) != 0;
        if self.lyc == self.ly {
            self.stat = self.stat | 0b100;
        } else {
            self.stat = self.stat & !0b100u8;
        }
    }
}

/// The two mode bits of the status register under the updates made to it.
pub proof fn lemma_stat_bits(s: u8, m: u8)
    by (bit_vector)
    requires
        m < 4,
    ensures
        ((s & 0xFC) | m) & 0x03 == m,
        (s & 0xFC) & 0x03 == 0,
        ((s & 0xFC) | m) & 0x78 == s & 0x78,
        (s | 0x04) & 0x78 == s & 0x78,
        (s & !0x04u8) & 0x78 == s & 0x78,
        (s | 0x04) & 0x03 == s & 0x03,
        (s & !0x04u8) & 0x03 == s & 0x03,
        forall|v: u8| #[trigger] ((v & 0xF8) | (s & 0x07)) & 0x03 == s & 0x03,
        (0x02u8 & 0x03) == 0x02,
{
}

/// Two status bytes that agree on bits 3-6 enable the same sources.
pub proof fn lemma_stat_sources(a: u8, b: u8)
    by (bit_vector)
    requires
        a & 0x78 == b & 0x78,
    ensures
        (a & 0x20 != 0) == (b & 0x20 != 0),
        (a & 0x10 != 0) == (b & 0x10 != 0),
        (a & 0x08 != 0) == (b & 0x08 != 0),
        (a & 0x40 != 0) == (b & 0x40 != 0),
{
}

/// The mode-entry status signal after `k` dots from `t`, starting at `s0`,
/// with the sources enabled in `stat`: each mode change sets it to whether
/// the new mode is an enabled source, unless it was already up.
pub open spec fn stat_int_after(t: (State, u32, u8), k: nat, s0: bool, stat: u8) -> bool
    decreases k,
{
    if k == 0 {
        s0
    } else {
        let prev = stat_int_after(t, (k - 1) as nat, s0, stat);
        let p = timing_after(t, (k - 1) as nat);
        let n = timing_after(t, k);
        if n.0 != p.0 {
            !prev && stat_source(stat, n.0)
        } else {
            prev
        }
    }
}

/// The line-compare signal after `k` dots from `t`, starting at `s0`: each
/// change of line sets it to whether the new line matches `lyc` with that
/// source enabled in `stat`.
pub open spec fn stat_ly_after(t: (State, u32, u8), k: nat, s0: bool, lyc: u8, stat: u8) -> bool
    decreases k,
{
    if k == 0 {
        s0
    } else {
        let prev = stat_ly_after(t, (k - 1) as nat, s0, lyc, stat);
        let p = timing_after(t, (k - 1) as nat);
        let n = timing_after(t, k);
        if n.2 != p.2 {
            lyc == n.2 && stat & 0x40 != 0
        } else {
            prev
        }
    }
}

/// Every dot keeps the counters where `timing_ok` puts them.
pub proof fn lemma_timing_steps(state: State, dot: u32, ly: u8)
    requires
        timing_ok(state, dot, ly),
    ensures
        ({
            let n = next_timing(state, dot, ly);
            timing_ok(n.0, n.1, n.2)
        }),
{
    let start = 456 * ly as int;
    let d = dot + 1;
    assert(d % 456 == d - start || d == start + 456) by {
        lemma_line_offset(ly as int, d as int);
    }
}

proof fn lemma_line_offset(ly: int, d: int)
    requires
        0 <= ly,
        456 * ly < d <= 456 * ly + 456,
    ensures
        d < 456 * ly + 456 ==> d % 456 == d - 456 * ly,
        d == 456 * ly + 456 ==> d % 456 == 0,
{
    if d < 456 * ly + 456 {
        vstd::arithmetic::div_mod::lemma_fundamental_div_mod_converse(d, 456, ly, d - 456 * ly);
    } else {
        vstd::arithmetic::div_mod::lemma_fundamental_div_mod_converse(d, 456, ly + 1, 0);
    }
}

/// Scanline timing: from the start of a visible line in OAM scan, the mode
/// reads pixel transfer 80 dots later, horizontal blank 252 dots later, and
/// after 456 dots the line counter has gone up by one and the next line
/// starts, in OAM scan when it is visible and in vertical blank after the
/// last visible line.
pub proof fn lemma_scanline_timing(ly: u8)
    requires
        ly < 144,
    ensures
        ({
            let t = (State::Mode2, (456 * ly as int) as u32, ly);
            &&& forall|k: nat| k < 80 ==> #[trigger] timing_after(t, k) == (
                State::Mode2,
                (456 * ly as int + k) as u32,
                ly,
            )
            &&& forall|k: nat|
                80 <= k < 252 ==> #[trigger] timing_after(t, k) == (
                    State::Mode3,
                    (456 * ly as int + k) as u32,
                    ly,
                )
            &&& forall|k: nat|
                252 <= k < 456 ==> #[trigger] timing_after(t, k) == (
                    State::Mode0,
                    (456 * ly as int + k) as u32,
                    ly,
                )
            &&& timing_after(t, 456) == (
                if ly + 1 < 144 {
                    State::Mode2
                } else {
                    State::Mode1
                },
                (456 * (ly as int + 1)) as u32,
                (ly + 1) as u8,
            )
        }),
{
    let t = (State::Mode2, (456 * ly as int) as u32, ly);
    lemma_timing_prefix(ly, 455);
    let p = timing_after(t, 455);
    lemma_line_offset(ly as int, 456 * ly as int + 456);
    assert(timing_after(t, 456) == next_timing(p.0, p.1, p.2));
}

proof fn lemma_timing_prefix(ly: u8, n: nat)
    requires
        ly < 144,
        n < 456,
    ensures
        ({
            let t = (State::Mode2, (456 * ly as int) as u32, ly);
            forall|k: nat|
                k <= n ==> #[trigger] timing_after(t, k) == (
                    if k < 80 {
                        State::Mode2
                    } else if k < 252 {
                        State::Mode3
                    } else {
                        State::Mode0
                    },
                    (456 * ly as int + k) as u32,
                    ly,
                )
        }),
    decreases n,
{
    let t = (State::Mode2, (456 * ly as int) as u32, ly);
    if n > 0 {
        lemma_timing_prefix(ly, (n - 1) as nat);
        let p = timing_after(t, (n - 1) as nat);
        lemma_line_offset(ly as int, 456 * ly as int + n);
        assert(timing_after(t, n) == next_timing(p.0, p.1, p.2));
    }
}

/// The vertical-blank signal is raised on exactly the dots that move the
/// pipeline from horizontal blank into vertical blank.
pub proof fn lemma_vblank_on_entry_only(state: State, dot: u32, ly: u8)
    requires
        timing_ok(state, dot, ly),
    ensures
        enters_vblank(state, dot, ly) <==> (state == State::Mode0 && next_timing(state, dot, ly).0
            == State::Mode1),
{
    lemma_line_offset(ly as int, dot + 1);
}

/// Dots add up: `a + b` dots from `t` are `b` dots from where `a` dots led.
pub proof fn lemma_timing_split(t: (State, u32, u8), a: nat, b: nat)
    ensures
        timing_after(t, a + b) == timing_after(timing_after(t, a), b),
    decreases b,
{
    if b > 0 {
        lemma_timing_split(t, a, (b - 1) as nat);
        assert(timing_after(t, a + b) == {
            let p = timing_after(t, (a + b - 1) as nat);
            next_timing(p.0, p.1, p.2)
        });
        assert((a + b - 1) as nat == a + (b - 1) as nat);
    }
}

proof fn lemma_vblank_prefix(ly: u8, n: nat)
    requires
        144 <= ly <= 153,
        n < 456,
    ensures
        ({
            let t = (State::Mode1, (456 * ly as int) as u32, ly);
            forall|k: nat|
                k <= n ==> #[trigger] timing_after(t, k) == (
                    State::Mode1,
                    (456 * ly as int + k) as u32,
                    ly,
                )
        }),
    decreases n,
{
    let t = (State::Mode1, (456 * ly as int) as u32, ly);
    if n > 0 {
        lemma_vblank_prefix(ly, (n - 1) as nat);
        let p = timing_after(t, (n - 1) as nat);
        lemma_line_offset(ly as int, 456 * ly as int + n);
        assert(timing_after(t, n) == next_timing(p.0, p.1, p.2));
    }
}

/// The state at the start of line `ly` of a frame.
pub open spec fn line_start(ly: u8) -> (State, u32, u8) {
    (if ly < 144 { State::Mode2 } else { State::Mode1 }, (456 * ly as int) as u32, ly)
}

/// One full line of 456 dots takes the pipeline from the start of line `ly`
/// to the start of the next line, and from the end of line 153 back to the
/// start of line 0.
pub proof fn lemma_line_step(ly: u8)
    requires
        ly <= 153,
    ensures
        timing_after(line_start(ly), 456) == if ly == 153 {
            line_start(0)
        } else {
            line_start((ly + 1) as u8)
        },
{
    if ly < 144 {
        lemma_scanline_timing(ly);
    } else {
        let t = line_start(ly);
        lemma_vblank_prefix(ly, 455);
        let p = timing_after(t, 455);
        lemma_line_offset(ly as int, 456 * ly as int + 456);
        assert(timing_after(t, 456) == next_timing(p.0, p.1, p.2));
    }
}

/// The line counter goes up by exactly one every 456 dots and stays within
/// 0..=153: after `d` dots from the start of line `ly`, within the frame,
/// the line is `ly + d / 456`.
pub proof fn lemma_line_counter(ly: u8, d: nat)
    requires
        ly <= 153,
        ly as int * 456 + d < 154 * 456,
    ensures
        timing_after(line_start(ly), d).2 == ly + d / 456,
        timing_after(line_start(ly), d).2 <= 153,
    decreases d,
{
    if d < 456 {
        if ly < 144 {
            lemma_scanline_timing(ly);
            if d > 0 {
                lemma_timing_prefix(ly, d);
            }
        } else {
            lemma_vblank_prefix(ly, d);
        }
    } else {
        lemma_line_step(ly);
        lemma_timing_split(line_start(ly), 456, (d - 456) as nat);
        assert(456 + (d - 456) as nat == d);
        lemma_line_counter((ly + 1) as u8, (d - 456) as nat);
        assert(d / 456 == 1 + (d - 456) as nat / 456) by (nonlinear_arith)
            requires
                d >= 456,
        ;
    }
}

/// Mode, dot and line at dot `d` of a frame.
pub open spec fn frame_timing(d: int) -> (State, u32, u8) {
    let l = d / 456;
    let k = d % 456;
    (
        if l >= 144 {
            State::Mode1
        } else if k < 80 {
            State::Mode2
        } else if k < 252 {
            State::Mode3
        } else {
            State::Mode0
        },
        d as u32,
        l as u8,
    )
}

proof fn lemma_lines_from_zero(l: u8)
    requires
        l <= 153,
    ensures
        timing_after(line_start(0), 456 * l as nat) == line_start(l),
    decreases l,
{
    if l > 0 {
        lemma_lines_from_zero((l - 1) as u8);
        lemma_line_step((l - 1) as u8);
        lemma_timing_split(line_start(0), 456 * (l - 1) as nat, 456);
        assert(456 * (l - 1) as nat + 456 == 456 * l as nat);
    }
}

/// From the start of a frame, every dot of the 154 lines is where
/// `frame_timing` puts it.
pub proof fn lemma_frame_timing(d: nat)
    requires
        d < 154 * 456,
    ensures
        timing_after(line_start(0), d) == frame_timing(d as int),
{
    let l = (d / 456) as u8;
    let k = d % 456;
    assert(d == 456 * l as nat + k && l <= 153) by (nonlinear_arith)
        requires
            d < 154 * 456,
            l == d / 456,
            k == d % 456,
    ;
    lemma_lines_from_zero(l);
    lemma_timing_split(line_start(0), 456 * l as nat, k);
    if l < 144 {
        lemma_scanline_timing(l);
        if k > 0 {
            lemma_timing_prefix(l, k);
        }
    } else {
        lemma_vblank_prefix(l, k);
    }
}

/// Within a frame, the vertical-blank signal is raised on exactly one dot:
/// the last dot of line 143.
pub proof fn lemma_vblank_once_per_frame(d: nat)
    requires
        d < 154 * 456,
    ensures
        ({
            let t = timing_after(line_start(0), d);
            enters_vblank(t.0, t.1, t.2) <==> d == 144 * 456 - 1
        }),
{
    lemma_frame_timing(d);
    let l = d / 456;
    let k = d % 456;
    assert(d == 456 * l + k && 0 <= k < 456) by (nonlinear_arith)
        requires
            l == d / 456,
            k == d % 456,
    ;
    if d == 144 * 456 - 1 {
        assert(l == 143 && k == 455);
    }
    if k == 455 {
        assert((d + 1) % 456 == 0) by (nonlinear_arith)
            requires
                d == 456 * l + 455,
        ;
    } else {
        assert((d + 1) % 456 != 0) by (nonlinear_arith)
            requires
                d == 456 * l + k,
                0 <= k < 455,
        ;
    }
}

} // verus!
