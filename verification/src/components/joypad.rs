use crate::hw::interrupt::Interrupts;
use crate::memory::Memory;
use vstd::prelude::*;

verus! {

/// A set of buttons, one bit each: A, B, Select, Start (bits 0-3) and Right,
/// Left, Up, Down (bits 4-7).
#[derive(Clone, Copy, PartialEq, Eq, Structural, Debug)]
pub struct JoypadButton {
    pub bits: u8,
}

impl JoypadButton {
    pub fn a() -> (r: JoypadButton)
        ensures
            r.bits == 0b0000_0001,
    {
        JoypadButton { bits: 0b0000_0001 }
    }

    pub fn b() -> (r: JoypadButton)
        ensures
            r.bits == 0b0000_0010,
    {
        JoypadButton { bits: 0b0000_0010 }
    }

    pub fn select() -> (r: JoypadButton)
        ensures
            r.bits == 0b0000_0100,
    {
        JoypadButton { bits: 0b0000_0100 }
    }

    pub fn start() -> (r: JoypadButton)
        ensures
            r.bits == 0b0000_1000,
    {
        JoypadButton { bits: 0b0000_1000 }
    }

    pub fn right() -> (r: JoypadButton)
        ensures
            r.bits == 0b0001_0000,
    {
        JoypadButton { bits: 0b0001_0000 }
    }

    pub fn left() -> (r: JoypadButton)
        ensures
            r.bits == 0b0010_0000,
    {
        JoypadButton { bits: 0b0010_0000 }
    }

    pub fn up() -> (r: JoypadButton)
        ensures
            r.bits == 0b0100_0000,
    {
        JoypadButton { bits: 0b0100_0000 }
    }

    pub fn down() -> (r: JoypadButton)
        ensures
            r.bits == 0b1000_0000,
    {
        JoypadButton { bits: 0b1000_0000 }
    }

    pub fn bits(&self) -> (r: u8)
        ensures
            r == self.bits,
    {
        self.bits
    }
}

/// The P1 register: a button matrix (a clear bit is a held button) read
/// through the two select lines.
pub struct Joypad {
    matrix: u8,
    select: u8,
    previous_select: u8,
    pub interrupts: Interrupts,
}

pub struct JoypadView {
    pub matrix: u8,
    pub select: u8,
    pub previous_select: u8,
    pub interrupts: u8,
}

impl View for Joypad {
    type V = JoypadView;

    closed spec fn view(&self) -> JoypadView {
        JoypadView {
            matrix: self.matrix,
            select: self.select,
            previous_select: self.previous_select,
            interrupts: self.interrupts.bits,
        }
    }
}

/// What P1 reads: the select bits, with the d-pad (P14 low) or the buttons
/// (P15 low) in the low nibble; with neither line selected no input line is
/// low and the low nibble reads 0xF.
pub open spec fn p1_value(m: JoypadView) -> u8 {
    if m.select & 0b0001_0000 == 0 {
        m.select | (m.matrix >> 4u8)
    } else if m.select & 0b0010_0000 == 0 {
        m.select | (m.matrix & 0x0F)
    } else {
        m.select | 0x0F
    }
}

/// After any change: the joypad interrupt is requested when the low nibble
/// of P1 leaves 0x0F (a selected button line goes low).
pub open spec fn joypad_updated(m: JoypadView) -> JoypadView {
    let new_select = p1_value(m) & 0x0F;
    JoypadView {
        previous_select: new_select,
        interrupts: if m.previous_select == 0x0F && new_select != 0x0F {
            m.interrupts | 0x10
        } else {
            m.interrupts
        },
        ..m
    }
}

impl Joypad {
    pub fn new() -> (r: Self)
        ensures
            r@ == (JoypadView { matrix: 0xFF, select: 0x0F, previous_select: 0x0F, interrupts: 0 }),
    {
        Self { matrix: 0xFF, select: 0x0F, previous_select: 0x0F, interrupts: Interrupts::empty() }
    }

    /// Presses `button`.
    pub fn down(&mut self, button: JoypadButton)
        ensures
            final(self)@ == joypad_updated(
                JoypadView { matrix: old(self)@.matrix & !button.bits, ..old(self)@ },
            ),
    {
        self.matrix &= !button.bits();
        self.update_joypad();
    }

    /// Drains the interrupt requests raised since the last call.
    pub fn take_interrupts(&mut self) -> (r: u8)
        ensures
            r == old(self)@.interrupts,
            final(self)@ == (JoypadView { interrupts: 0, ..old(self)@ }),
    {
        let r = self.interrupts.bits();
        self.interrupts = Interrupts::empty();
        r
    }

    /// Releases `button`.
    pub fn up(&mut self, button: JoypadButton)
        ensures
            final(self)@ == (JoypadView { matrix: old(self)@.matrix | button.bits, ..old(self)@ }),
    {
        self.matrix |= button.bits();
    }

    pub fn update_joypad(&mut self)
        ensures
            final(self)@ == joypad_updated(old(self)@),
    {
        let new_select = self.read(0xFF00) & 0x0F;

        if self.previous_select == 0x0F && new_select != 0x0F {
            self.interrupts = self.interrupts.union(Interrupts::joypad());
        }

        self.previous_select = new_select;
    }
}

impl Memory for Joypad {
    open spec fn readable(m: JoypadView, a: u16) -> bool {
        a == 0xFF00
    }

    open spec fn writable(m: JoypadView, a: u16, v: u8) -> bool {
        a == 0xFF00
    }

    open spec fn peek(m: JoypadView, a: u16) -> u8 {
        p1_value(m)
    }

    open spec fn poke(m: JoypadView, a: u16, v: u8) -> JoypadView {
        joypad_updated(JoypadView { select: v & 0x30, ..m })
    }

    fn read(&self, a: u16) -> (r: u8) {
        // D-Pad
        if (self.select & 0b0001_0000) == 0x00 {
            return self.select | (self.matrix >> 4u8);
        }
        // Buttons
        if (self.select & 0b0010_0000) == 0x00 {
            return self.select | (self.matrix & 0x0F);
        }
        // Neither line selected: no input line is pulled low.
        self.select | 0x0F
    }

    fn write(&mut self, a: u16, v: u8) {
        self.select = v & 0x30;
        self.update_joypad();
    }
}

/// Reading the buttons through P1: after P1 is written with `v`, its low
/// bit `i` (0-3) reads 0 exactly when the button on that line is held: with
/// P14 low (bit 4 of `v` clear) the d-pad (Right, Left, Up, Down: matrix
/// bits 4-7), else with P15 low the action buttons (A, B, Select, Start:
/// matrix bits 0-3), and with neither line low no button. The select bits
/// read back as written.
pub proof fn lemma_p1_reads_held_buttons(m: JoypadView, v: u8, i: u8)
    requires
        i < 4,
    ensures
        ({
            let r = Joypad::peek(Joypad::poke(m, 0xFF00, v), 0xFF00);
            let pressed_dpad = (m.matrix >> (i + 4)) & 1 == 0;
            let pressed_action = (m.matrix >> i) & 1 == 0;
            &&& r & 0x30 == v & 0x30
            &&& v & 0x10 == 0 ==> (((r >> i) & 1 == 0) <==> pressed_dpad)
            &&& v & 0x10 != 0 && v & 0x20 == 0 ==> (((r >> i) & 1 == 0) <==> pressed_action)
            &&& v & 0x30 == 0x30 ==> (r >> i) & 1 == 1
        }),
{
    let mat = m.matrix;
    let sel = v & 0x30;
    let r = Joypad::peek(Joypad::poke(m, 0xFF00, v), 0xFF00);
    assert(r == (if sel & 0x10 == 0 {
        sel | (mat >> 4u8)
    } else if sel & 0x20 == 0 {
        sel | (mat & 0x0F)
    } else {
        sel | 0x0F
    }));
    assert({
        let r2 = if sel & 0x10 == 0 {
            sel | (mat >> 4u8)
        } else if sel & 0x20 == 0 {
            sel | (mat & 0x0F)
        } else {
            sel | 0x0F
        };
        &&& r2 & 0x30 == v & 0x30
        &&& v & 0x10 == 0 ==> (((r2 >> i) & 1 == 0) <==> (mat >> (i + 4)) & 1 == 0)
        &&& v & 0x10 != 0 && v & 0x20 == 0 ==> (((r2 >> i) & 1 == 0) <==> (mat >> i) & 1 == 0)
        &&& v & 0x30 == 0x30 ==> (r2 >> i) & 1 == 1
    }) by (bit_vector)
        requires
            sel == v & 0x30,
            i < 4,
    ;
}

} // verus!
