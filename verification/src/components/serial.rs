use crate::components::mode::GBMode;
use crate::hw::interrupt::Interrupts;
use crate::memory::Memory;
use vstd::prelude::*;

verus! {

/// The serial port: SB (0xFF01) holds the byte to send and SC (0xFF02) the
/// control bits. Starting a transfer (writing SC with bit 7 set) sends SB;
/// each byte sent is kept in order, for the host to show when `print` is set.
pub struct Serial {
    pub interrupts: Interrupts,
    sb: u8,
    sc: u8,
    output: Vec<u8>,
    print: bool,
    mode: GBMode,
}

pub struct SerialView {
    pub interrupts: u8,
    pub sb: u8,
    pub sc: u8,
    pub output: Seq<u8>,
    pub print: bool,
    pub mode: GBMode,
}

impl View for Serial {
    type V = SerialView;

    closed spec fn view(&self) -> SerialView {
        SerialView { interrupts: self.interrupts.bits, sb: self.sb, sc: self.sc, output: self.output@, print: self.print, mode: self.mode }
    }
}

impl Serial {
    pub fn new(print: bool, mode: GBMode) -> (r: Self)
        ensures
            r@ == (SerialView { interrupts: 0, sb: 0, sc: 0, output: Seq::empty(), print, mode }),
    {
        Self { interrupts: Interrupts::empty(), sb: 0, sc: 0, output: Vec::new(), print, mode }
    }

    /// Bytes transmitted so far (captured when a transfer is started).
    pub fn output(&self) -> (r: &[u8])
        ensures
            r@ == self@.output,
    {
        self.output.as_slice()
    }

    /// Drains the interrupt requests raised since the last call.
    pub fn take_interrupts(&mut self) -> (r: u8)
        ensures
            r == old(self)@.interrupts,
            final(self)@ == (SerialView { interrupts: 0, ..old(self)@ }),
    {
        let r = self.interrupts.bits();
        self.interrupts = Interrupts::empty();
        r
    }

    /// Whether the host is to echo the transmitted bytes.
    pub fn print(&self) -> (r: bool)
        ensures
            r == self@.print,
    {
        self.print
    }
}

impl Memory for Serial {
    open spec fn readable(m: SerialView, a: u16) -> bool {
        a == 0xFF01 || a == 0xFF02
    }

    open spec fn writable(m: SerialView, a: u16, v: u8) -> bool {
        a == 0xFF01 || a == 0xFF02
    }

    /// SC reads its unused bits as 1: bits 1-6 on DMG, bits 2-6 on CGB.
    open spec fn peek(m: SerialView, a: u16) -> u8 {
        if a == 0xFF01 {
            m.sb
        } else if m.mode == GBMode::DMG {
            0x7E | m.sc
        } else {
            0x7C | m.sc
        }
    }

    open spec fn poke(m: SerialView, a: u16, v: u8) -> SerialView {
        if a == 0xFF01 {
            SerialView { sb: v, ..m }
        } else if v & 0x80 != 0 {
            SerialView { sc: v, output: m.output.push(m.sb), ..m }
        } else {
            SerialView { sc: v, ..m }
        }
    }

    fn read(&self, a: u16) -> (r: u8) {
        if a == 0xFF01 {
            self.sb
        } else {
            let mask = if self.mode == GBMode::DMG { 0x7E } else { 0x7C };
            mask | self.sc
        }
    }

    fn write(&mut self, a: u16, v: u8) {
        if a == 0xFF01 {
            self.sb = v;
        } else {
            self.sc = v;
            // Bit 7 starts a transfer; the byte staged in SB is what is sent.
            if v & 0x80 != 0 {
                self.output.push(self.sb);
            }
        }
    }
}

} // verus!
