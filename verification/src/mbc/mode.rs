use vstd::prelude::*;

verus! {

/// The cartridge type byte (0x0147) of the header.
#[derive(Clone, Copy, PartialEq, Eq, Structural, Debug)]
pub enum CartTypes {
    RomOnly,
    MBC1,
    MBC1Ram,
    MBC1RamBat,
    MBC2,
    MBC2Bat,
    RomRam,
    RomRamBat,
    MMM01,
    MMM01Ram,
    MMM01RamBat,
    MBC3TimerBat,
    MBC3TimerRamBat,
    MBC3,
    MBC3Ram,
    MBC3RamBat,
    MBC5,
    MBC5Ram,
    MBC5RamBat,
    MBC5Rumble,
    MBC5RumbleRam,
    MBC5RumbleRamBat,
    MBC6,
    MBC7SensorRumbleRamBat,
    PocketCamera,
    BandaiTAMA5,
    HuC3,
    HuC1RamBat,
}

/// The cartridge type a header byte names, if any.
pub open spec fn cart_type_of(v: u8) -> Option<CartTypes> {
    if v == 0x00 {
        Some(CartTypes::RomOnly)
    } else if v == 0x01 {
        Some(CartTypes::MBC1)
    } else if v == 0x02 {
        Some(CartTypes::MBC1Ram)
    } else if v == 0x03 {
        Some(CartTypes::MBC1RamBat)
    } else if v == 0x05 {
        Some(CartTypes::MBC2)
    } else if v == 0x06 {
        Some(CartTypes::MBC2Bat)
    } else if v == 0x08 {
        Some(CartTypes::RomRam)
    } else if v == 0x09 {
        Some(CartTypes::RomRamBat)
    } else if v == 0x0B {
        Some(CartTypes::MMM01)
    } else if v == 0x0C {
        Some(CartTypes::MMM01Ram)
    } else if v == 0x0D {
        Some(CartTypes::MMM01RamBat)
    } else if v == 0x0F {
        Some(CartTypes::MBC3TimerBat)
    } else if v == 0x10 {
        Some(CartTypes::MBC3TimerRamBat)
    } else if v == 0x11 {
        Some(CartTypes::MBC3)
    } else if v == 0x12 {
        Some(CartTypes::MBC3Ram)
    } else if v == 0x13 {
        Some(CartTypes::MBC3RamBat)
    } else if v == 0x19 {
        Some(CartTypes::MBC5)
    } else if v == 0x1A {
        Some(CartTypes::MBC5Ram)
    } else if v == 0x1B {
        Some(CartTypes::MBC5RamBat)
    } else if v == 0x1C {
        Some(CartTypes::MBC5Rumble)
    } else if v == 0x1D {
        Some(CartTypes::MBC5RumbleRam)
    } else if v == 0x1E {
        Some(CartTypes::MBC5RumbleRamBat)
    } else if v == 0x20 {
        Some(CartTypes::MBC6)
    } else if v == 0x22 {
        Some(CartTypes::MBC7SensorRumbleRamBat)
    } else if v == 0xFC {
        Some(CartTypes::PocketCamera)
    } else if v == 0xFD {
        Some(CartTypes::BandaiTAMA5)
    } else if v == 0xFE {
        Some(CartTypes::HuC3)
    } else if v == 0xFF {
        Some(CartTypes::HuC1RamBat)
    } else {
        None
    }
}

/// The memory bank controller a cartridge type uses.
pub open spec fn mbc_of(t: CartTypes) -> MBCMode {
    match t {
        CartTypes::RomOnly => MBCMode::RomOnly,
        CartTypes::MBC1 => MBCMode::MBC1,
        CartTypes::MBC1Ram => MBCMode::MBC1,
        CartTypes::MBC1RamBat => MBCMode::MBC1,
        CartTypes::MBC2 => MBCMode::MBC2,
        CartTypes::MBC2Bat => MBCMode::MBC2,
        CartTypes::RomRam => MBCMode::RomOnly,
        CartTypes::RomRamBat => MBCMode::RomOnly,
        CartTypes::MMM01 => MBCMode::RomOnly,
        CartTypes::MMM01Ram => MBCMode::RomOnly,
        CartTypes::MMM01RamBat => MBCMode::RomOnly,
        CartTypes::MBC3TimerBat => MBCMode::MBC3,
        CartTypes::MBC3TimerRamBat => MBCMode::MBC3,
        CartTypes::MBC3 => MBCMode::MBC3,
        CartTypes::MBC3Ram => MBCMode::MBC3,
        CartTypes::MBC3RamBat => MBCMode::MBC3,
        CartTypes::MBC5 => MBCMode::MBC5,
        CartTypes::MBC5Ram => MBCMode::MBC5,
        CartTypes::MBC5RamBat => MBCMode::MBC5,
        CartTypes::MBC5Rumble => MBCMode::MBC5,
        CartTypes::MBC5RumbleRam => MBCMode::MBC5,
        CartTypes::MBC5RumbleRamBat => MBCMode::MBC5,
        CartTypes::MBC6 => MBCMode::Unsupported,
        CartTypes::MBC7SensorRumbleRamBat => MBCMode::Unsupported,
        CartTypes::PocketCamera => MBCMode::Unsupported,
        CartTypes::BandaiTAMA5 => MBCMode::Unsupported,
        CartTypes::HuC3 => MBCMode::Unsupported,
        CartTypes::HuC1RamBat => MBCMode::Unsupported,
    }
}

impl CartTypes {
    /// The cartridge type of a header byte; `None` for bytes no type has.
    pub fn from_u8(v: u8) -> (r: Option<CartTypes>)
        ensures
            r == cart_type_of(v),
    {
        match v {
            0x00 => Some(CartTypes::RomOnly),
            0x01 => Some(CartTypes::MBC1),
            0x02 => Some(CartTypes::MBC1Ram),
            0x03 => Some(CartTypes::MBC1RamBat),
            0x05 => Some(CartTypes::MBC2),
            0x06 => Some(CartTypes::MBC2Bat),
            0x08 => Some(CartTypes::RomRam),
            0x09 => Some(CartTypes::RomRamBat),
            0x0B => Some(CartTypes::MMM01),
            0x0C => Some(CartTypes::MMM01Ram),
            0x0D => Some(CartTypes::MMM01RamBat),
            0x0F => Some(CartTypes::MBC3TimerBat),
            0x10 => Some(CartTypes::MBC3TimerRamBat),
            0x11 => Some(CartTypes::MBC3),
            0x12 => Some(CartTypes::MBC3Ram),
            0x13 => Some(CartTypes::MBC3RamBat),
            0x19 => Some(CartTypes::MBC5),
            0x1A => Some(CartTypes::MBC5Ram),
            0x1B => Some(CartTypes::MBC5RamBat),
            0x1C => Some(CartTypes::MBC5Rumble),
            0x1D => Some(CartTypes::MBC5RumbleRam),
            0x1E => Some(CartTypes::MBC5RumbleRamBat),
            0x20 => Some(CartTypes::MBC6),
            0x22 => Some(CartTypes::MBC7SensorRumbleRamBat),
            0xFC => Some(CartTypes::PocketCamera),
            0xFD => Some(CartTypes::BandaiTAMA5),
            0xFE => Some(CartTypes::HuC3),
            0xFF => Some(CartTypes::HuC1RamBat),
            _ => None,
        }
    }

    pub fn get_mbc(&self) -> (r: MBCMode)
        ensures
            r == mbc_of(*self),
    {
        match self {
            CartTypes::RomOnly => MBCMode::RomOnly,
            CartTypes::MBC1 => MBCMode::MBC1,
            CartTypes::MBC1Ram => MBCMode::MBC1,
            CartTypes::MBC1RamBat => MBCMode::MBC1,
            CartTypes::MBC2 => MBCMode::MBC2,
            CartTypes::MBC2Bat => MBCMode::MBC2,
            CartTypes::RomRam => MBCMode::RomOnly,
            CartTypes::RomRamBat => MBCMode::RomOnly,
            CartTypes::MMM01 => MBCMode::RomOnly,
            CartTypes::MMM01Ram => MBCMode::RomOnly,
            CartTypes::MMM01RamBat => MBCMode::RomOnly,
            CartTypes::MBC3TimerBat => MBCMode::MBC3,
            CartTypes::MBC3TimerRamBat => MBCMode::MBC3,
            CartTypes::MBC3 => MBCMode::MBC3,
            CartTypes::MBC3Ram => MBCMode::MBC3,
            CartTypes::MBC3RamBat => MBCMode::MBC3,
            CartTypes::MBC5 => MBCMode::MBC5,
            CartTypes::MBC5Ram => MBCMode::MBC5,
            CartTypes::MBC5RamBat => MBCMode::MBC5,
            CartTypes::MBC5Rumble => MBCMode::MBC5,
            CartTypes::MBC5RumbleRam => MBCMode::MBC5,
            CartTypes::MBC5RumbleRamBat => MBCMode::MBC5,
            CartTypes::MBC6 => MBCMode::Unsupported,
            CartTypes::MBC7SensorRumbleRamBat => MBCMode::Unsupported,
            CartTypes::PocketCamera => MBCMode::Unsupported,
            CartTypes::BandaiTAMA5 => MBCMode::Unsupported,
            CartTypes::HuC3 => MBCMode::Unsupported,
            CartTypes::HuC1RamBat => MBCMode::Unsupported,
        }
    }

    /// The type's name as the header display shows it.
    pub fn name(&self) -> (r: &'static str)
        ensures
            r@ == cart_type_name(*self)@,
    {
        match self {
            CartTypes::RomOnly => "ROM ONLY",
            CartTypes::MBC1 => "MBC1",
            CartTypes::MBC1Ram => "MBC1+RAM",
            CartTypes::MBC1RamBat => "MBC1+RAM+BATTERY",
            CartTypes::MBC2 => "MBC2",
            CartTypes::MBC2Bat => "MBC2+BATTERY",
            CartTypes::RomRam => "ROM+RAM",
            CartTypes::RomRamBat => "ROM+RAM+BATTERY",
            CartTypes::MMM01 => "MMM01",
            CartTypes::MMM01Ram => "MMM01+RAM",
            CartTypes::MMM01RamBat => "MMM01+RAM+BATTERY",
            CartTypes::MBC3TimerBat => "MBC3+TIMER+BATTERY",
            CartTypes::MBC3TimerRamBat => "MBC3+TIMER+RAM+BATTERY",
            CartTypes::MBC3 => "MBC3",
            CartTypes::MBC3Ram => "MBC3+RAM",
            CartTypes::MBC3RamBat => "MBC3+RAM+BATTERY",
            CartTypes::MBC5 => "MBC5",
            CartTypes::MBC5Ram => "MBC5+RAM",
            CartTypes::MBC5RamBat => "MBC5+RAM+BATTERY",
            CartTypes::MBC5Rumble => "MBC5+RUMBLE",
            CartTypes::MBC5RumbleRam => "MBC5+RUMBLE+RAM",
            CartTypes::MBC5RumbleRamBat => "MBC5+RUMBLE+RAM+BATTERY",
            CartTypes::MBC6 => "MBC6",
            CartTypes::MBC7SensorRumbleRamBat => "MBC7+SENSOR+RUMBLE+RAM+BATTERY",
            CartTypes::PocketCamera => "POCKET CAMERA",
            CartTypes::BandaiTAMA5 => "BANDAI TAMA5",
            CartTypes::HuC3 => "HuC3",
            CartTypes::HuC1RamBat => "HuC1+RAM+BATTERY",
        }
    }
}

/// The memory bank controllers the emulator implements, and the rest.
#[derive(Clone, Copy, PartialEq, Eq, Structural, Debug)]
pub enum MBCMode {
    RomOnly,
    MBC1,
    MBC2,
    MBC3,
    MBC5,
    Unsupported,
}

impl MBCMode {
    pub fn name(&self) -> (r: &'static str)
        ensures
            r@ == mbc_mode_name(*self)@,
    {
        match self {
            MBCMode::RomOnly => "ROM Only",
            MBCMode::MBC1 => "MBC1",
            MBCMode::MBC2 => "MBC2",
            MBCMode::MBC3 => "MBC3",
            MBCMode::MBC5 => "MBC5",
            MBCMode::Unsupported => "Unsupported",
        }
    }
}

/// A cartridge type's name.
pub open spec fn cart_type_name(t: CartTypes) -> &'static str {
    match t {
        CartTypes::RomOnly => "ROM ONLY",
        CartTypes::MBC1 => "MBC1",
        CartTypes::MBC1Ram => "MBC1+RAM",
        CartTypes::MBC1RamBat => "MBC1+RAM+BATTERY",
        CartTypes::MBC2 => "MBC2",
        CartTypes::MBC2Bat => "MBC2+BATTERY",
        CartTypes::RomRam => "ROM+RAM",
        CartTypes::RomRamBat => "ROM+RAM+BATTERY",
        CartTypes::MMM01 => "MMM01",
        CartTypes::MMM01Ram => "MMM01+RAM",
        CartTypes::MMM01RamBat => "MMM01+RAM+BATTERY",
        CartTypes::MBC3TimerBat => "MBC3+TIMER+BATTERY",
        CartTypes::MBC3TimerRamBat => "MBC3+TIMER+RAM+BATTERY",
        CartTypes::MBC3 => "MBC3",
        CartTypes::MBC3Ram => "MBC3+RAM",
        CartTypes::MBC3RamBat => "MBC3+RAM+BATTERY",
        CartTypes::MBC5 => "MBC5",
        CartTypes::MBC5Ram => "MBC5+RAM",
        CartTypes::MBC5RamBat => "MBC5+RAM+BATTERY",
        CartTypes::MBC5Rumble => "MBC5+RUMBLE",
        CartTypes::MBC5RumbleRam => "MBC5+RUMBLE+RAM",
        CartTypes::MBC5RumbleRamBat => "MBC5+RUMBLE+RAM+BATTERY",
        CartTypes::MBC6 => "MBC6",
        CartTypes::MBC7SensorRumbleRamBat => "MBC7+SENSOR+RUMBLE+RAM+BATTERY",
        CartTypes::PocketCamera => "POCKET CAMERA",
        CartTypes::BandaiTAMA5 => "BANDAI TAMA5",
        CartTypes::HuC3 => "HuC3",
        CartTypes::HuC1RamBat => "HuC1+RAM+BATTERY",
    }
}

/// A bank controller's name.
pub open spec fn mbc_mode_name(m: MBCMode) -> &'static str {
    match m {
        MBCMode::RomOnly => "ROM Only",
        MBCMode::MBC1 => "MBC1",
        MBCMode::MBC2 => "MBC2",
        MBCMode::MBC3 => "MBC3",
        MBCMode::MBC5 => "MBC5",
        MBCMode::Unsupported => "Unsupported",
    }
}

} // verus!
