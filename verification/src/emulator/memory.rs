//! The memory-mapped registers of the television interface adaptor, by the
//! byte of their address.
use vstd::prelude::*;

verus! {

/// A register of the television interface adaptor. The doc line of each
/// variant gives its address and, by dots and ones, its writeable bits.
#[derive(Debug, PartialEq, Eq, Structural, Clone, Copy)]
pub enum DeviceMemory {
    /// 0x00: ......1.  vertical sync set-clear
    VSYNC,
    /// 0x01: 11....1.  vertical blank set-clear
    VBLANK,
    /// 0x02: <strobe>  wait for leading edge of horizontal blank
    WSYNC,
    /// 0x03: <strobe>  reset horizontal sync counter
    RSYNC,
    /// 0x04: ..111111  number-size player-missile 0
    NUSIZ0,
    /// 0x05: ..111111  number-size player-missile 1
    NUSIZ1,
    /// 0x06: 1111111.  color-lum player 0 and missile 0
    COLUP0,
    /// 0x07: 1111111.  color-lum player 1 and missile 1
    COLUP1,
    /// 0x08: 1111111.  color-lum playfield and ball
    COLUPF,
    /// 0x09: 1111111.  color-lum background
    COLUBK,
    /// 0x0A: ..11.111  control playfield ball size & collisions
    CTRLPF,
    /// 0x0B: ....1...  reflect player 0
    REFP0,
    /// 0x0C: ....1...  reflect player 1
    REFP1,
    /// 0x0D: 1111....  playfield register byte 0
    PF0,
    /// 0x0E: 11111111  playfield register byte 1
    PF1,
    /// 0x0F: 11111111  playfield register byte 2
    PF2,
    /// 0x10: <strobe>  reset player 0
    RESP0,
    /// 0x11: <strobe>  reset player 1
    RESP1,
    /// 0x12: <strobe>  reset missile 0
    RESM0,
    /// 0x13: <strobe>  reset missile 1
    RESM1,
    /// 0x14: <strobe>  reset ball
    RESBL,
    /// 0x15: ....1111  audio control 0
    AUDC0,
    /// 0x16: ....1111  audio control 1
    AUDC1,
    /// 0x17: ...11111  audio frequency 0
    AUDF0,
    /// 0x18: ...11111  audio frequency 1
    AUDF1,
    /// 0x19: ....1111  audio volume 0
    AUDV0,
    /// 0x1A: ....1111  audio volume 1
    AUDV1,
    /// 0x1B: 11111111  graphics player 0
    GRP0,
    /// 0x1C: 11111111  graphics player 1
    GRP1,
    /// 0x1D: ......1.  graphics (enable) missile 0
    ENAM0,
    /// 0x1E: ......1.  graphics (enable) missile 1
    ENAM1,
    /// 0x1F: ......1.  graphics (enable) ball
    ENABL,
    /// 0x20: 1111....  horizontal motion player 0
    HMP0,
    /// 0x21: 1111....  horizontal motion player 1
    HMP1,
    /// 0x22: 1111....  horizontal motion missile 0
    HMM0,
    /// 0x23: 1111....  horizontal motion missile 1
    HMM1,
    /// 0x24: 1111....  horizontal motion ball
    HMBL,
    /// 0x25: .......1  vertical delay player 0
    VDELP0,
    /// 0x26: .......1  vertical delay player 1
    VDELP1,
    /// 0x27: .......1  vertical delay ball
    VDELBL,
    /// 0x28: ......1.  reset missile 0 to player 0
    RESMP0,
    /// 0x29: ......1.  reset missile 1 to player 1
    RESMP1,
    /// 0x2A: <strobe>  apply horizontal motion
    HMOVE,
    /// 0x2B: <strobe>  clear horizontal motion registers
    HMCLR,
    /// 0x2C: <strobe>  clear collision latches
    CXCLR,
}

/// The register that lives at `address`, if any does.
pub open spec fn device_at(address: u8) -> Option<DeviceMemory> {
    match address {
        0x00 => Some(DeviceMemory::VSYNC),
        0x01 => Some(DeviceMemory::VBLANK),
        0x02 => Some(DeviceMemory::WSYNC),
        0x03 => Some(DeviceMemory::RSYNC),
        0x04 => Some(DeviceMemory::NUSIZ0),
        0x05 => Some(DeviceMemory::NUSIZ1),
        0x06 => Some(DeviceMemory::COLUP0),
        0x07 => Some(DeviceMemory::COLUP1),
        0x08 => Some(DeviceMemory::COLUPF),
        0x09 => Some(DeviceMemory::COLUBK),
        0x0A => Some(DeviceMemory::CTRLPF),
        0x0B => Some(DeviceMemory::REFP0),
        0x0C => Some(DeviceMemory::REFP1),
        0x0D => Some(DeviceMemory::PF0),
        0x0E => Some(DeviceMemory::PF1),
        0x0F => Some(DeviceMemory::PF2),
        0x10 => Some(DeviceMemory::RESP0),
        0x11 => Some(DeviceMemory::RESP1),
        0x12 => Some(DeviceMemory::RESM0),
        0x13 => Some(DeviceMemory::RESM1),
        0x14 => Some(DeviceMemory::RESBL),
        0x15 => Some(DeviceMemory::AUDC0),
        0x16 => Some(DeviceMemory::AUDC1),
        0x17 => Some(DeviceMemory::AUDF0),
        0x18 => Some(DeviceMemory::AUDF1),
        0x19 => Some(DeviceMemory::AUDV0),
        0x1A => Some(DeviceMemory::AUDV1),
        0x1B => Some(DeviceMemory::GRP0),
        0x1C => Some(DeviceMemory::GRP1),
        0x1D => Some(DeviceMemory::ENAM0),
        0x1E => Some(DeviceMemory::ENAM1),
        0x1F => Some(DeviceMemory::ENABL),
        0x20 => Some(DeviceMemory::HMP0),
        0x21 => Some(DeviceMemory::HMP1),
        0x22 => Some(DeviceMemory::HMM0),
        0x23 => Some(DeviceMemory::HMM1),
        0x24 => Some(DeviceMemory::HMBL),
        0x25 => Some(DeviceMemory::VDELP0),
        0x26 => Some(DeviceMemory::VDELP1),
        0x27 => Some(DeviceMemory::VDELBL),
        0x28 => Some(DeviceMemory::RESMP0),
        0x29 => Some(DeviceMemory::RESMP1),
        0x2A => Some(DeviceMemory::HMOVE),
        0x2B => Some(DeviceMemory::HMCLR),
        0x2C => Some(DeviceMemory::CXCLR),
        _ => None,
    }
}

/// The address of a register.
pub open spec fn device_address(device: DeviceMemory) -> u8 {
    match device {
        DeviceMemory::VSYNC => 0x00,
        DeviceMemory::VBLANK => 0x01,
        DeviceMemory::WSYNC => 0x02,
        DeviceMemory::RSYNC => 0x03,
        DeviceMemory::NUSIZ0 => 0x04,
        DeviceMemory::NUSIZ1 => 0x05,
        DeviceMemory::COLUP0 => 0x06,
        DeviceMemory::COLUP1 => 0x07,
        DeviceMemory::COLUPF => 0x08,
        DeviceMemory::COLUBK => 0x09,
        DeviceMemory::CTRLPF => 0x0A,
        DeviceMemory::REFP0 => 0x0B,
        DeviceMemory::REFP1 => 0x0C,
        DeviceMemory::PF0 => 0x0D,
        DeviceMemory::PF1 => 0x0E,
        DeviceMemory::PF2 => 0x0F,
        DeviceMemory::RESP0 => 0x10,
        DeviceMemory::RESP1 => 0x11,
        DeviceMemory::RESM0 => 0x12,
        DeviceMemory::RESM1 => 0x13,
        DeviceMemory::RESBL => 0x14,
        DeviceMemory::AUDC0 => 0x15,
        DeviceMemory::AUDC1 => 0x16,
        DeviceMemory::AUDF0 => 0x17,
        DeviceMemory::AUDF1 => 0x18,
        DeviceMemory::AUDV0 => 0x19,
        DeviceMemory::AUDV1 => 0x1A,
        DeviceMemory::GRP0 => 0x1B,
        DeviceMemory::GRP1 => 0x1C,
        DeviceMemory::ENAM0 => 0x1D,
        DeviceMemory::ENAM1 => 0x1E,
        DeviceMemory::ENABL => 0x1F,
        DeviceMemory::HMP0 => 0x20,
        DeviceMemory::HMP1 => 0x21,
        DeviceMemory::HMM0 => 0x22,
        DeviceMemory::HMM1 => 0x23,
        DeviceMemory::HMBL => 0x24,
        DeviceMemory::VDELP0 => 0x25,
        DeviceMemory::VDELP1 => 0x26,
        DeviceMemory::VDELBL => 0x27,
        DeviceMemory::RESMP0 => 0x28,
        DeviceMemory::RESMP1 => 0x29,
        DeviceMemory::HMOVE => 0x2A,
        DeviceMemory::HMCLR => 0x2B,
        DeviceMemory::CXCLR => 0x2C,
    }
}

impl vstd::std_specs::convert::TryFromSpecImpl<u8> for DeviceMemory {
    open spec fn obeys_try_from_spec() -> bool {
        true
    }

    open spec fn try_from_spec(v: u8) -> Result<DeviceMemory, ()> {
        match device_at(v) {
            Some(d) => Ok(d),
            None => Err(()),
        }
    }
}

impl TryFrom<u8> for DeviceMemory {
    type Error = ();

    fn try_from(value: u8) -> (r: Result<DeviceMemory, ()>) {
        match value {
            0x00 => Ok(DeviceMemory::VSYNC),
            0x01 => Ok(DeviceMemory::VBLANK),
            0x02 => Ok(DeviceMemory::WSYNC),
            0x03 => Ok(DeviceMemory::RSYNC),
            0x04 => Ok(DeviceMemory::NUSIZ0),
            0x05 => Ok(DeviceMemory::NUSIZ1),
            0x06 => Ok(DeviceMemory::COLUP0),
            0x07 => Ok(DeviceMemory::COLUP1),
            0x08 => Ok(DeviceMemory::COLUPF),
            0x09 => Ok(DeviceMemory::COLUBK),
            0x0A => Ok(DeviceMemory::CTRLPF),
            0x0B => Ok(DeviceMemory::REFP0),
            0x0C => Ok(DeviceMemory::REFP1),
            0x0D => Ok(DeviceMemory::PF0),
            0x0E => Ok(DeviceMemory::PF1),
            0x0F => Ok(DeviceMemory::PF2),
            0x10 => Ok(DeviceMemory::RESP0),
            0x11 => Ok(DeviceMemory::RESP1),
            0x12 => Ok(DeviceMemory::RESM0),
            0x13 => Ok(DeviceMemory::RESM1),
            0x14 => Ok(DeviceMemory::RESBL),
            0x15 => Ok(DeviceMemory::AUDC0),
            0x16 => Ok(DeviceMemory::AUDC1),
            0x17 => Ok(DeviceMemory::AUDF0),
            0x18 => Ok(DeviceMemory::AUDF1),
            0x19 => Ok(DeviceMemory::AUDV0),
            0x1A => Ok(DeviceMemory::AUDV1),
            0x1B => Ok(DeviceMemory::GRP0),
            0x1C => Ok(DeviceMemory::GRP1),
            0x1D => Ok(DeviceMemory::ENAM0),
            0x1E => Ok(DeviceMemory::ENAM1),
            0x1F => Ok(DeviceMemory::ENABL),
            0x20 => Ok(DeviceMemory::HMP0),
            0x21 => Ok(DeviceMemory::HMP1),
            0x22 => Ok(DeviceMemory::HMM0),
            0x23 => Ok(DeviceMemory::HMM1),
            0x24 => Ok(DeviceMemory::HMBL),
            0x25 => Ok(DeviceMemory::VDELP0),
            0x26 => Ok(DeviceMemory::VDELP1),
            0x27 => Ok(DeviceMemory::VDELBL),
            0x28 => Ok(DeviceMemory::RESMP0),
            0x29 => Ok(DeviceMemory::RESMP1),
            0x2A => Ok(DeviceMemory::HMOVE),
            0x2B => Ok(DeviceMemory::HMCLR),
            0x2C => Ok(DeviceMemory::CXCLR),
            _ => Err(()),
        }
    }
}

impl vstd::std_specs::convert::TryFromSpecImpl<DeviceMemory> for u8 {
    open spec fn obeys_try_from_spec() -> bool {
        true
    }

    open spec fn try_from_spec(v: DeviceMemory) -> Result<u8, ()> {
        Ok(device_address(v))
    }
}

impl TryFrom<DeviceMemory> for u8 {
    type Error = ();

    fn try_from(device_memory: DeviceMemory) -> (r: Result<u8, ()>) {
        match device_memory {
            DeviceMemory::VSYNC => Ok(0x00),
            DeviceMemory::VBLANK => Ok(0x01),
            DeviceMemory::WSYNC => Ok(0x02),
            DeviceMemory::RSYNC => Ok(0x03),
            DeviceMemory::NUSIZ0 => Ok(0x04),
            DeviceMemory::NUSIZ1 => Ok(0x05),
            DeviceMemory::COLUP0 => Ok(0x06),
            DeviceMemory::COLUP1 => Ok(0x07),
            DeviceMemory::COLUPF => Ok(0x08),
            DeviceMemory::COLUBK => Ok(0x09),
            DeviceMemory::CTRLPF => Ok(0x0A),
            DeviceMemory::REFP0 => Ok(0x0B),
            DeviceMemory::REFP1 => Ok(0x0C),
            DeviceMemory::PF0 => Ok(0x0D),
            DeviceMemory::PF1 => Ok(0x0E),
            DeviceMemory::PF2 => Ok(0x0F),
            DeviceMemory::RESP0 => Ok(0x10),
            DeviceMemory::RESP1 => Ok(0x11),
            DeviceMemory::RESM0 => Ok(0x12),
            DeviceMemory::RESM1 => Ok(0x13),
            DeviceMemory::RESBL => Ok(0x14),
            DeviceMemory::AUDC0 => Ok(0x15),
            DeviceMemory::AUDC1 => Ok(0x16),
            DeviceMemory::AUDF0 => Ok(0x17),
            DeviceMemory::AUDF1 => Ok(0x18),
            DeviceMemory::AUDV0 => Ok(0x19),
            DeviceMemory::AUDV1 => Ok(0x1A),
            DeviceMemory::GRP0 => Ok(0x1B),
            DeviceMemory::GRP1 => Ok(0x1C),
            DeviceMemory::ENAM0 => Ok(0x1D),
            DeviceMemory::ENAM1 => Ok(0x1E),
            DeviceMemory::ENABL => Ok(0x1F),
            DeviceMemory::HMP0 => Ok(0x20),
            DeviceMemory::HMP1 => Ok(0x21),
            DeviceMemory::HMM0 => Ok(0x22),
            DeviceMemory::HMM1 => Ok(0x23),
            DeviceMemory::HMBL => Ok(0x24),
            DeviceMemory::VDELP0 => Ok(0x25),
            DeviceMemory::VDELP1 => Ok(0x26),
            DeviceMemory::VDELBL => Ok(0x27),
            DeviceMemory::RESMP0 => Ok(0x28),
            DeviceMemory::RESMP1 => Ok(0x29),
            DeviceMemory::HMOVE => Ok(0x2A),
            DeviceMemory::HMCLR => Ok(0x2B),
            DeviceMemory::CXCLR => Ok(0x2C),
        }
    }
}

/// Reading a register's address back gives the register: every register has
/// an address, and it names that register alone.
pub proof fn law_device_address_round_trip(device: DeviceMemory)
    ensures
        device_at(device_address(device)) == Some(device),
{
}

/// An address names a register exactly when it lies in $00..=$2C, and then
/// the register's address is the address that was looked up.
pub proof fn law_device_at_round_trip(address: u8)
    ensures
        device_at(address) is Some <==> address <= 0x2C,
        device_at(address) matches Some(d) ==> device_address(d) == address,
{
}

/// The write registers of the television interface adaptor as its memory
/// map lays them out, from address $00 up: the register at position `i` of
/// the map answers at address `i`.
pub open spec fn tia_write_map() -> Seq<DeviceMemory> {
    seq![
        DeviceMemory::VSYNC,
        DeviceMemory::VBLANK,
        DeviceMemory::WSYNC,
        DeviceMemory::RSYNC,
        DeviceMemory::NUSIZ0,
        DeviceMemory::NUSIZ1,
        DeviceMemory::COLUP0,
        DeviceMemory::COLUP1,
        DeviceMemory::COLUPF,
        DeviceMemory::COLUBK,
        DeviceMemory::CTRLPF,
        DeviceMemory::REFP0,
        DeviceMemory::REFP1,
        DeviceMemory::PF0,
        DeviceMemory::PF1,
        DeviceMemory::PF2,
        DeviceMemory::RESP0,
        DeviceMemory::RESP1,
        DeviceMemory::RESM0,
        DeviceMemory::RESM1,
        DeviceMemory::RESBL,
        DeviceMemory::AUDC0,
        DeviceMemory::AUDC1,
        DeviceMemory::AUDF0,
        DeviceMemory::AUDF1,
        DeviceMemory::AUDV0,
        DeviceMemory::AUDV1,
        DeviceMemory::GRP0,
        DeviceMemory::GRP1,
        DeviceMemory::ENAM0,
        DeviceMemory::ENAM1,
        DeviceMemory::ENABL,
        DeviceMemory::HMP0,
        DeviceMemory::HMP1,
        DeviceMemory::HMM0,
        DeviceMemory::HMM1,
        DeviceMemory::HMBL,
        DeviceMemory::VDELP0,
        DeviceMemory::VDELP1,
        DeviceMemory::VDELBL,
        DeviceMemory::RESMP0,
        DeviceMemory::RESMP1,
        DeviceMemory::HMOVE,
        DeviceMemory::HMCLR,
        DeviceMemory::CXCLR,
    ]
}

/// Every register sits at its address in the TIA memory map: the address
/// `a` names the register at position `a` of the map, that register's
/// address is `a`, and no register answers past the end of the map.
pub proof fn law_registers_follow_the_tia_map(address: u8)
    ensures
        tia_write_map().len() == 45,
        (address as int) < tia_write_map().len() ==> device_at(address) == Some(
            tia_write_map()[address as int],
        ) && device_address(tia_write_map()[address as int]) == address,
        (address as int) >= tia_write_map().len() ==> device_at(address) is None,
{
}

} // verus!
