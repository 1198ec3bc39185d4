//! Register map and conversion rules for the on-die analog monitor.
//!
//! The monitor is reached over a dynamic reconfiguration port: a register
//! address, a 16-bit payload.  This module holds the address map, the
//! configuration words the driver writes at start-up, and the arithmetic
//! that turns raw sample codes into display units.  The register I/O
//! itself is a thin port access that stays with the caller.

use vstd::prelude::*;

verus! {

/// Addressable registers of the monitor's reconfiguration port.
pub enum XadcRegs {
    Temperature,
    VccInt,
    VccAux,
    Dedicated,
    VrefP,
    VrefN,
    VccBram,
    Vaux0,
    Vaux1,
    Vaux2,
    Vaux3,
    Vaux4,
    Vaux5,
    Vaux6,
    Vaux7,
    Vaux8,
    Vaux9,
    Vaux10,
    Vaux11,
    Vaux12,
    Vaux13,
    Vaux14,
    Vaux15,
    MaxTemp,
    MaxVccInt,
    MaxVccAux,
    MaxVccBram,
    MinTemp,
    MinVccInt,
    MinVccAux,
    MinVccBram,
    Config0,
    Config1,
    Config2,
    Seq0,
    Seq1,
    SeqAvg0,
    SeqAvg1,
    SeqMode0,
    SeqMode1,
    SeqSettling0,
    SeqSettling1,
    AlarmTempUpper,
    AlarmVccIntUpper,
    AlarmVccAuxUpper,
    AlarmOtLimit,
    AlarmTempLower,
    AlarmVccIntLower,
    AlarmVccAuxLower,
    AlarmOtReset,
    AlarmVccBramUpper,
    AlarmVccBramLower,
}

/// The port address of each register.
pub open spec fn spec_reg_addr(r: XadcRegs) -> u16 {
    match r {
        XadcRegs::Temperature => 0x0,
        XadcRegs::VccInt => 0x1,
        XadcRegs::VccAux => 0x2,
        XadcRegs::Dedicated => 0x3,
        XadcRegs::VrefP => 0x4,
        XadcRegs::VrefN => 0x5,
        XadcRegs::VccBram => 0x6,
        XadcRegs::Vaux0 => 16,
        XadcRegs::Vaux1 => 17,
        XadcRegs::Vaux2 => 18,
        XadcRegs::Vaux3 => 19,
        XadcRegs::Vaux4 => 20,
        XadcRegs::Vaux5 => 21,
        XadcRegs::Vaux6 => 22,
        XadcRegs::Vaux7 => 23,
        XadcRegs::Vaux8 => 24,
        XadcRegs::Vaux9 => 25,
        XadcRegs::Vaux10 => 26,
        XadcRegs::Vaux11 => 27,
        XadcRegs::Vaux12 => 28,
        XadcRegs::Vaux13 => 29,
        XadcRegs::Vaux14 => 30,
        XadcRegs::Vaux15 => 31,
        XadcRegs::MaxTemp => 0x20,
        XadcRegs::MaxVccInt => 0x21,
        XadcRegs::MaxVccAux => 0x22,
        XadcRegs::MaxVccBram => 0x23,
        XadcRegs::MinTemp => 0x24,
        XadcRegs::MinVccInt => 0x25,
        XadcRegs::MinVccAux => 0x26,
        XadcRegs::MinVccBram => 0x27,
        XadcRegs::Config0 => 0x40,
        XadcRegs::Config1 => 0x41,
        XadcRegs::Config2 => 0x42,
        XadcRegs::Seq0 => 0x48,
        XadcRegs::Seq1 => 0x49,
        XadcRegs::SeqAvg0 => 0x4A,
        XadcRegs::SeqAvg1 => 0x4B,
        XadcRegs::SeqMode0 => 0x4C,
        XadcRegs::SeqMode1 => 0x4D,
        XadcRegs::SeqSettling0 => 0x4E,
        XadcRegs::SeqSettling1 => 0x4F,
        XadcRegs::AlarmTempUpper => 0x50,
        XadcRegs::AlarmVccIntUpper => 0x51,
        XadcRegs::AlarmVccAuxUpper => 0x52,
        XadcRegs::AlarmOtLimit => 0x53,
        XadcRegs::AlarmTempLower => 0x54,
        XadcRegs::AlarmVccIntLower => 0x55,
        XadcRegs::AlarmVccAuxLower => 0x56,
        XadcRegs::AlarmOtReset => 0x57,
        XadcRegs::AlarmVccBramUpper => 0x58,
        XadcRegs::AlarmVccBramLower => 0x5C,
    }
}

impl XadcRegs {
    /// The address this register answers to on the port.
    pub fn addr(&self) -> (a: u16)
        ensures
            a == spec_reg_addr(*self),
    {
        match self {
            XadcRegs::Temperature => 0x0,
            XadcRegs::VccInt => 0x1,
            XadcRegs::VccAux => 0x2,
            XadcRegs::Dedicated => 0x3,
            XadcRegs::VrefP => 0x4,
            XadcRegs::VrefN => 0x5,
            XadcRegs::VccBram => 0x6,
            XadcRegs::Vaux0 => 16,
            XadcRegs::Vaux1 => 17,
            XadcRegs::Vaux2 => 18,
            XadcRegs::Vaux3 => 19,
            XadcRegs::Vaux4 => 20,
            XadcRegs::Vaux5 => 21,
            XadcRegs::Vaux6 => 22,
            XadcRegs::Vaux7 => 23,
            XadcRegs::Vaux8 => 24,
            XadcRegs::Vaux9 => 25,
            XadcRegs::Vaux10 => 26,
            XadcRegs::Vaux11 => 27,
            XadcRegs::Vaux12 => 28,
            XadcRegs::Vaux13 => 29,
            XadcRegs::Vaux14 => 30,
            XadcRegs::Vaux15 => 31,
            XadcRegs::MaxTemp => 0x20,
            XadcRegs::MaxVccInt => 0x21,
            XadcRegs::MaxVccAux => 0x22,
            XadcRegs::MaxVccBram => 0x23,
            XadcRegs::MinTemp => 0x24,
            XadcRegs::MinVccInt => 0x25,
            XadcRegs::MinVccAux => 0x26,
            XadcRegs::MinVccBram => 0x27,
            XadcRegs::Config0 => 0x40,
            XadcRegs::Config1 => 0x41,
            XadcRegs::Config2 => 0x42,
            XadcRegs::Seq0 => 0x48,
            XadcRegs::Seq1 => 0x49,
            XadcRegs::SeqAvg0 => 0x4A,
            XadcRegs::SeqAvg1 => 0x4B,
            XadcRegs::SeqMode0 => 0x4C,
            XadcRegs::SeqMode1 => 0x4D,
            XadcRegs::SeqSettling0 => 0x4E,
            XadcRegs::SeqSettling1 => 0x4F,
            XadcRegs::AlarmTempUpper => 0x50,
            XadcRegs::AlarmVccIntUpper => 0x51,
            XadcRegs::AlarmVccAuxUpper => 0x52,
            XadcRegs::AlarmOtLimit => 0x53,
            XadcRegs::AlarmTempLower => 0x54,
            XadcRegs::AlarmVccIntLower => 0x55,
            XadcRegs::AlarmVccAuxLower => 0x56,
            XadcRegs::AlarmOtReset => 0x57,
            XadcRegs::AlarmVccBramUpper => 0x58,
            XadcRegs::AlarmVccBramLower => 0x5C,
        }
    }
}

/// Sequencer operating modes.
pub enum XadcSeq {
    Default,
    SinglePass,
    Continuous,
    SingleChannel,
    Simultaneous,
    Independent,
}

impl XadcSeq {
    /// The mode code written into the sequencer field.
    pub fn code(&self) -> (c: u16)
        ensures
            c == match *self {
                XadcSeq::Default => 0u16,
                XadcSeq::SinglePass => 1u16,
                XadcSeq::Continuous => 2u16,
                XadcSeq::SingleChannel => 3u16,
                XadcSeq::Simultaneous => 4u16,
                XadcSeq::Independent => 8u16,
            },
    {
        match self {
            XadcSeq::Default => 0,
            XadcSeq::SinglePass => 1,
            XadcSeq::Continuous => 2,
            XadcSeq::SingleChannel => 3,
            XadcSeq::Simultaneous => 4,
            XadcSeq::Independent => 8,
        }
    }
}

/// Converter power settings.
pub enum XadcPower {
    AllOn,
    AdcbOff,
    AllOff,
}

impl XadcPower {
    /// The power code written into the configuration word.
    pub fn code(&self) -> (c: u16)
        ensures
            c == match *self {
                XadcPower::AllOn => 0u16,
                XadcPower::AdcbOff => 2u16,
                XadcPower::AllOff => 3u16,
            },
    {
        match self {
            XadcPower::AllOn => 0,
            XadcPower::AdcbOff => 2,
            XadcPower::AllOff => 3,
        }
    }
}

/// Selectable sample channels.
pub enum XadcChannel {
    Temperature,
    VccInt,
    VccAux,
    Dedicated,
    VrefP,
    VrefN,
    VccBram,
    Calibrate,
    Vaux0,
    Vaux1,
    Vaux2,
    Vaux3,
    Vaux4,
    Vaux5,
    Vaux6,
    Vaux7,
    Vaux8,
    Vaux9,
    Vaux10,
    Vaux11,
    Vaux12,
    Vaux13,
    Vaux14,
    Vaux15,
}

impl XadcChannel {
    /// The channel number.
    pub fn number(&self) -> (n: u16)
        ensures
            n == match *self {
                XadcChannel::Temperature => 0u16,
                XadcChannel::VccInt => 1u16,
                XadcChannel::VccAux => 2u16,
                XadcChannel::Dedicated => 3u16,
                XadcChannel::VrefP => 4u16,
                XadcChannel::VrefN => 5u16,
                XadcChannel::VccBram => 6u16,
                XadcChannel::Calibrate => 8u16,
                XadcChannel::Vaux0 => 16u16,
                XadcChannel::Vaux1 => 17u16,
                XadcChannel::Vaux2 => 18u16,
                XadcChannel::Vaux3 => 19u16,
                XadcChannel::Vaux4 => 20u16,
                XadcChannel::Vaux5 => 21u16,
                XadcChannel::Vaux6 => 22u16,
                XadcChannel::Vaux7 => 23u16,
                XadcChannel::Vaux8 => 24u16,
                XadcChannel::Vaux9 => 25u16,
                XadcChannel::Vaux10 => 26u16,
                XadcChannel::Vaux11 => 27u16,
                XadcChannel::Vaux12 => 28u16,
                XadcChannel::Vaux13 => 29u16,
                XadcChannel::Vaux14 => 30u16,
                XadcChannel::Vaux15 => 31u16,
            },
    {
        match self {
            XadcChannel::Temperature => 0,
            XadcChannel::VccInt => 1,
            XadcChannel::VccAux => 2,
            XadcChannel::Dedicated => 3,
            XadcChannel::VrefP => 4,
            XadcChannel::VrefN => 5,
            XadcChannel::VccBram => 6,
            XadcChannel::Calibrate => 8,
            XadcChannel::Vaux0 => 16,
            XadcChannel::Vaux1 => 17,
            XadcChannel::Vaux2 => 18,
            XadcChannel::Vaux3 => 19,
            XadcChannel::Vaux4 => 20,
            XadcChannel::Vaux5 => 21,
            XadcChannel::Vaux6 => 22,
            XadcChannel::Vaux7 => 23,
            XadcChannel::Vaux8 => 24,
            XadcChannel::Vaux9 => 25,
            XadcChannel::Vaux10 => 26,
            XadcChannel::Vaux11 => 27,
            XadcChannel::Vaux12 => 28,
            XadcChannel::Vaux13 => 29,
            XadcChannel::Vaux14 => 30,
            XadcChannel::Vaux15 => 31,
        }
    }
}

/// Averaging filter depths.
pub enum XadcFilter {
    NoAvg,
    Avg16,
    Avg64,
    Avg256,
}

impl XadcFilter {
    /// The averaging code written into the configuration word.
    pub fn code(&self) -> (c: u16)
        ensures
            c == match *self {
                XadcFilter::NoAvg => 0u16,
                XadcFilter::Avg16 => 1u16,
                XadcFilter::Avg64 => 2u16,
                XadcFilter::Avg256 => 3u16,
            },
            c <= 3,
    {
        match self {
            XadcFilter::NoAvg => 0,
            XadcFilter::Avg16 => 1,
            XadcFilter::Avg64 => 2,
            XadcFilter::Avg256 => 3,
        }
    }
}

/// Calibration selections.
pub enum XadcCalBitMask {
    AdcOffset,
    AdcOffsetAndGain,
    SupplyOffset,
    SupplyOffsetAndGain,
}

impl XadcCalBitMask {
    /// The calibration selector value.
    pub fn code(&self) -> (c: u16)
        ensures
            c == match *self {
                XadcCalBitMask::AdcOffset => 1u16,
                XadcCalBitMask::AdcOffsetAndGain => 2u16,
                XadcCalBitMask::SupplyOffset => 3u16,
                XadcCalBitMask::SupplyOffsetAndGain => 4u16,
            },
    {
        match self {
            XadcCalBitMask::AdcOffset => 1,
            XadcCalBitMask::AdcOffsetAndGain => 2,
            XadcCalBitMask::SupplyOffset => 3,
            XadcCalBitMask::SupplyOffsetAndGain => 4,
        }
    }
}

/// How the driver walks the channels.
pub enum BtXadcMode {
    /// Round-robin sampling of every active port.
    RoundRobin,
    /// Streaming of a single channel.
    Stream,
}

/// First configuration word: averaging disabled for the calibration bit,
/// the chosen filter depth in the top nibble's low bits.
pub fn config0_word(filter: XadcFilter) -> (w: u16)
    ensures
        w == 0x8000 + (match filter {
            XadcFilter::NoAvg => 0int,
            XadcFilter::Avg16 => 1int,
            XadcFilter::Avg64 => 2int,
            XadcFilter::Avg256 => 3int,
        }) * 0x1000,
{
    0x8000 + filter.code() * 0x1000
}

/// Second configuration word: sequencer mode in the top nibble, alarm and
/// calibration enables in the fixed low bits.
pub fn config1_word(sequencer: XadcSeq) -> (w: u16)
    ensures
        w == (match sequencer {
            XadcSeq::Default => 0int,
            XadcSeq::SinglePass => 1int,
            XadcSeq::Continuous => 2int,
            XadcSeq::SingleChannel => 3int,
            XadcSeq::Simultaneous => 4int,
            XadcSeq::Independent => 8int,
        }) * 0x1000 + 0x0EF0,
{
    sequencer.code() * 0x1000 + 0x0EF0
}

/// Third configuration word: converter clock divider in the fixed bits,
/// power setting in the low nibble's upper bits.
pub fn config2_word(power: XadcPower) -> (w: u16)
    ensures
        w == 0x0400 + (match power {
            XadcPower::AllOn => 0int,
            XadcPower::AdcbOff => 2int,
            XadcPower::AllOff => 3int,
        }) * 0x10,
{
    0x0400 + power.code() * 0x10
}

/// Drops the four alignment bits of a raw sample: the converter delivers
/// twelve significant bits left-aligned in a sixteen-bit word.
pub fn sample_code(raw: u16) -> (c: u16)
    ensures
        c == raw as nat / 16,
        c <= 0xfff,
{
    proof {
        vstd::bits::lemma_u16_shr_is_div(raw, 4);
        vstd::arithmetic::power2::lemma2_to64();
    }
    raw >> 4
}

/// Bus voltage in millivolts: the sense network divides by 0.0485 and one
/// converter code is 1/4096 volt, so one code is 5033/1000 millivolts.
pub fn vbus_mv(raw: u16) -> (mv: u16)
    ensures
        mv == ((raw as nat / 16) * 5033) / 1000,
{
    let code: u32 = sample_code(raw) as u32;
    ((code * 5033) / 1000) as u16
}

/// Configuration-channel voltage in millivolts: unity gain, one code is
/// 1/4096 volt, reported in millivolts.
pub fn cc_mv(raw: u16) -> (mv: u16)
    ensures
        mv == ((raw as nat / 16) * 1000) / 4096,
{
    let code: u32 = sample_code(raw) as u32;
    ((code * 1000) / 4096) as u16
}

} // verus!
