//! The closed set of device families, their wire codes, and the identity
//! of a connected device (family plus firmware version), fixed once at
//! connect time.

use vstd::prelude::*;
use crate::messages::FirmwareVersion;

verus! {

#[derive(Debug, Clone, Copy, PartialEq, Eq, Structural)]
pub enum FractalModel {
    Standard,
    Ultra,
    MFC101,
    II,
    MFC101MK3,
    FX8,
    IIXL,
    IIXLPlus,
    AX8,
    FX8MK2,
    III,
    FM3,
}

/// The single wire byte that identifies a model family in a frame header.
pub open spec fn spec_model_code(m: FractalModel) -> u8 {
    match m {
        FractalModel::Standard => 0x00,
        FractalModel::Ultra => 0x01,
        FractalModel::MFC101 => 0x02,
        FractalModel::II => 0x03,
        FractalModel::MFC101MK3 => 0x04,
        FractalModel::FX8 => 0x05,
        FractalModel::IIXL => 0x06,
        FractalModel::IIXLPlus => 0x07,
        FractalModel::AX8 => 0x08,
        FractalModel::FX8MK2 => 0x0A,
        FractalModel::III => 0x10,
        FractalModel::FM3 => 0x11,
    }
}

/// The model a wire byte stands for, if it is a known code.
pub open spec fn spec_model_from_code(code: u8) -> Option<FractalModel> {
    match code {
        0x00u8 => Some(FractalModel::Standard),
        0x01u8 => Some(FractalModel::Ultra),
        0x02u8 => Some(FractalModel::MFC101),
        0x03u8 => Some(FractalModel::II),
        0x04u8 => Some(FractalModel::MFC101MK3),
        0x05u8 => Some(FractalModel::FX8),
        0x06u8 => Some(FractalModel::IIXL),
        0x07u8 => Some(FractalModel::IIXLPlus),
        0x08u8 => Some(FractalModel::AX8),
        0x0Au8 => Some(FractalModel::FX8MK2),
        0x10u8 => Some(FractalModel::III),
        0x11u8 => Some(FractalModel::FM3),
        _ => None,
    }
}

pub fn model_code(model: FractalModel) -> (r: u8)
    ensures
        r == spec_model_code(model),
{
    match model {
        FractalModel::Standard => 0x00,
        FractalModel::Ultra => 0x01,
        FractalModel::MFC101 => 0x02,
        FractalModel::II => 0x03,
        FractalModel::MFC101MK3 => 0x04,
        FractalModel::FX8 => 0x05,
        FractalModel::IIXL => 0x06,
        FractalModel::IIXLPlus => 0x07,
        FractalModel::AX8 => 0x08,
        FractalModel::FX8MK2 => 0x0A,
        FractalModel::III => 0x10,
        FractalModel::FM3 => 0x11,
    }
}

pub fn model_from_code(code: u8) -> (r: Option<FractalModel>)
    ensures
        r == spec_model_from_code(code),
{
    match code {
        0x00 => Some(FractalModel::Standard),
        0x01 => Some(FractalModel::Ultra),
        0x02 => Some(FractalModel::MFC101),
        0x03 => Some(FractalModel::II),
        0x04 => Some(FractalModel::MFC101MK3),
        0x05 => Some(FractalModel::FX8),
        0x06 => Some(FractalModel::IIXL),
        0x07 => Some(FractalModel::IIXLPlus),
        0x08 => Some(FractalModel::AX8),
        0x0A => Some(FractalModel::FX8MK2),
        0x10 => Some(FractalModel::III),
        0x11 => Some(FractalModel::FM3),
        _ => None,
    }
}

/// Model codes round-trip, every code is below the 7-bit limit, and no
/// code collides with a frame marker.
pub proof fn lemma_model_code_round_trip(m: FractalModel)
    ensures
        spec_model_from_code(spec_model_code(m)) == Some(m),
        spec_model_code(m) < 0x80,
{
}

/// A known model code is reproduced by the model it stands for.
pub proof fn lemma_model_code_inverse(code: u8)
    ensures
        spec_model_from_code(code) matches Some(m) ==> spec_model_code(m) == code,
{
}

impl FractalModel {
    /// How many presets the family exposes, where the protocol defines it.
    pub fn number_of_presets(&self) -> (r: Option<u16>)
        ensures
            r == (if *self == FractalModel::III || *self == FractalModel::FM3 {
                Some(512u16)
            } else {
                None::<u16>
            }),
    {
        match self {
            FractalModel::III | FractalModel::FM3 => Some(512),
            _ => None,
        }
    }

    /// How many scenes the family exposes, where the protocol defines it.
    pub fn number_of_scenes(&self) -> (r: Option<u8>)
        ensures
            r == (if *self == FractalModel::III || *self == FractalModel::FM3 {
                Some(8u8)
            } else {
                None::<u8>
            }),
    {
        match self {
            FractalModel::III | FractalModel::FM3 => Some(8),
            _ => None,
        }
    }
}

/// A connected device's identity: chosen once by the handshake and
/// immutable for the life of the connection.
#[derive(Debug, Clone, Copy, PartialEq, Eq, Structural)]
pub struct FractalDevice {
    pub model: FractalModel,
    pub firmware: FirmwareVersion,
}

} // verus!
