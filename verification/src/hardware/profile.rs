//! Capabilities of the target hardware.

use vstd::prelude::*;

use crate::utils::errors::Precision;
use crate::utils::text::{decimal, push_decimal, push_str};

verus! {

/// Known hardware vendors.
#[derive(Debug, Clone, Copy, PartialEq, Eq, Structural, Hash)]
pub enum Vendor {
    Nvidia,
    Qualcomm,
    TexasInstruments,
    Cpu,
    Unknown,
}

/// The display name of a vendor.
pub open spec fn vendor_name(v: Vendor) -> Seq<char> {
    match v {
        Vendor::Nvidia => "NVIDIA"@,
        Vendor::Qualcomm => "Qualcomm"@,
        Vendor::TexasInstruments => "Texas Instruments"@,
        Vendor::Cpu => "CPU"@,
        Vendor::Unknown => "Unknown"@,
    }
}

impl Vendor {
    /// The display name of this vendor.
    pub fn name(self) -> (s: &'static str)
        ensures
            s@ == vendor_name(self),
    {
        match self {
            Vendor::Nvidia => "NVIDIA",
            Vendor::Qualcomm => "Qualcomm",
            Vendor::TexasInstruments => "Texas Instruments",
            Vendor::Cpu => "CPU",
            Vendor::Unknown => "Unknown",
        }
    }

    /// The display name as an owned string.
    pub fn to_string(self) -> (s: String)
        ensures
            s@ == vendor_name(self),
    {
        String::from_str(self.name())
    }
}

/// One compute accelerator (GPU, DSP, ...).
#[derive(Debug)]
pub struct Accelerator {
    /// Human-readable name, e.g. "Orin GPU".
    pub name: String,
    /// Device index.
    pub device_index: u32,
    /// Device memory in bytes (0 if unknown).
    pub memory_bytes: u64,
}

impl Clone for Accelerator {
    fn clone(&self) -> (c: Accelerator)
        ensures
            c == *self,
    {
        Accelerator {
            name: self.name.clone(),
            device_index: self.device_index,
            memory_bytes: self.memory_bytes,
        }
    }
}

/// Aggregated hardware profile.
#[derive(Debug)]
pub struct HardwareProfile {
    pub vendor: Vendor,
    pub device_name: String,
    pub supports_fp32: bool,
    pub supports_fp16: bool,
    pub supports_int8: bool,
    pub supports_fp8: bool,
    pub accelerators: Vec<Accelerator>,
}

/// Whether a profile's flags admit a precision.
pub open spec fn supports(p: HardwareProfile, prec: Precision) -> bool {
    match prec {
        Precision::FP32 => p.supports_fp32,
        Precision::FP16 => p.supports_fp16,
        Precision::INT8 => p.supports_int8,
        Precision::FP8 => p.supports_fp8,
    }
}

/// `"true"` or `"false"`.
pub open spec fn bool_text(b: bool) -> Seq<char> {
    if b {
        "true"@
    } else {
        "false"@
    }
}

fn bool_str(b: bool) -> (s: &'static str)
    ensures
        s@ == bool_text(b),
{
    if b {
        "true"
    } else {
        "false"
    }
}

/// The one-line description of a profile.
pub open spec fn profile_text(p: HardwareProfile) -> Seq<char> {
    "HardwareProfile { vendor: "@ + vendor_name(p.vendor) + ", device: "@ + p.device_name@
        + ", accelerators: "@ + decimal(p.accelerators@.len()) + ", fp32: "@ + bool_text(
        p.supports_fp32,
    ) + ", fp16: "@ + bool_text(p.supports_fp16) + ", int8: "@ + bool_text(p.supports_int8)
        + ", fp8: "@ + bool_text(p.supports_fp8) + " }"@
}

impl HardwareProfile {
    /// A profile saying that no usable hardware was found.
    pub fn none() -> (p: HardwareProfile)
        ensures
            p.vendor == Vendor::Unknown,
            p.device_name@ == "None"@,
            !p.supports_fp32 && !p.supports_fp16 && !p.supports_int8 && !p.supports_fp8,
            p.accelerators@.len() == 0,
    {
        HardwareProfile {
            vendor: Vendor::Unknown,
            device_name: String::from_str("None"),
            supports_fp32: false,
            supports_fp16: false,
            supports_int8: false,
            supports_fp8: false,
            accelerators: Vec::new(),
        }
    }

    /// Whether any accelerator was detected.
    pub fn has_accelerator(&self) -> (b: bool)
        ensures
            b == (self.accelerators@.len() > 0),
    {
        self.accelerators.len() != 0
    }

    /// Whether the profile supports the given precision.
    pub fn supports_precision(&self, p: Precision) -> (b: bool)
        ensures
            b == supports(*self, p),
    {
        match p {
            Precision::FP32 => self.supports_fp32,
            Precision::FP16 => self.supports_fp16,
            Precision::INT8 => self.supports_int8,
            Precision::FP8 => self.supports_fp8,
        }
    }

    /// The best precision mode: FP16 where supported, else FP32.
    pub fn best_precision(&self) -> (p: Precision)
        ensures
            p == (if self.supports_fp16 {
                Precision::FP16
            } else {
                Precision::FP32
            }),
    {
        if self.supports_fp16 {
            Precision::FP16
        } else {
            Precision::FP32
        }
    }

    /// One-line description: vendor, device, accelerator count and the
    /// precision flags.
    pub fn to_string(&self) -> (s: String)
        ensures
            s@ == profile_text(*self),
    {
        let mut s = String::from_str("HardwareProfile { vendor: ");
        push_str(&mut s, self.vendor.name());
        push_str(&mut s, ", device: ");
        push_str(&mut s, self.device_name.as_str());
        push_str(&mut s, ", accelerators: ");
        push_decimal(&mut s, self.accelerators.len() as u64);
        push_str(&mut s, ", fp32: ");
        push_str(&mut s, bool_str(self.supports_fp32));
        push_str(&mut s, ", fp16: ");
        push_str(&mut s, bool_str(self.supports_fp16));
        push_str(&mut s, ", int8: ");
        push_str(&mut s, bool_str(self.supports_int8));
        push_str(&mut s, ", fp8: ");
        push_str(&mut s, bool_str(self.supports_fp8));
        push_str(&mut s, " }");
        s
    }
}

/// The best precision a profile reports is one it supports whenever it
/// supports FP32 (every real profile does).
pub proof fn lemma_best_precision_supported(p: HardwareProfile)
    requires
        p.supports_fp32,
    ensures
        supports(
            p,
            if p.supports_fp16 {
                Precision::FP16
            } else {
                Precision::FP32
            },
        ),
{
}

} // verus!
