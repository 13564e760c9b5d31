//! Image formats: channel orders, channel data types, image kinds, and the
//! raw codes the native API knows them by.
use vstd::prelude::*;

verus! {

pub const CL_R: u32 = 0x10B0;
pub const CL_A: u32 = 0x10B1;
pub const CL_RG: u32 = 0x10B2;
pub const CL_RA: u32 = 0x10B3;
pub const CL_RGB: u32 = 0x10B4;
pub const CL_RGBA: u32 = 0x10B5;
pub const CL_BGRA: u32 = 0x10B6;
pub const CL_ARGB: u32 = 0x10B7;
pub const CL_INTENSITY: u32 = 0x10B8;
pub const CL_LUMINANCE: u32 = 0x10B9;
pub const CL_RX: u32 = 0x10BA;
pub const CL_RGX: u32 = 0x10BB;
pub const CL_RGBX: u32 = 0x10BC;
pub const CL_DEPTH: u32 = 0x10BD;
pub const CL_SRGB: u32 = 0x10BF;
pub const CL_SRGBX: u32 = 0x10C0;
pub const CL_SRGBA: u32 = 0x10C1;
pub const CL_ABGR: u32 = 0x10C3;

pub const CL_SNORM_INT8: u32 = 0x10D0;
pub const CL_SNORM_INT16: u32 = 0x10D1;
pub const CL_UNORM_INT8: u32 = 0x10D2;
pub const CL_UNORM_INT16: u32 = 0x10D3;
pub const CL_UNORM_SHORT_565: u32 = 0x10D4;
pub const CL_UNORM_SHORT_555: u32 = 0x10D5;
pub const CL_UNORM_INT_101010: u32 = 0x10D6;
pub const CL_SIGNED_INT8: u32 = 0x10D7;
pub const CL_SIGNED_INT16: u32 = 0x10D8;
pub const CL_SIGNED_INT32: u32 = 0x10D9;
pub const CL_UNSIGNED_INT8: u32 = 0x10DA;
pub const CL_UNSIGNED_INT16: u32 = 0x10DB;
pub const CL_UNSIGNED_INT32: u32 = 0x10DC;
pub const CL_HALF_FLOAT: u32 = 0x10DD;
pub const CL_FLOAT: u32 = 0x10DE;

pub const CL_MEM_OBJECT_IMAGE2D: u32 = 0x10F1;
pub const CL_MEM_OBJECT_IMAGE3D: u32 = 0x10F2;
pub const CL_MEM_OBJECT_IMAGE2D_ARRAY: u32 = 0x10F3;
pub const CL_MEM_OBJECT_IMAGE1D: u32 = 0x10F4;
pub const CL_MEM_OBJECT_IMAGE1D_ARRAY: u32 = 0x10F5;
pub const CL_MEM_OBJECT_IMAGE1D_BUFFER: u32 = 0x10F6;

/// How the channels of a pixel are laid out. Codes outside the mapping are
/// kept as `Unknown(code)`.
#[derive(Debug, Clone, Copy, PartialEq, Eq, Structural)]
#[allow(non_camel_case_types)]
pub enum ClImageChannelOrder {
    R,
    A,
    RG,
    RA,
    RGB,
    RGBA,
    BGRA,
    ARGB,
    ABGR,
    Intensity,
    Luminance,
    Rx,
    RGx,
    RGBx,
    Depth,
    sRGB,
    sRGBx,
    sRGBA,
    Unknown(u32),
}

/// The channel order a raw code stands for.
pub open spec fn channel_order_of(value: u32) -> ClImageChannelOrder {
    if value == CL_R {
        ClImageChannelOrder::R
    } else if value == CL_A {
        ClImageChannelOrder::A
    } else if value == CL_RG {
        ClImageChannelOrder::RG
    } else if value == CL_RA {
        ClImageChannelOrder::RA
    } else if value == CL_RGB {
        ClImageChannelOrder::RGB
    } else if value == CL_RGBA {
        ClImageChannelOrder::RGBA
    } else if value == CL_BGRA {
        ClImageChannelOrder::BGRA
    } else if value == CL_ARGB {
        ClImageChannelOrder::ARGB
    } else if value == CL_ABGR {
        ClImageChannelOrder::ABGR
    } else if value == CL_INTENSITY {
        ClImageChannelOrder::Intensity
    } else if value == CL_LUMINANCE {
        ClImageChannelOrder::Luminance
    } else if value == CL_RX {
        ClImageChannelOrder::Rx
    } else if value == CL_RGX {
        ClImageChannelOrder::RGx
    } else if value == CL_RGBX {
        ClImageChannelOrder::RGBx
    } else if value == CL_DEPTH {
        ClImageChannelOrder::Depth
    } else if value == CL_SRGB {
        ClImageChannelOrder::sRGB
    } else if value == CL_SRGBX {
        ClImageChannelOrder::sRGBx
    } else if value == CL_SRGBA {
        ClImageChannelOrder::sRGBA
    } else {
        ClImageChannelOrder::Unknown(value)
    }
}

/// The raw code a channel order is written as.
pub open spec fn channel_order_code(order: ClImageChannelOrder) -> u32 {
    match order {
        ClImageChannelOrder::R => CL_R,
        ClImageChannelOrder::A => CL_A,
        ClImageChannelOrder::RG => CL_RG,
        ClImageChannelOrder::RA => CL_RA,
        ClImageChannelOrder::RGB => CL_RGB,
        ClImageChannelOrder::RGBA => CL_RGBA,
        ClImageChannelOrder::BGRA => CL_BGRA,
        ClImageChannelOrder::ARGB => CL_ARGB,
        ClImageChannelOrder::ABGR => CL_ABGR,
        ClImageChannelOrder::Intensity => CL_INTENSITY,
        ClImageChannelOrder::Luminance => CL_LUMINANCE,
        ClImageChannelOrder::Rx => CL_RX,
        ClImageChannelOrder::RGx => CL_RGX,
        ClImageChannelOrder::RGBx => CL_RGBX,
        ClImageChannelOrder::Depth => CL_DEPTH,
        ClImageChannelOrder::sRGB => CL_SRGB,
        ClImageChannelOrder::sRGBx => CL_SRGBX,
        ClImageChannelOrder::sRGBA => CL_SRGBA,
        ClImageChannelOrder::Unknown(v) => v,
    }
}

impl ClImageChannelOrder {
    /// Reads a raw channel-order code, as `channel_order_of` says.
    pub fn from_raw(value: u32) -> (r: ClImageChannelOrder)
        ensures
            r == channel_order_of(value),
    {
        if value == CL_R {
            ClImageChannelOrder::R
        } else if value == CL_A {
            ClImageChannelOrder::A
        } else if value == CL_RG {
            ClImageChannelOrder::RG
        } else if value == CL_RA {
            ClImageChannelOrder::RA
        } else if value == CL_RGB {
            ClImageChannelOrder::RGB
        } else if value == CL_RGBA {
            ClImageChannelOrder::RGBA
        } else if value == CL_BGRA {
            ClImageChannelOrder::BGRA
        } else if value == CL_ARGB {
            ClImageChannelOrder::ARGB
        } else if value == CL_ABGR {
            ClImageChannelOrder::ABGR
        } else if value == CL_INTENSITY {
            ClImageChannelOrder::Intensity
        } else if value == CL_LUMINANCE {
            ClImageChannelOrder::Luminance
        } else if value == CL_RX {
            ClImageChannelOrder::Rx
        } else if value == CL_RGX {
            ClImageChannelOrder::RGx
        } else if value == CL_RGBX {
            ClImageChannelOrder::RGBx
        } else if value == CL_DEPTH {
            ClImageChannelOrder::Depth
        } else if value == CL_SRGB {
            ClImageChannelOrder::sRGB
        } else if value == CL_SRGBX {
            ClImageChannelOrder::sRGBx
        } else if value == CL_SRGBA {
            ClImageChannelOrder::sRGBA
        } else {
            ClImageChannelOrder::Unknown(value)
        }
    }

    /// Writes this channel order as its raw code, as `channel_order_code`
    /// says.
    pub fn as_raw(&self) -> (r: u32)
        ensures
            r == channel_order_code(*self),
    {
        match self {
            ClImageChannelOrder::R => CL_R,
            ClImageChannelOrder::A => CL_A,
            ClImageChannelOrder::RG => CL_RG,
            ClImageChannelOrder::RA => CL_RA,
            ClImageChannelOrder::RGB => CL_RGB,
            ClImageChannelOrder::RGBA => CL_RGBA,
            ClImageChannelOrder::BGRA => CL_BGRA,
            ClImageChannelOrder::ARGB => CL_ARGB,
            ClImageChannelOrder::ABGR => CL_ABGR,
            ClImageChannelOrder::Intensity => CL_INTENSITY,
            ClImageChannelOrder::Luminance => CL_LUMINANCE,
            ClImageChannelOrder::Rx => CL_RX,
            ClImageChannelOrder::RGx => CL_RGX,
            ClImageChannelOrder::RGBx => CL_RGBX,
            ClImageChannelOrder::Depth => CL_DEPTH,
            ClImageChannelOrder::sRGB => CL_SRGB,
            ClImageChannelOrder::sRGBx => CL_SRGBX,
            ClImageChannelOrder::sRGBA => CL_SRGBA,
            ClImageChannelOrder::Unknown(v) => *v,
        }
    }
}

/// Reading a raw channel-order code and writing it back round-trips.
pub proof fn lemma_channel_order_round_trip(value: u32)
    ensures
        channel_order_code(channel_order_of(value)) == value,
{
}

/// How each channel of a pixel is stored. Codes outside the mapping are
/// kept as `Unknown(code)`.
#[derive(Debug, Clone, Copy, PartialEq, Eq, Structural)]
pub enum ClImageChannelType {
    SnormInt8,
    SnormInt16,
    UnormInt8,
    UnormInt16,
    UnormShort565,
    UnormShort555,
    UnormInt101010,
    SignedInt8,
    SignedInt16,
    SignedInt32,
    UnsignedInt8,
    UnsignedInt16,
    UnsignedInt32,
    HalfFloat,
    Float,
    Unknown(u32),
}

/// The channel data type a raw code stands for.
pub open spec fn channel_type_of(value: u32) -> ClImageChannelType {
    if value == CL_SNORM_INT8 {
        ClImageChannelType::SnormInt8
    } else if value == CL_SNORM_INT16 {
        ClImageChannelType::SnormInt16
    } else if value == CL_UNORM_INT8 {
        ClImageChannelType::UnormInt8
    } else if value == CL_UNORM_INT16 {
        ClImageChannelType::UnormInt16
    } else if value == CL_UNORM_SHORT_565 {
        ClImageChannelType::UnormShort565
    } else if value == CL_UNORM_SHORT_555 {
        ClImageChannelType::UnormShort555
    } else if value == CL_UNORM_INT_101010 {
        ClImageChannelType::UnormInt101010
    } else if value == CL_SIGNED_INT8 {
        ClImageChannelType::SignedInt8
    } else if value == CL_SIGNED_INT16 {
        ClImageChannelType::SignedInt16
    } else if value == CL_SIGNED_INT32 {
        ClImageChannelType::SignedInt32
    } else if value == CL_UNSIGNED_INT8 {
        ClImageChannelType::UnsignedInt8
    } else if value == CL_UNSIGNED_INT16 {
        ClImageChannelType::UnsignedInt16
    } else if value == CL_UNSIGNED_INT32 {
        ClImageChannelType::UnsignedInt32
    } else if value == CL_HALF_FLOAT {
        ClImageChannelType::HalfFloat
    } else if value == CL_FLOAT {
        ClImageChannelType::Float
    } else {
        ClImageChannelType::Unknown(value)
    }
}

/// The raw code a channel data type is written as.
pub open spec fn channel_type_code(t: ClImageChannelType) -> u32 {
    match t {
        ClImageChannelType::SnormInt8 => CL_SNORM_INT8,
        ClImageChannelType::SnormInt16 => CL_SNORM_INT16,
        ClImageChannelType::UnormInt8 => CL_UNORM_INT8,
        ClImageChannelType::UnormInt16 => CL_UNORM_INT16,
        ClImageChannelType::UnormShort565 => CL_UNORM_SHORT_565,
        ClImageChannelType::UnormShort555 => CL_UNORM_SHORT_555,
        ClImageChannelType::UnormInt101010 => CL_UNORM_INT_101010,
        ClImageChannelType::SignedInt8 => CL_SIGNED_INT8,
        ClImageChannelType::SignedInt16 => CL_SIGNED_INT16,
        ClImageChannelType::SignedInt32 => CL_SIGNED_INT32,
        ClImageChannelType::UnsignedInt8 => CL_UNSIGNED_INT8,
        ClImageChannelType::UnsignedInt16 => CL_UNSIGNED_INT16,
        ClImageChannelType::UnsignedInt32 => CL_UNSIGNED_INT32,
        ClImageChannelType::HalfFloat => CL_HALF_FLOAT,
        ClImageChannelType::Float => CL_FLOAT,
        ClImageChannelType::Unknown(v) => v,
    }
}

impl ClImageChannelType {
    /// Reads a raw channel-type code, as `channel_type_of` says.
    pub fn from_raw(value: u32) -> (r: ClImageChannelType)
        ensures
            r == channel_type_of(value),
    {
        if value == CL_SNORM_INT8 {
            ClImageChannelType::SnormInt8
        } else if value == CL_SNORM_INT16 {
            ClImageChannelType::SnormInt16
        } else if value == CL_UNORM_INT8 {
            ClImageChannelType::UnormInt8
        } else if value == CL_UNORM_INT16 {
            ClImageChannelType::UnormInt16
        } else if value == CL_UNORM_SHORT_565 {
            ClImageChannelType::UnormShort565
        } else if value == CL_UNORM_SHORT_555 {
            ClImageChannelType::UnormShort555
        } else if value == CL_UNORM_INT_101010 {
            ClImageChannelType::UnormInt101010
        } else if value == CL_SIGNED_INT8 {
            ClImageChannelType::SignedInt8
        } else if value == CL_SIGNED_INT16 {
            ClImageChannelType::SignedInt16
        } else if value == CL_SIGNED_INT32 {
            ClImageChannelType::SignedInt32
        } else if value == CL_UNSIGNED_INT8 {
            ClImageChannelType::UnsignedInt8
        } else if value == CL_UNSIGNED_INT16 {
            ClImageChannelType::UnsignedInt16
        } else if value == CL_UNSIGNED_INT32 {
            ClImageChannelType::UnsignedInt32
        } else if value == CL_HALF_FLOAT {
            ClImageChannelType::HalfFloat
        } else if value == CL_FLOAT {
            ClImageChannelType::Float
        } else {
            ClImageChannelType::Unknown(value)
        }
    }

    /// Writes this channel data type as its raw code, as
    /// `channel_type_code` says.
    pub fn as_raw(&self) -> (r: u32)
        ensures
            r == channel_type_code(*self),
    {
        match self {
            ClImageChannelType::SnormInt8 => CL_SNORM_INT8,
            ClImageChannelType::SnormInt16 => CL_SNORM_INT16,
            ClImageChannelType::UnormInt8 => CL_UNORM_INT8,
            ClImageChannelType::UnormInt16 => CL_UNORM_INT16,
            ClImageChannelType::UnormShort565 => CL_UNORM_SHORT_565,
            ClImageChannelType::UnormShort555 => CL_UNORM_SHORT_555,
            ClImageChannelType::UnormInt101010 => CL_UNORM_INT_101010,
            ClImageChannelType::SignedInt8 => CL_SIGNED_INT8,
            ClImageChannelType::SignedInt16 => CL_SIGNED_INT16,
            ClImageChannelType::SignedInt32 => CL_SIGNED_INT32,
            ClImageChannelType::UnsignedInt8 => CL_UNSIGNED_INT8,
            ClImageChannelType::UnsignedInt16 => CL_UNSIGNED_INT16,
            ClImageChannelType::UnsignedInt32 => CL_UNSIGNED_INT32,
            ClImageChannelType::HalfFloat => CL_HALF_FLOAT,
            ClImageChannelType::Float => CL_FLOAT,
            ClImageChannelType::Unknown(v) => *v,
        }
    }
}

/// Reading a raw channel-type code and writing it back round-trips.
pub proof fn lemma_channel_type_round_trip(value: u32)
    ensures
        channel_type_code(channel_type_of(value)) == value,
{
}

/// A pixel format: the channel order together with the channel data type.
#[derive(Debug, Clone, Copy, PartialEq, Eq, Structural)]
pub struct ClImageFormats {
    pub image_channel_order: ClImageChannelOrder,
    pub image_channel_data_type: ClImageChannelType,
}

impl ClImageFormats {
    /// Four 8-bit normalized channels in RGBA order.
    pub fn rgba_unorm_int8() -> (r: ClImageFormats)
        ensures
            r.image_channel_order == ClImageChannelOrder::RGBA,
            r.image_channel_data_type == ClImageChannelType::UnormInt8,
    {
        ClImageFormats {
            image_channel_order: ClImageChannelOrder::RGBA,
            image_channel_data_type: ClImageChannelType::UnormInt8,
        }
    }

    /// Four floating-point channels in RGBA order.
    pub fn rgba_float() -> (r: ClImageFormats)
        ensures
            r.image_channel_order == ClImageChannelOrder::RGBA,
            r.image_channel_data_type == ClImageChannelType::Float,
    {
        ClImageFormats {
            image_channel_order: ClImageChannelOrder::RGBA,
            image_channel_data_type: ClImageChannelType::Float,
        }
    }
}

/// The kind of image object a descriptor asks for.
#[derive(Debug, Clone, Copy, PartialEq, Eq, Structural)]
pub enum ClImageType {
    Image1D,
    Image1DArray,
    Image1DBuffer,
    Image2D,
    Image2DArray,
    Image3D,
}

/// The raw code an image kind is written as.
pub open spec fn image_type_code(t: ClImageType) -> u32 {
    match t {
        ClImageType::Image1D => CL_MEM_OBJECT_IMAGE1D,
        ClImageType::Image1DArray => CL_MEM_OBJECT_IMAGE1D_ARRAY,
        ClImageType::Image1DBuffer => CL_MEM_OBJECT_IMAGE1D_BUFFER,
        ClImageType::Image2D => CL_MEM_OBJECT_IMAGE2D,
        ClImageType::Image2DArray => CL_MEM_OBJECT_IMAGE2D_ARRAY,
        ClImageType::Image3D => CL_MEM_OBJECT_IMAGE3D,
    }
}

impl ClImageType {
    /// Writes this image kind as its raw code, as `image_type_code` says.
    pub fn as_raw(&self) -> (r: u32)
        ensures
            r == image_type_code(*self),
    {
        match self {
            ClImageType::Image1D => CL_MEM_OBJECT_IMAGE1D,
            ClImageType::Image1DArray => CL_MEM_OBJECT_IMAGE1D_ARRAY,
            ClImageType::Image1DBuffer => CL_MEM_OBJECT_IMAGE1D_BUFFER,
            ClImageType::Image2D => CL_MEM_OBJECT_IMAGE2D,
            ClImageType::Image2DArray => CL_MEM_OBJECT_IMAGE2D_ARRAY,
            ClImageType::Image3D => CL_MEM_OBJECT_IMAGE3D,
        }
    }
}

} // verus!
