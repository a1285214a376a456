//! Pixel formats.

use vstd::prelude::*;

verus! {

/// The layout of the pixels of an image.
#[allow(non_camel_case_types)]
#[derive(Debug, Clone, Copy, PartialEq, Eq, Structural)]
pub enum Format {
    Undefined,
    R4g4UnormPack8,
    R4g4b4a4UnormPack16,
    B4g4r4a4UnormPack16,
    R5g6b5UnormPack16,
    B5g6r5UnormPack16,
    R5g5b5a1UnormPack16,
    B5g5r5a1UnormPack16,
    A1r5g5b5UnormPack16,
    R8Unorm,
    R8Snorm,
    R8Uscaled,
    R8Sscaled,
    R8Uint,
    R8Sint,
    R8Srgb,
    R8g8Unorm,
    R8g8Snorm,
    R8g8Uscaled,
    R8g8Sscaled,
    R8g8Uint,
    R8g8Sint,
    R8g8Srgb,
    R8g8b8Unorm,
    R8g8b8Snorm,
    R8g8b8Uscaled,
    R8g8b8Sscaled,
    R8g8b8Uint,
    R8g8b8Sint,
    R8g8b8Srgb,
    B8g8r8Unorm,
    B8g8r8Snorm,
    B8g8r8Uscaled,
    B8g8r8Sscaled,
    B8g8r8Uint,
    B8g8r8Sint,
    B8g8r8Srgb,
    R8g8b8a8Unorm,
    R8g8b8a8Snorm,
    R8g8b8a8Uscaled,
    R8g8b8a8Sscaled,
    R8g8b8a8Uint,
    R8g8b8a8Sint,
    R8g8b8a8Srgb,
    B8g8r8a8Unorm,
    B8g8r8a8Snorm,
    B8g8r8a8Uscaled,
    B8g8r8a8Sscaled,
    B8g8r8a8Uint,
    B8g8r8a8Sint,
    B8g8r8a8Srgb,
    A8b8g8r8UnormPack32,
    A8b8g8r8SnormPack32,
    A8b8g8r8UscaledPack32,
    A8b8g8r8SscaledPack32,
    A8b8g8r8UintPack32,
    A8b8g8r8SintPack32,
    A8b8g8r8SrgbPack32,
    A2r10g10b10UnormPack32,
    A2r10g10b10SnormPack32,
    A2r10g10b10UscaledPack32,
    A2r10g10b10SscaledPack32,
    A2r10g10b10UintPack32,
    A2r10g10b10SintPack32,
    A2b10g10r10UnormPack32,
    A2b10g10r10SnormPack32,
    A2b10g10r10UscaledPack32,
    A2b10g10r10SscaledPack32,
    A2b10g10r10UintPack32,
    A2b10g10r10SintPack32,
    R16Unorm,
    R16Snorm,
    R16Uscaled,
    R16Sscaled,
    R16Uint,
    R16Sint,
    R16Sfloat,
    R16g16Unorm,
    R16g16Snorm,
    R16g16Uscaled,
    R16g16Sscaled,
    R16g16Uint,
    R16g16Sint,
    R16g16Sfloat,
    R16g16b16Unorm,
    R16g16b16Snorm,
    R16g16b16Uscaled,
    R16g16b16Sscaled,
    R16g16b16Uint,
    R16g16b16Sint,
    R16g16b16Sfloat,
    R16g16b16a16Unorm,
    R16g16b16a16Snorm,
    R16g16b16a16Uscaled,
    R16g16b16a16Sscaled,
    R16g16b16a16Uint,
    R16g16b16a16Sint,
    R16g16b16a16Sfloat,
    R32Uint,
    R32Sint,
    R32Sfloat,
    R32g32Uint,
    R32g32Sint,
    R32g32Sfloat,
    R32g32b32Uint,
    R32g32b32Sint,
    R32g32b32Sfloat,
    R32g32b32a32Uint,
    R32g32b32a32Sint,
    R32g32b32a32Sfloat,
    R64Uint,
    R64Sint,
    R64Sfloat,
    R64g64Uint,
    R64g64Sint,
    R64g64Sfloat,
    R64g64b64Uint,
    R64g64b64Sint,
    R64g64b64Sfloat,
    R64g64b64a64Uint,
    R64g64b64a64Sint,
    R64g64b64a64Sfloat,
    B10g11r11UfloatPack32,
    E5b9g9r9UfloatPack32,
    D16Unorm,
    X8D24UnormPack32,
    D32Sfloat,
    S8Uint,
    D16UnormS8Uint,
    D24UnormS8Uint,
    D32SfloatS8Uint,
    Bc1RgbUnormBlock,
    Bc1RgbSrgbBlock,
    Bc1RgbaUnormBlock,
    Bc1RgbaSrgbBlock,
    Bc2UnormBlock,
    Bc2SrgbBlock,
    Bc3UnormBlock,
    Bc3SrgbBlock,
    Bc4UnormBlock,
    Bc4SnormBlock,
    Bc5UnormBlock,
    Bc5SnormBlock,
    Bc6hUfloatBlock,
    Bc6hSfloatBlock,
    Bc7UnormBlock,
    Bc7SrgbBlock,
    Etc2R8g8b8UnormBlock,
    Etc2R8g8b8SrgbBlock,
    Etc2R8g8b8a1UnormBlock,
    Etc2R8g8b8a1SrgbBlock,
    Etc2R8g8b8a8UnormBlock,
    Etc2R8g8b8a8SrgbBlock,
    EacR11UnormBlock,
    EacR11SnormBlock,
    EacR11g11UnormBlock,
    EacR11g11SnormBlock,
    Astc4x4UnormBlock,
    Astc4x4SrgbBlock,
    Astc5x4UnormBlock,
    Astc5x4SrgbBlock,
    Astc5x5UnormBlock,
    Astc5x5SrgbBlock,
    Astc6x5UnormBlock,
    Astc6x5SrgbBlock,
    Astc6x6UnormBlock,
    Astc6x6SrgbBlock,
    Astc8x5UnormBlock,
    Astc8x5SrgbBlock,
    Astc8x6UnormBlock,
    Astc8x6SrgbBlock,
    Astc8x8UnormBlock,
    Astc8x8SrgbBlock,
    Astc10x5UnormBlock,
    Astc10x5SrgbBlock,
    Astc10x6UnormBlock,
    Astc10x6SrgbBlock,
    Astc10x8UnormBlock,
    Astc10x8SrgbBlock,
    Astc10x10UnormBlock,
    Astc10x10SrgbBlock,
    Astc12x10UnormBlock,
    Astc12x10SrgbBlock,
    Astc12x12UnormBlock,
    Astc12x12SrgbBlock,
    G8b8g8r8_422Unorm,
    B8g8r8g8_422Unorm,
    G8B8R8_3plane420Unorm,
    G8B8r8_2plane420Unorm,
    G8B8R8_3plane422Unorm,
    G8B8r8_2plane422Unorm,
    G8B8R8_3plane444Unorm,
    R10x6UnormPack16,
    R10x6g10x6Unorm2pack16,
    R10x6g10x6b10x6a10x6Unorm4pack16,
    G10x6b10x6g10x6r10x6_422Unorm4pack16,
    B10x6g10x6r10x6g10x6_422Unorm4pack16,
    G10x6B10x6R10x6_3plane420Unorm3pack16,
    G10x6B10x6r10x6_2plane420Unorm3pack16,
    G10x6B10x6R10x6_3plane422Unorm3pack16,
    G10x6B10x6r10x6_2plane422Unorm3pack16,
    G10x6B10x6R10x6_3plane444Unorm3pack16,
    R12x4UnormPack16,
    R12x4g12x4Unorm2pack16,
    R12x4g12x4b12x4a12x4Unorm4pack16,
    G12x4b12x4g12x4r12x4_422Unorm4pack16,
    B12x4g12x4r12x4g12x4_422Unorm4pack16,
    G12x4B12x4R12x4_3plane420Unorm3pack16,
    G12x4B12x4r12x4_2plane420Unorm3pack16,
    G12x4B12x4R12x4_3plane422Unorm3pack16,
    G12x4B12x4r12x4_2plane422Unorm3pack16,
    G12x4B12x4R12x4_3plane444Unorm3pack16,
    G16b16g16r16_422Unorm,
    B16g16r16g16_422Unorm,
    G16B16R16_3plane420Unorm,
    G16B16r16_2plane420Unorm,
    G16B16R16_3plane422Unorm,
    G16B16r16_2plane422Unorm,
    G16B16R16_3plane444Unorm,
    Pvrtc1_2bppUnormBlockImg,
    Pvrtc1_4bppUnormBlockImg,
    Pvrtc2_2bppUnormBlockImg,
    Pvrtc2_4bppUnormBlockImg,
    Pvrtc1_2bppSrgbBlockImg,
    Pvrtc1_4bppSrgbBlockImg,
    Pvrtc2_2bppSrgbBlockImg,
    Pvrtc2_4bppSrgbBlockImg,
    Astc4x4SfloatBlockExt,
    Astc5x4SfloatBlockExt,
    Astc5x5SfloatBlockExt,
    Astc6x5SfloatBlockExt,
    Astc6x6SfloatBlockExt,
    Astc8x5SfloatBlockExt,
    Astc8x6SfloatBlockExt,
    Astc8x8SfloatBlockExt,
    Astc10x5SfloatBlockExt,
    Astc10x6SfloatBlockExt,
    Astc10x8SfloatBlockExt,
    Astc10x10SfloatBlockExt,
    Astc12x10SfloatBlockExt,
    Astc12x12SfloatBlockExt,
    G8B8r8_2plane444UnormExt,
    G10x6B10x6r10x6_2plane444Unorm3pack16Ext,
    G12x4B12x4r12x4_2plane444Unorm3pack16Ext,
    G16B16r16_2plane444UnormExt,
    A4r4g4b4UnormPack16Ext,
    A4b4g4r4UnormPack16Ext,
}

impl Format {
    /// The integer the native layer reads for this format.
    pub open spec fn spec_raw(self) -> i32 {
        match self {
            Format::Undefined => 0,
            Format::R4g4UnormPack8 => 1,
            Format::R4g4b4a4UnormPack16 => 2,
            Format::B4g4r4a4UnormPack16 => 3,
            Format::R5g6b5UnormPack16 => 4,
            Format::B5g6r5UnormPack16 => 5,
            Format::R5g5b5a1UnormPack16 => 6,
            Format::B5g5r5a1UnormPack16 => 7,
            Format::A1r5g5b5UnormPack16 => 8,
            Format::R8Unorm => 9,
            Format::R8Snorm => 10,
            Format::R8Uscaled => 11,
            Format::R8Sscaled => 12,
            Format::R8Uint => 13,
            Format::R8Sint => 14,
            Format::R8Srgb => 15,
            Format::R8g8Unorm => 16,
            Format::R8g8Snorm => 17,
            Format::R8g8Uscaled => 18,
            Format::R8g8Sscaled => 19,
            Format::R8g8Uint => 20,
            Format::R8g8Sint => 21,
            Format::R8g8Srgb => 22,
            Format::R8g8b8Unorm => 23,
            Format::R8g8b8Snorm => 24,
            Format::R8g8b8Uscaled => 25,
            Format::R8g8b8Sscaled => 26,
            Format::R8g8b8Uint => 27,
            Format::R8g8b8Sint => 28,
            Format::R8g8b8Srgb => 29,
            Format::B8g8r8Unorm => 30,
            Format::B8g8r8Snorm => 31,
            Format::B8g8r8Uscaled => 32,
            Format::B8g8r8Sscaled => 33,
            Format::B8g8r8Uint => 34,
            Format::B8g8r8Sint => 35,
            Format::B8g8r8Srgb => 36,
            Format::R8g8b8a8Unorm => 37,
            Format::R8g8b8a8Snorm => 38,
            Format::R8g8b8a8Uscaled => 39,
            Format::R8g8b8a8Sscaled => 40,
            Format::R8g8b8a8Uint => 41,
            Format::R8g8b8a8Sint => 42,
            Format::R8g8b8a8Srgb => 43,
            Format::B8g8r8a8Unorm => 44,
            Format::B8g8r8a8Snorm => 45,
            Format::B8g8r8a8Uscaled => 46,
            Format::B8g8r8a8Sscaled => 47,
            Format::B8g8r8a8Uint => 48,
            Format::B8g8r8a8Sint => 49,
            Format::B8g8r8a8Srgb => 50,
            Format::A8b8g8r8UnormPack32 => 51,
            Format::A8b8g8r8SnormPack32 => 52,
            Format::A8b8g8r8UscaledPack32 => 53,
            Format::A8b8g8r8SscaledPack32 => 54,
            Format::A8b8g8r8UintPack32 => 55,
            Format::A8b8g8r8SintPack32 => 56,
            Format::A8b8g8r8SrgbPack32 => 57,
            Format::A2r10g10b10UnormPack32 => 58,
            Format::A2r10g10b10SnormPack32 => 59,
            Format::A2r10g10b10UscaledPack32 => 60,
            Format::A2r10g10b10SscaledPack32 => 61,
            Format::A2r10g10b10UintPack32 => 62,
            Format::A2r10g10b10SintPack32 => 63,
            Format::A2b10g10r10UnormPack32 => 64,
            Format::A2b10g10r10SnormPack32 => 65,
            Format::A2b10g10r10UscaledPack32 => 66,
            Format::A2b10g10r10SscaledPack32 => 67,
            Format::A2b10g10r10UintPack32 => 68,
            Format::A2b10g10r10SintPack32 => 69,
            Format::R16Unorm => 70,
            Format::R16Snorm => 71,
            Format::R16Uscaled => 72,
            Format::R16Sscaled => 73,
            Format::R16Uint => 74,
            Format::R16Sint => 75,
            Format::R16Sfloat => 76,
            Format::R16g16Unorm => 77,
            Format::R16g16Snorm => 78,
            Format::R16g16Uscaled => 79,
            Format::R16g16Sscaled => 80,
            Format::R16g16Uint => 81,
            Format::R16g16Sint => 82,
            Format::R16g16Sfloat => 83,
            Format::R16g16b16Unorm => 84,
            Format::R16g16b16Snorm => 85,
            Format::R16g16b16Uscaled => 86,
            Format::R16g16b16Sscaled => 87,
            Format::R16g16b16Uint => 88,
            Format::R16g16b16Sint => 89,
            Format::R16g16b16Sfloat => 90,
            Format::R16g16b16a16Unorm => 91,
            Format::R16g16b16a16Snorm => 92,
            Format::R16g16b16a16Uscaled => 93,
            Format::R16g16b16a16Sscaled => 94,
            Format::R16g16b16a16Uint => 95,
            Format::R16g16b16a16Sint => 96,
            Format::R16g16b16a16Sfloat => 97,
            Format::R32Uint => 98,
            Format::R32Sint => 99,
            Format::R32Sfloat => 100,
            Format::R32g32Uint => 101,
            Format::R32g32Sint => 102,
            Format::R32g32Sfloat => 103,
            Format::R32g32b32Uint => 104,
            Format::R32g32b32Sint => 105,
            Format::R32g32b32Sfloat => 106,
            Format::R32g32b32a32Uint => 107,
            Format::R32g32b32a32Sint => 108,
            Format::R32g32b32a32Sfloat => 109,
            Format::R64Uint => 110,
            Format::R64Sint => 111,
            Format::R64Sfloat => 112,
            Format::R64g64Uint => 113,
            Format::R64g64Sint => 114,
            Format::R64g64Sfloat => 115,
            Format::R64g64b64Uint => 116,
            Format::R64g64b64Sint => 117,
            Format::R64g64b64Sfloat => 118,
            Format::R64g64b64a64Uint => 119,
            Format::R64g64b64a64Sint => 120,
            Format::R64g64b64a64Sfloat => 121,
            Format::B10g11r11UfloatPack32 => 122,
            Format::E5b9g9r9UfloatPack32 => 123,
            Format::D16Unorm => 124,
            Format::X8D24UnormPack32 => 125,
            Format::D32Sfloat => 126,
            Format::S8Uint => 127,
            Format::D16UnormS8Uint => 128,
            Format::D24UnormS8Uint => 129,
            Format::D32SfloatS8Uint => 130,
            Format::Bc1RgbUnormBlock => 131,
            Format::Bc1RgbSrgbBlock => 132,
            Format::Bc1RgbaUnormBlock => 133,
            Format::Bc1RgbaSrgbBlock => 134,
            Format::Bc2UnormBlock => 135,
            Format::Bc2SrgbBlock => 136,
            Format::Bc3UnormBlock => 137,
            Format::Bc3SrgbBlock => 138,
            Format::Bc4UnormBlock => 139,
            Format::Bc4SnormBlock => 140,
            Format::Bc5UnormBlock => 141,
            Format::Bc5SnormBlock => 142,
            Format::Bc6hUfloatBlock => 143,
            Format::Bc6hSfloatBlock => 144,
            Format::Bc7UnormBlock => 145,
            Format::Bc7SrgbBlock => 146,
            Format::Etc2R8g8b8UnormBlock => 147,
            Format::Etc2R8g8b8SrgbBlock => 148,
            Format::Etc2R8g8b8a1UnormBlock => 149,
            Format::Etc2R8g8b8a1SrgbBlock => 150,
            Format::Etc2R8g8b8a8UnormBlock => 151,
            Format::Etc2R8g8b8a8SrgbBlock => 152,
            Format::EacR11UnormBlock => 153,
            Format::EacR11SnormBlock => 154,
            Format::EacR11g11UnormBlock => 155,
            Format::EacR11g11SnormBlock => 156,
            Format::Astc4x4UnormBlock => 157,
            Format::Astc4x4SrgbBlock => 158,
            Format::Astc5x4UnormBlock => 159,
            Format::Astc5x4SrgbBlock => 160,
            Format::Astc5x5UnormBlock => 161,
            Format::Astc5x5SrgbBlock => 162,
            Format::Astc6x5UnormBlock => 163,
            Format::Astc6x5SrgbBlock => 164,
            Format::Astc6x6UnormBlock => 165,
            Format::Astc6x6SrgbBlock => 166,
            Format::Astc8x5UnormBlock => 167,
            Format::Astc8x5SrgbBlock => 168,
            Format::Astc8x6UnormBlock => 169,
            Format::Astc8x6SrgbBlock => 170,
            Format::Astc8x8UnormBlock => 171,
            Format::Astc8x8SrgbBlock => 172,
            Format::Astc10x5UnormBlock => 173,
            Format::Astc10x5SrgbBlock => 174,
            Format::Astc10x6UnormBlock => 175,
            Format::Astc10x6SrgbBlock => 176,
            Format::Astc10x8UnormBlock => 177,
            Format::Astc10x8SrgbBlock => 178,
            Format::Astc10x10UnormBlock => 179,
            Format::Astc10x10SrgbBlock => 180,
            Format::Astc12x10UnormBlock => 181,
            Format::Astc12x10SrgbBlock => 182,
            Format::Astc12x12UnormBlock => 183,
            Format::Astc12x12SrgbBlock => 184,
            Format::G8b8g8r8_422Unorm => 1000156000,
            Format::B8g8r8g8_422Unorm => 1000156001,
            Format::G8B8R8_3plane420Unorm => 1000156002,
            Format::G8B8r8_2plane420Unorm => 1000156003,
            Format::G8B8R8_3plane422Unorm => 1000156004,
            Format::G8B8r8_2plane422Unorm => 1000156005,
            Format::G8B8R8_3plane444Unorm => 1000156006,
            Format::R10x6UnormPack16 => 1000156007,
            Format::R10x6g10x6Unorm2pack16 => 1000156008,
            Format::R10x6g10x6b10x6a10x6Unorm4pack16 => 1000156009,
            Format::G10x6b10x6g10x6r10x6_422Unorm4pack16 => 1000156010,
            Format::B10x6g10x6r10x6g10x6_422Unorm4pack16 => 1000156011,
            Format::G10x6B10x6R10x6_3plane420Unorm3pack16 => 1000156012,
            Format::G10x6B10x6r10x6_2plane420Unorm3pack16 => 1000156013,
            Format::G10x6B10x6R10x6_3plane422Unorm3pack16 => 1000156014,
            Format::G10x6B10x6r10x6_2plane422Unorm3pack16 => 1000156015,
            Format::G10x6B10x6R10x6_3plane444Unorm3pack16 => 1000156016,
            Format::R12x4UnormPack16 => 1000156017,
            Format::R12x4g12x4Unorm2pack16 => 1000156018,
            Format::R12x4g12x4b12x4a12x4Unorm4pack16 => 1000156019,
            Format::G12x4b12x4g12x4r12x4_422Unorm4pack16 => 1000156020,
            Format::B12x4g12x4r12x4g12x4_422Unorm4pack16 => 1000156021,
            Format::G12x4B12x4R12x4_3plane420Unorm3pack16 => 1000156022,
            Format::G12x4B12x4r12x4_2plane420Unorm3pack16 => 1000156023,
            Format::G12x4B12x4R12x4_3plane422Unorm3pack16 => 1000156024,
            Format::G12x4B12x4r12x4_2plane422Unorm3pack16 => 1000156025,
            Format::G12x4B12x4R12x4_3plane444Unorm3pack16 => 1000156026,
            Format::G16b16g16r16_422Unorm => 1000156027,
            Format::B16g16r16g16_422Unorm => 1000156028,
            Format::G16B16R16_3plane420Unorm => 1000156029,
            Format::G16B16r16_2plane420Unorm => 1000156030,
            Format::G16B16R16_3plane422Unorm => 1000156031,
            Format::G16B16r16_2plane422Unorm => 1000156032,
            Format::G16B16R16_3plane444Unorm => 1000156033,
            Format::Pvrtc1_2bppUnormBlockImg => 1000054000,
            Format::Pvrtc1_4bppUnormBlockImg => 1000054001,
            Format::Pvrtc2_2bppUnormBlockImg => 1000054002,
            Format::Pvrtc2_4bppUnormBlockImg => 1000054003,
            Format::Pvrtc1_2bppSrgbBlockImg => 1000054004,
            Format::Pvrtc1_4bppSrgbBlockImg => 1000054005,
            Format::Pvrtc2_2bppSrgbBlockImg => 1000054006,
            Format::Pvrtc2_4bppSrgbBlockImg => 1000054007,
            Format::Astc4x4SfloatBlockExt => 1000066000,
            Format::Astc5x4SfloatBlockExt => 1000066001,
            Format::Astc5x5SfloatBlockExt => 1000066002,
            Format::Astc6x5SfloatBlockExt => 1000066003,
            Format::Astc6x6SfloatBlockExt => 1000066004,
            Format::Astc8x5SfloatBlockExt => 1000066005,
            Format::Astc8x6SfloatBlockExt => 1000066006,
            Format::Astc8x8SfloatBlockExt => 1000066007,
            Format::Astc10x5SfloatBlockExt => 1000066008,
            Format::Astc10x6SfloatBlockExt => 1000066009,
            Format::Astc10x8SfloatBlockExt => 1000066010,
            Format::Astc10x10SfloatBlockExt => 1000066011,
            Format::Astc12x10SfloatBlockExt => 1000066012,
            Format::Astc12x12SfloatBlockExt => 1000066013,
            Format::G8B8r8_2plane444UnormExt => 1000330000,
            Format::G10x6B10x6r10x6_2plane444Unorm3pack16Ext => 1000330001,
            Format::G12x4B12x4r12x4_2plane444Unorm3pack16Ext => 1000330002,
            Format::G16B16r16_2plane444UnormExt => 1000330003,
            Format::A4r4g4b4UnormPack16Ext => 1000340000,
            Format::A4b4g4r4UnormPack16Ext => 1000340001,
        }
    }

    /// The format that the native layer writes as `raw`, if there is one.
    pub open spec fn spec_from_raw(raw: i32) -> Option<Format> {
        match raw {
            0 => Some(Format::Undefined),
            1 => Some(Format::R4g4UnormPack8),
            2 => Some(Format::R4g4b4a4UnormPack16),
            3 => Some(Format::B4g4r4a4UnormPack16),
            4 => Some(Format::R5g6b5UnormPack16),
            5 => Some(Format::B5g6r5UnormPack16),
            6 => Some(Format::R5g5b5a1UnormPack16),
            7 => Some(Format::B5g5r5a1UnormPack16),
            8 => Some(Format::A1r5g5b5UnormPack16),
            9 => Some(Format::R8Unorm),
            10 => Some(Format::R8Snorm),
            11 => Some(Format::R8Uscaled),
            12 => Some(Format::R8Sscaled),
            13 => Some(Format::R8Uint),
            14 => Some(Format::R8Sint),
            15 => Some(Format::R8Srgb),
            16 => Some(Format::R8g8Unorm),
            17 => Some(Format::R8g8Snorm),
            18 => Some(Format::R8g8Uscaled),
            19 => Some(Format::R8g8Sscaled),
            20 => Some(Format::R8g8Uint),
            21 => Some(Format::R8g8Sint),
            22 => Some(Format::R8g8Srgb),
            23 => Some(Format::R8g8b8Unorm),
            24 => Some(Format::R8g8b8Snorm),
            25 => Some(Format::R8g8b8Uscaled),
            26 => Some(Format::R8g8b8Sscaled),
            27 => Some(Format::R8g8b8Uint),
            28 => Some(Format::R8g8b8Sint),
            29 => Some(Format::R8g8b8Srgb),
            30 => Some(Format::B8g8r8Unorm),
            31 => Some(Format::B8g8r8Snorm),
            32 => Some(Format::B8g8r8Uscaled),
            33 => Some(Format::B8g8r8Sscaled),
            34 => Some(Format::B8g8r8Uint),
            35 => Some(Format::B8g8r8Sint),
            36 => Some(Format::B8g8r8Srgb),
            37 => Some(Format::R8g8b8a8Unorm),
            38 => Some(Format::R8g8b8a8Snorm),
            39 => Some(Format::R8g8b8a8Uscaled),
            40 => Some(Format::R8g8b8a8Sscaled),
            41 => Some(Format::R8g8b8a8Uint),
            42 => Some(Format::R8g8b8a8Sint),
            43 => Some(Format::R8g8b8a8Srgb),
            44 => Some(Format::B8g8r8a8Unorm),
            45 => Some(Format::B8g8r8a8Snorm),
            46 => Some(Format::B8g8r8a8Uscaled),
            47 => Some(Format::B8g8r8a8Sscaled),
            48 => Some(Format::B8g8r8a8Uint),
            49 => Some(Format::B8g8r8a8Sint),
            50 => Some(Format::B8g8r8a8Srgb),
            51 => Some(Format::A8b8g8r8UnormPack32),
            52 => Some(Format::A8b8g8r8SnormPack32),
            53 => Some(Format::A8b8g8r8UscaledPack32),
            54 => Some(Format::A8b8g8r8SscaledPack32),
            55 => Some(Format::A8b8g8r8UintPack32),
            56 => Some(Format::A8b8g8r8SintPack32),
            57 => Some(Format::A8b8g8r8SrgbPack32),
            58 => Some(Format::A2r10g10b10UnormPack32),
            59 => Some(Format::A2r10g10b10SnormPack32),
            60 => Some(Format::A2r10g10b10UscaledPack32),
            61 => Some(Format::A2r10g10b10SscaledPack32),
            62 => Some(Format::A2r10g10b10UintPack32),
            63 => Some(Format::A2r10g10b10SintPack32),
            64 => Some(Format::A2b10g10r10UnormPack32),
            65 => Some(Format::A2b10g10r10SnormPack32),
            66 => Some(Format::A2b10g10r10UscaledPack32),
            67 => Some(Format::A2b10g10r10SscaledPack32),
            68 => Some(Format::A2b10g10r10UintPack32),
            69 => Some(Format::A2b10g10r10SintPack32),
            70 => Some(Format::R16Unorm),
            71 => Some(Format::R16Snorm),
            72 => Some(Format::R16Uscaled),
            73 => Some(Format::R16Sscaled),
            74 => Some(Format::R16Uint),
            75 => Some(Format::R16Sint),
            76 => Some(Format::R16Sfloat),
            77 => Some(Format::R16g16Unorm),
            78 => Some(Format::R16g16Snorm),
            79 => Some(Format::R16g16Uscaled),
            80 => Some(Format::R16g16Sscaled),
            81 => Some(Format::R16g16Uint),
            82 => Some(Format::R16g16Sint),
            83 => Some(Format::R16g16Sfloat),
            84 => Some(Format::R16g16b16Unorm),
            85 => Some(Format::R16g16b16Snorm),
            86 => Some(Format::R16g16b16Uscaled),
            87 => Some(Format::R16g16b16Sscaled),
            88 => Some(Format::R16g16b16Uint),
            89 => Some(Format::R16g16b16Sint),
            90 => Some(Format::R16g16b16Sfloat),
            91 => Some(Format::R16g16b16a16Unorm),
            92 => Some(Format::R16g16b16a16Snorm),
            93 => Some(Format::R16g16b16a16Uscaled),
            94 => Some(Format::R16g16b16a16Sscaled),
            95 => Some(Format::R16g16b16a16Uint),
            96 => Some(Format::R16g16b16a16Sint),
            97 => Some(Format::R16g16b16a16Sfloat),
            98 => Some(Format::R32Uint),
            99 => Some(Format::R32Sint),
            100 => Some(Format::R32Sfloat),
            101 => Some(Format::R32g32Uint),
            102 => Some(Format::R32g32Sint),
            103 => Some(Format::R32g32Sfloat),
            104 => Some(Format::R32g32b32Uint),
            105 => Some(Format::R32g32b32Sint),
            106 => Some(Format::R32g32b32Sfloat),
            107 => Some(Format::R32g32b32a32Uint),
            108 => Some(Format::R32g32b32a32Sint),
            109 => Some(Format::R32g32b32a32Sfloat),
            110 => Some(Format::R64Uint),
            111 => Some(Format::R64Sint),
            112 => Some(Format::R64Sfloat),
            113 => Some(Format::R64g64Uint),
            114 => Some(Format::R64g64Sint),
            115 => Some(Format::R64g64Sfloat),
            116 => Some(Format::R64g64b64Uint),
            117 => Some(Format::R64g64b64Sint),
            118 => Some(Format::R64g64b64Sfloat),
            119 => Some(Format::R64g64b64a64Uint),
            120 => Some(Format::R64g64b64a64Sint),
            121 => Some(Format::R64g64b64a64Sfloat),
            122 => Some(Format::B10g11r11UfloatPack32),
            123 => Some(Format::E5b9g9r9UfloatPack32),
            124 => Some(Format::D16Unorm),
            125 => Some(Format::X8D24UnormPack32),
            126 => Some(Format::D32Sfloat),
            127 => Some(Format::S8Uint),
            128 => Some(Format::D16UnormS8Uint),
            129 => Some(Format::D24UnormS8Uint),
            130 => Some(Format::D32SfloatS8Uint),
            131 => Some(Format::Bc1RgbUnormBlock),
            132 => Some(Format::Bc1RgbSrgbBlock),
            133 => Some(Format::Bc1RgbaUnormBlock),
            134 => Some(Format::Bc1RgbaSrgbBlock),
            135 => Some(Format::Bc2UnormBlock),
            136 => Some(Format::Bc2SrgbBlock),
            137 => Some(Format::Bc3UnormBlock),
            138 => Some(Format::Bc3SrgbBlock),
            139 => Some(Format::Bc4UnormBlock),
            140 => Some(Format::Bc4SnormBlock),
            141 => Some(Format::Bc5UnormBlock),
            142 => Some(Format::Bc5SnormBlock),
            143 => Some(Format::Bc6hUfloatBlock),
            144 => Some(Format::Bc6hSfloatBlock),
            145 => Some(Format::Bc7UnormBlock),
            146 => Some(Format::Bc7SrgbBlock),
            147 => Some(Format::Etc2R8g8b8UnormBlock),
            148 => Some(Format::Etc2R8g8b8SrgbBlock),
            149 => Some(Format::Etc2R8g8b8a1UnormBlock),
            150 => Some(Format::Etc2R8g8b8a1SrgbBlock),
            151 => Some(Format::Etc2R8g8b8a8UnormBlock),
            152 => Some(Format::Etc2R8g8b8a8SrgbBlock),
            153 => Some(Format::EacR11UnormBlock),
            154 => Some(Format::EacR11SnormBlock),
            155 => Some(Format::EacR11g11UnormBlock),
            156 => Some(Format::EacR11g11SnormBlock),
            157 => Some(Format::Astc4x4UnormBlock),
            158 => Some(Format::Astc4x4SrgbBlock),
            159 => Some(Format::Astc5x4UnormBlock),
            160 => Some(Format::Astc5x4SrgbBlock),
            161 => Some(Format::Astc5x5UnormBlock),
            162 => Some(Format::Astc5x5SrgbBlock),
            163 => Some(Format::Astc6x5UnormBlock),
            164 => Some(Format::Astc6x5SrgbBlock),
            165 => Some(Format::Astc6x6UnormBlock),
            166 => Some(Format::Astc6x6SrgbBlock),
            167 => Some(Format::Astc8x5UnormBlock),
            168 => Some(Format::Astc8x5SrgbBlock),
            169 => Some(Format::Astc8x6UnormBlock),
            170 => Some(Format::Astc8x6SrgbBlock),
            171 => Some(Format::Astc8x8UnormBlock),
            172 => Some(Format::Astc8x8SrgbBlock),
            173 => Some(Format::Astc10x5UnormBlock),
            174 => Some(Format::Astc10x5SrgbBlock),
            175 => Some(Format::Astc10x6UnormBlock),
            176 => Some(Format::Astc10x6SrgbBlock),
            177 => Some(Format::Astc10x8UnormBlock),
            178 => Some(Format::Astc10x8SrgbBlock),
            179 => Some(Format::Astc10x10UnormBlock),
            180 => Some(Format::Astc10x10SrgbBlock),
            181 => Some(Format::Astc12x10UnormBlock),
            182 => Some(Format::Astc12x10SrgbBlock),
            183 => Some(Format::Astc12x12UnormBlock),
            184 => Some(Format::Astc12x12SrgbBlock),
            1000156000 => Some(Format::G8b8g8r8_422Unorm),
            1000156001 => Some(Format::B8g8r8g8_422Unorm),
            1000156002 => Some(Format::G8B8R8_3plane420Unorm),
            1000156003 => Some(Format::G8B8r8_2plane420Unorm),
            1000156004 => Some(Format::G8B8R8_3plane422Unorm),
            1000156005 => Some(Format::G8B8r8_2plane422Unorm),
            1000156006 => Some(Format::G8B8R8_3plane444Unorm),
            1000156007 => Some(Format::R10x6UnormPack16),
            1000156008 => Some(Format::R10x6g10x6Unorm2pack16),
            1000156009 => Some(Format::R10x6g10x6b10x6a10x6Unorm4pack16),
            1000156010 => Some(Format::G10x6b10x6g10x6r10x6_422Unorm4pack16),
            1000156011 => Some(Format::B10x6g10x6r10x6g10x6_422Unorm4pack16),
            1000156012 => Some(Format::G10x6B10x6R10x6_3plane420Unorm3pack16),
            1000156013 => Some(Format::G10x6B10x6r10x6_2plane420Unorm3pack16),
            1000156014 => Some(Format::G10x6B10x6R10x6_3plane422Unorm3pack16),
            1000156015 => Some(Format::G10x6B10x6r10x6_2plane422Unorm3pack16),
            1000156016 => Some(Format::G10x6B10x6R10x6_3plane444Unorm3pack16),
            1000156017 => Some(Format::R12x4UnormPack16),
            1000156018 => Some(Format::R12x4g12x4Unorm2pack16),
            1000156019 => Some(Format::R12x4g12x4b12x4a12x4Unorm4pack16),
            1000156020 => Some(Format::G12x4b12x4g12x4r12x4_422Unorm4pack16),
            1000156021 => Some(Format::B12x4g12x4r12x4g12x4_422Unorm4pack16),
            1000156022 => Some(Format::G12x4B12x4R12x4_3plane420Unorm3pack16),
            1000156023 => Some(Format::G12x4B12x4r12x4_2plane420Unorm3pack16),
            1000156024 => Some(Format::G12x4B12x4R12x4_3plane422Unorm3pack16),
            1000156025 => Some(Format::G12x4B12x4r12x4_2plane422Unorm3pack16),
            1000156026 => Some(Format::G12x4B12x4R12x4_3plane444Unorm3pack16),
            1000156027 => Some(Format::G16b16g16r16_422Unorm),
            1000156028 => Some(Format::B16g16r16g16_422Unorm),
            1000156029 => Some(Format::G16B16R16_3plane420Unorm),
            1000156030 => Some(Format::G16B16r16_2plane420Unorm),
            1000156031 => Some(Format::G16B16R16_3plane422Unorm),
            1000156032 => Some(Format::G16B16r16_2plane422Unorm),
            1000156033 => Some(Format::G16B16R16_3plane444Unorm),
            1000054000 => Some(Format::Pvrtc1_2bppUnormBlockImg),
            1000054001 => Some(Format::Pvrtc1_4bppUnormBlockImg),
            1000054002 => Some(Format::Pvrtc2_2bppUnormBlockImg),
            1000054003 => Some(Format::Pvrtc2_4bppUnormBlockImg),
            1000054004 => Some(Format::Pvrtc1_2bppSrgbBlockImg),
            1000054005 => Some(Format::Pvrtc1_4bppSrgbBlockImg),
            1000054006 => Some(Format::Pvrtc2_2bppSrgbBlockImg),
            1000054007 => Some(Format::Pvrtc2_4bppSrgbBlockImg),
            1000066000 => Some(Format::Astc4x4SfloatBlockExt),
            1000066001 => Some(Format::Astc5x4SfloatBlockExt),
            1000066002 => Some(Format::Astc5x5SfloatBlockExt),
            1000066003 => Some(Format::Astc6x5SfloatBlockExt),
            1000066004 => Some(Format::Astc6x6SfloatBlockExt),
            1000066005 => Some(Format::Astc8x5SfloatBlockExt),
            1000066006 => Some(Format::Astc8x6SfloatBlockExt),
            1000066007 => Some(Format::Astc8x8SfloatBlockExt),
            1000066008 => Some(Format::Astc10x5SfloatBlockExt),
            1000066009 => Some(Format::Astc10x6SfloatBlockExt),
            1000066010 => Some(Format::Astc10x8SfloatBlockExt),
            1000066011 => Some(Format::Astc10x10SfloatBlockExt),
            1000066012 => Some(Format::Astc12x10SfloatBlockExt),
            1000066013 => Some(Format::Astc12x12SfloatBlockExt),
            1000330000 => Some(Format::G8B8r8_2plane444UnormExt),
            1000330001 => Some(Format::G10x6B10x6r10x6_2plane444Unorm3pack16Ext),
            1000330002 => Some(Format::G12x4B12x4r12x4_2plane444Unorm3pack16Ext),
            1000330003 => Some(Format::G16B16r16_2plane444UnormExt),
            1000340000 => Some(Format::A4r4g4b4UnormPack16Ext),
            1000340001 => Some(Format::A4b4g4r4UnormPack16Ext),
            _ => None,
        }
    }

    pub fn raw(&self) -> (r: i32)
        ensures
            r == self.spec_raw(),
    {
        match self {
            Format::Undefined => 0,
            Format::R4g4UnormPack8 => 1,
            Format::R4g4b4a4UnormPack16 => 2,
            Format::B4g4r4a4UnormPack16 => 3,
            Format::R5g6b5UnormPack16 => 4,
            Format::B5g6r5UnormPack16 => 5,
            Format::R5g5b5a1UnormPack16 => 6,
            Format::B5g5r5a1UnormPack16 => 7,
            Format::A1r5g5b5UnormPack16 => 8,
            Format::R8Unorm => 9,
            Format::R8Snorm => 10,
            Format::R8Uscaled => 11,
            Format::R8Sscaled => 12,
            Format::R8Uint => 13,
            Format::R8Sint => 14,
            Format::R8Srgb => 15,
            Format::R8g8Unorm => 16,
            Format::R8g8Snorm => 17,
            Format::R8g8Uscaled => 18,
            Format::R8g8Sscaled => 19,
            Format::R8g8Uint => 20,
            Format::R8g8Sint => 21,
            Format::R8g8Srgb => 22,
            Format::R8g8b8Unorm => 23,
            Format::R8g8b8Snorm => 24,
            Format::R8g8b8Uscaled => 25,
            Format::R8g8b8Sscaled => 26,
            Format::R8g8b8Uint => 27,
            Format::R8g8b8Sint => 28,
            Format::R8g8b8Srgb => 29,
            Format::B8g8r8Unorm => 30,
            Format::B8g8r8Snorm => 31,
            Format::B8g8r8Uscaled => 32,
            Format::B8g8r8Sscaled => 33,
            Format::B8g8r8Uint => 34,
            Format::B8g8r8Sint => 35,
            Format::B8g8r8Srgb => 36,
            Format::R8g8b8a8Unorm => 37,
            Format::R8g8b8a8Snorm => 38,
            Format::R8g8b8a8Uscaled => 39,
            Format::R8g8b8a8Sscaled => 40,
            Format::R8g8b8a8Uint => 41,
            Format::R8g8b8a8Sint => 42,
            Format::R8g8b8a8Srgb => 43,
            Format::B8g8r8a8Unorm => 44,
            Format::B8g8r8a8Snorm => 45,
            Format::B8g8r8a8Uscaled => 46,
            Format::B8g8r8a8Sscaled => 47,
            Format::B8g8r8a8Uint => 48,
            Format::B8g8r8a8Sint => 49,
            Format::B8g8r8a8Srgb => 50,
            Format::A8b8g8r8UnormPack32 => 51,
            Format::A8b8g8r8SnormPack32 => 52,
            Format::A8b8g8r8UscaledPack32 => 53,
            Format::A8b8g8r8SscaledPack32 => 54,
            Format::A8b8g8r8UintPack32 => 55,
            Format::A8b8g8r8SintPack32 => 56,
            Format::A8b8g8r8SrgbPack32 => 57,
            Format::A2r10g10b10UnormPack32 => 58,
            Format::A2r10g10b10SnormPack32 => 59,
            Format::A2r10g10b10UscaledPack32 => 60,
            Format::A2r10g10b10SscaledPack32 => 61,
            Format::A2r10g10b10UintPack32 => 62,
            Format::A2r10g10b10SintPack32 => 63,
            Format::A2b10g10r10UnormPack32 => 64,
            Format::A2b10g10r10SnormPack32 => 65,
            Format::A2b10g10r10UscaledPack32 => 66,
            Format::A2b10g10r10SscaledPack32 => 67,
            Format::A2b10g10r10UintPack32 => 68,
            Format::A2b10g10r10SintPack32 => 69,
            Format::R16Unorm => 70,
            Format::R16Snorm => 71,
            Format::R16Uscaled => 72,
            Format::R16Sscaled => 73,
            Format::R16Uint => 74,
            Format::R16Sint => 75,
            Format::R16Sfloat => 76,
            Format::R16g16Unorm => 77,
            Format::R16g16Snorm => 78,
            Format::R16g16Uscaled => 79,
            Format::R16g16Sscaled => 80,
            Format::R16g16Uint => 81,
            Format::R16g16Sint => 82,
            Format::R16g16Sfloat => 83,
            Format::R16g16b16Unorm => 84,
            Format::R16g16b16Snorm => 85,
            Format::R16g16b16Uscaled => 86,
            Format::R16g16b16Sscaled => 87,
            Format::R16g16b16Uint => 88,
            Format::R16g16b16Sint => 89,
            Format::R16g16b16Sfloat => 90,
            Format::R16g16b16a16Unorm => 91,
            Format::R16g16b16a16Snorm => 92,
            Format::R16g16b16a16Uscaled => 93,
            Format::R16g16b16a16Sscaled => 94,
            Format::R16g16b16a16Uint => 95,
            Format::R16g16b16a16Sint => 96,
            Format::R16g16b16a16Sfloat => 97,
            Format::R32Uint => 98,
            Format::R32Sint => 99,
            Format::R32Sfloat => 100,
            Format::R32g32Uint => 101,
            Format::R32g32Sint => 102,
            Format::R32g32Sfloat => 103,
            Format::R32g32b32Uint => 104,
            Format::R32g32b32Sint => 105,
            Format::R32g32b32Sfloat => 106,
            Format::R32g32b32a32Uint => 107,
            Format::R32g32b32a32Sint => 108,
            Format::R32g32b32a32Sfloat => 109,
            Format::R64Uint => 110,
            Format::R64Sint => 111,
            Format::R64Sfloat => 112,
            Format::R64g64Uint => 113,
            Format::R64g64Sint => 114,
            Format::R64g64Sfloat => 115,
            Format::R64g64b64Uint => 116,
            Format::R64g64b64Sint => 117,
            Format::R64g64b64Sfloat => 118,
            Format::R64g64b64a64Uint => 119,
            Format::R64g64b64a64Sint => 120,
            Format::R64g64b64a64Sfloat => 121,
            Format::B10g11r11UfloatPack32 => 122,
            Format::E5b9g9r9UfloatPack32 => 123,
            Format::D16Unorm => 124,
            Format::X8D24UnormPack32 => 125,
            Format::D32Sfloat => 126,
            Format::S8Uint => 127,
            Format::D16UnormS8Uint => 128,
            Format::D24UnormS8Uint => 129,
            Format::D32SfloatS8Uint => 130,
            Format::Bc1RgbUnormBlock => 131,
            Format::Bc1RgbSrgbBlock => 132,
            Format::Bc1RgbaUnormBlock => 133,
            Format::Bc1RgbaSrgbBlock => 134,
            Format::Bc2UnormBlock => 135,
            Format::Bc2SrgbBlock => 136,
            Format::Bc3UnormBlock => 137,
            Format::Bc3SrgbBlock => 138,
            Format::Bc4UnormBlock => 139,
            Format::Bc4SnormBlock => 140,
            Format::Bc5UnormBlock => 141,
            Format::Bc5SnormBlock => 142,
            Format::Bc6hUfloatBlock => 143,
            Format::Bc6hSfloatBlock => 144,
            Format::Bc7UnormBlock => 145,
            Format::Bc7SrgbBlock => 146,
            Format::Etc2R8g8b8UnormBlock => 147,
            Format::Etc2R8g8b8SrgbBlock => 148,
            Format::Etc2R8g8b8a1UnormBlock => 149,
            Format::Etc2R8g8b8a1SrgbBlock => 150,
            Format::Etc2R8g8b8a8UnormBlock => 151,
            Format::Etc2R8g8b8a8SrgbBlock => 152,
            Format::EacR11UnormBlock => 153,
            Format::EacR11SnormBlock => 154,
            Format::EacR11g11UnormBlock => 155,
            Format::EacR11g11SnormBlock => 156,
            Format::Astc4x4UnormBlock => 157,
            Format::Astc4x4SrgbBlock => 158,
            Format::Astc5x4UnormBlock => 159,
            Format::Astc5x4SrgbBlock => 160,
            Format::Astc5x5UnormBlock => 161,
            Format::Astc5x5SrgbBlock => 162,
            Format::Astc6x5UnormBlock => 163,
            Format::Astc6x5SrgbBlock => 164,
            Format::Astc6x6UnormBlock => 165,
            Format::Astc6x6SrgbBlock => 166,
            Format::Astc8x5UnormBlock => 167,
            Format::Astc8x5SrgbBlock => 168,
            Format::Astc8x6UnormBlock => 169,
            Format::Astc8x6SrgbBlock => 170,
            Format::Astc8x8UnormBlock => 171,
            Format::Astc8x8SrgbBlock => 172,
            Format::Astc10x5UnormBlock => 173,
            Format::Astc10x5SrgbBlock => 174,
            Format::Astc10x6UnormBlock => 175,
            Format::Astc10x6SrgbBlock => 176,
            Format::Astc10x8UnormBlock => 177,
            Format::Astc10x8SrgbBlock => 178,
            Format::Astc10x10UnormBlock => 179,
            Format::Astc10x10SrgbBlock => 180,
            Format::Astc12x10UnormBlock => 181,
            Format::Astc12x10SrgbBlock => 182,
            Format::Astc12x12UnormBlock => 183,
            Format::Astc12x12SrgbBlock => 184,
            Format::G8b8g8r8_422Unorm => 1000156000,
            Format::B8g8r8g8_422Unorm => 1000156001,
            Format::G8B8R8_3plane420Unorm => 1000156002,
            Format::G8B8r8_2plane420Unorm => 1000156003,
            Format::G8B8R8_3plane422Unorm => 1000156004,
            Format::G8B8r8_2plane422Unorm => 1000156005,
            Format::G8B8R8_3plane444Unorm => 1000156006,
            Format::R10x6UnormPack16 => 1000156007,
            Format::R10x6g10x6Unorm2pack16 => 1000156008,
            Format::R10x6g10x6b10x6a10x6Unorm4pack16 => 1000156009,
            Format::G10x6b10x6g10x6r10x6_422Unorm4pack16 => 1000156010,
            Format::B10x6g10x6r10x6g10x6_422Unorm4pack16 => 1000156011,
            Format::G10x6B10x6R10x6_3plane420Unorm3pack16 => 1000156012,
            Format::G10x6B10x6r10x6_2plane420Unorm3pack16 => 1000156013,
            Format::G10x6B10x6R10x6_3plane422Unorm3pack16 => 1000156014,
            Format::G10x6B10x6r10x6_2plane422Unorm3pack16 => 1000156015,
            Format::G10x6B10x6R10x6_3plane444Unorm3pack16 => 1000156016,
            Format::R12x4UnormPack16 => 1000156017,
            Format::R12x4g12x4Unorm2pack16 => 1000156018,
            Format::R12x4g12x4b12x4a12x4Unorm4pack16 => 1000156019,
            Format::G12x4b12x4g12x4r12x4_422Unorm4pack16 => 1000156020,
            Format::B12x4g12x4r12x4g12x4_422Unorm4pack16 => 1000156021,
            Format::G12x4B12x4R12x4_3plane420Unorm3pack16 => 1000156022,
            Format::G12x4B12x4r12x4_2plane420Unorm3pack16 => 1000156023,
            Format::G12x4B12x4R12x4_3plane422Unorm3pack16 => 1000156024,
            Format::G12x4B12x4r12x4_2plane422Unorm3pack16 => 1000156025,
            Format::G12x4B12x4R12x4_3plane444Unorm3pack16 => 1000156026,
            Format::G16b16g16r16_422Unorm => 1000156027,
            Format::B16g16r16g16_422Unorm => 1000156028,
            Format::G16B16R16_3plane420Unorm => 1000156029,
            Format::G16B16r16_2plane420Unorm => 1000156030,
            Format::G16B16R16_3plane422Unorm => 1000156031,
            Format::G16B16r16_2plane422Unorm => 1000156032,
            Format::G16B16R16_3plane444Unorm => 1000156033,
            Format::Pvrtc1_2bppUnormBlockImg => 1000054000,
            Format::Pvrtc1_4bppUnormBlockImg => 1000054001,
            Format::Pvrtc2_2bppUnormBlockImg => 1000054002,
            Format::Pvrtc2_4bppUnormBlockImg => 1000054003,
            Format::Pvrtc1_2bppSrgbBlockImg => 1000054004,
            Format::Pvrtc1_4bppSrgbBlockImg => 1000054005,
            Format::Pvrtc2_2bppSrgbBlockImg => 1000054006,
            Format::Pvrtc2_4bppSrgbBlockImg => 1000054007,
            Format::Astc4x4SfloatBlockExt => 1000066000,
            Format::Astc5x4SfloatBlockExt => 1000066001,
            Format::Astc5x5SfloatBlockExt => 1000066002,
            Format::Astc6x5SfloatBlockExt => 1000066003,
            Format::Astc6x6SfloatBlockExt => 1000066004,
            Format::Astc8x5SfloatBlockExt => 1000066005,
            Format::Astc8x6SfloatBlockExt => 1000066006,
            Format::Astc8x8SfloatBlockExt => 1000066007,
            Format::Astc10x5SfloatBlockExt => 1000066008,
            Format::Astc10x6SfloatBlockExt => 1000066009,
            Format::Astc10x8SfloatBlockExt => 1000066010,
            Format::Astc10x10SfloatBlockExt => 1000066011,
            Format::Astc12x10SfloatBlockExt => 1000066012,
            Format::Astc12x12SfloatBlockExt => 1000066013,
            Format::G8B8r8_2plane444UnormExt => 1000330000,
            Format::G10x6B10x6r10x6_2plane444Unorm3pack16Ext => 1000330001,
            Format::G12x4B12x4r12x4_2plane444Unorm3pack16Ext => 1000330002,
            Format::G16B16r16_2plane444UnormExt => 1000330003,
            Format::A4r4g4b4UnormPack16Ext => 1000340000,
            Format::A4b4g4r4UnormPack16Ext => 1000340001,
        }
    }

    /// Reads a format the native layer wrote. `None` is returned for an integer
    /// that stands for none.
    pub fn from_raw(raw: i32) -> (r: Option<Format>)
        ensures
            r == Format::spec_from_raw(raw),
    {
        match raw {
            0 => Some(Format::Undefined),
            1 => Some(Format::R4g4UnormPack8),
            2 => Some(Format::R4g4b4a4UnormPack16),
            3 => Some(Format::B4g4r4a4UnormPack16),
            4 => Some(Format::R5g6b5UnormPack16),
            5 => Some(Format::B5g6r5UnormPack16),
            6 => Some(Format::R5g5b5a1UnormPack16),
            7 => Some(Format::B5g5r5a1UnormPack16),
            8 => Some(Format::A1r5g5b5UnormPack16),
            9 => Some(Format::R8Unorm),
            10 => Some(Format::R8Snorm),
            11 => Some(Format::R8Uscaled),
            12 => Some(Format::R8Sscaled),
            13 => Some(Format::R8Uint),
            14 => Some(Format::R8Sint),
            15 => Some(Format::R8Srgb),
            16 => Some(Format::R8g8Unorm),
            17 => Some(Format::R8g8Snorm),
            18 => Some(Format::R8g8Uscaled),
            19 => Some(Format::R8g8Sscaled),
            20 => Some(Format::R8g8Uint),
            21 => Some(Format::R8g8Sint),
            22 => Some(Format::R8g8Srgb),
            23 => Some(Format::R8g8b8Unorm),
            24 => Some(Format::R8g8b8Snorm),
            25 => Some(Format::R8g8b8Uscaled),
            26 => Some(Format::R8g8b8Sscaled),
            27 => Some(Format::R8g8b8Uint),
            28 => Some(Format::R8g8b8Sint),
            29 => Some(Format::R8g8b8Srgb),
            30 => Some(Format::B8g8r8Unorm),
            31 => Some(Format::B8g8r8Snorm),
            32 => Some(Format::B8g8r8Uscaled),
            33 => Some(Format::B8g8r8Sscaled),
            34 => Some(Format::B8g8r8Uint),
            35 => Some(Format::B8g8r8Sint),
            36 => Some(Format::B8g8r8Srgb),
            37 => Some(Format::R8g8b8a8Unorm),
            38 => Some(Format::R8g8b8a8Snorm),
            39 => Some(Format::R8g8b8a8Uscaled),
            40 => Some(Format::R8g8b8a8Sscaled),
            41 => Some(Format::R8g8b8a8Uint),
            42 => Some(Format::R8g8b8a8Sint),
            43 => Some(Format::R8g8b8a8Srgb),
            44 => Some(Format::B8g8r8a8Unorm),
            45 => Some(Format::B8g8r8a8Snorm),
            46 => Some(Format::B8g8r8a8Uscaled),
            47 => Some(Format::B8g8r8a8Sscaled),
            48 => Some(Format::B8g8r8a8Uint),
            49 => Some(Format::B8g8r8a8Sint),
            50 => Some(Format::B8g8r8a8Srgb),
            51 => Some(Format::A8b8g8r8UnormPack32),
            52 => Some(Format::A8b8g8r8SnormPack32),
            53 => Some(Format::A8b8g8r8UscaledPack32),
            54 => Some(Format::A8b8g8r8SscaledPack32),
            55 => Some(Format::A8b8g8r8UintPack32),
            56 => Some(Format::A8b8g8r8SintPack32),
            57 => Some(Format::A8b8g8r8SrgbPack32),
            58 => Some(Format::A2r10g10b10UnormPack32),
            59 => Some(Format::A2r10g10b10SnormPack32),
            60 => Some(Format::A2r10g10b10UscaledPack32),
            61 => Some(Format::A2r10g10b10SscaledPack32),
            62 => Some(Format::A2r10g10b10UintPack32),
            63 => Some(Format::A2r10g10b10SintPack32),
            64 => Some(Format::A2b10g10r10UnormPack32),
            65 => Some(Format::A2b10g10r10SnormPack32),
            66 => Some(Format::A2b10g10r10UscaledPack32),
            67 => Some(Format::A2b10g10r10SscaledPack32),
            68 => Some(Format::A2b10g10r10UintPack32),
            69 => Some(Format::A2b10g10r10SintPack32),
            70 => Some(Format::R16Unorm),
            71 => Some(Format::R16Snorm),
            72 => Some(Format::R16Uscaled),
            73 => Some(Format::R16Sscaled),
            74 => Some(Format::R16Uint),
            75 => Some(Format::R16Sint),
            76 => Some(Format::R16Sfloat),
            77 => Some(Format::R16g16Unorm),
            78 => Some(Format::R16g16Snorm),
            79 => Some(Format::R16g16Uscaled),
            80 => Some(Format::R16g16Sscaled),
            81 => Some(Format::R16g16Uint),
            82 => Some(Format::R16g16Sint),
            83 => Some(Format::R16g16Sfloat),
            84 => Some(Format::R16g16b16Unorm),
            85 => Some(Format::R16g16b16Snorm),
            86 => Some(Format::R16g16b16Uscaled),
            87 => Some(Format::R16g16b16Sscaled),
            88 => Some(Format::R16g16b16Uint),
            89 => Some(Format::R16g16b16Sint),
            90 => Some(Format::R16g16b16Sfloat),
            91 => Some(Format::R16g16b16a16Unorm),
            92 => Some(Format::R16g16b16a16Snorm),
            93 => Some(Format::R16g16b16a16Uscaled),
            94 => Some(Format::R16g16b16a16Sscaled),
            95 => Some(Format::R16g16b16a16Uint),
            96 => Some(Format::R16g16b16a16Sint),
            97 => Some(Format::R16g16b16a16Sfloat),
            98 => Some(Format::R32Uint),
            99 => Some(Format::R32Sint),
            100 => Some(Format::R32Sfloat),
            101 => Some(Format::R32g32Uint),
            102 => Some(Format::R32g32Sint),
            103 => Some(Format::R32g32Sfloat),
            104 => Some(Format::R32g32b32Uint),
            105 => Some(Format::R32g32b32Sint),
            106 => Some(Format::R32g32b32Sfloat),
            107 => Some(Format::R32g32b32a32Uint),
            108 => Some(Format::R32g32b32a32Sint),
            109 => Some(Format::R32g32b32a32Sfloat),
            110 => Some(Format::R64Uint),
            111 => Some(Format::R64Sint),
            112 => Some(Format::R64Sfloat),
            113 => Some(Format::R64g64Uint),
            114 => Some(Format::R64g64Sint),
            115 => Some(Format::R64g64Sfloat),
            116 => Some(Format::R64g64b64Uint),
            117 => Some(Format::R64g64b64Sint),
            118 => Some(Format::R64g64b64Sfloat),
            119 => Some(Format::R64g64b64a64Uint),
            120 => Some(Format::R64g64b64a64Sint),
            121 => Some(Format::R64g64b64a64Sfloat),
            122 => Some(Format::B10g11r11UfloatPack32),
            123 => Some(Format::E5b9g9r9UfloatPack32),
            124 => Some(Format::D16Unorm),
            125 => Some(Format::X8D24UnormPack32),
            126 => Some(Format::D32Sfloat),
            127 => Some(Format::S8Uint),
            128 => Some(Format::D16UnormS8Uint),
            129 => Some(Format::D24UnormS8Uint),
            130 => Some(Format::D32SfloatS8Uint),
            131 => Some(Format::Bc1RgbUnormBlock),
            132 => Some(Format::Bc1RgbSrgbBlock),
            133 => Some(Format::Bc1RgbaUnormBlock),
            134 => Some(Format::Bc1RgbaSrgbBlock),
            135 => Some(Format::Bc2UnormBlock),
            136 => Some(Format::Bc2SrgbBlock),
            137 => Some(Format::Bc3UnormBlock),
            138 => Some(Format::Bc3SrgbBlock),
            139 => Some(Format::Bc4UnormBlock),
            140 => Some(Format::Bc4SnormBlock),
            141 => Some(Format::Bc5UnormBlock),
            142 => Some(Format::Bc5SnormBlock),
            143 => Some(Format::Bc6hUfloatBlock),
            144 => Some(Format::Bc6hSfloatBlock),
            145 => Some(Format::Bc7UnormBlock),
            146 => Some(Format::Bc7SrgbBlock),
            147 => Some(Format::Etc2R8g8b8UnormBlock),
            148 => Some(Format::Etc2R8g8b8SrgbBlock),
            149 => Some(Format::Etc2R8g8b8a1UnormBlock),
            150 => Some(Format::Etc2R8g8b8a1SrgbBlock),
            151 => Some(Format::Etc2R8g8b8a8UnormBlock),
            152 => Some(Format::Etc2R8g8b8a8SrgbBlock),
            153 => Some(Format::EacR11UnormBlock),
            154 => Some(Format::EacR11SnormBlock),
            155 => Some(Format::EacR11g11UnormBlock),
            156 => Some(Format::EacR11g11SnormBlock),
            157 => Some(Format::Astc4x4UnormBlock),
            158 => Some(Format::Astc4x4SrgbBlock),
            159 => Some(Format::Astc5x4UnormBlock),
            160 => Some(Format::Astc5x4SrgbBlock),
            161 => Some(Format::Astc5x5UnormBlock),
            162 => Some(Format::Astc5x5SrgbBlock),
            163 => Some(Format::Astc6x5UnormBlock),
            164 => Some(Format::Astc6x5SrgbBlock),
            165 => Some(Format::Astc6x6UnormBlock),
            166 => Some(Format::Astc6x6SrgbBlock),
            167 => Some(Format::Astc8x5UnormBlock),
            168 => Some(Format::Astc8x5SrgbBlock),
            169 => Some(Format::Astc8x6UnormBlock),
            170 => Some(Format::Astc8x6SrgbBlock),
            171 => Some(Format::Astc8x8UnormBlock),
            172 => Some(Format::Astc8x8SrgbBlock),
            173 => Some(Format::Astc10x5UnormBlock),
            174 => Some(Format::Astc10x5SrgbBlock),
            175 => Some(Format::Astc10x6UnormBlock),
            176 => Some(Format::Astc10x6SrgbBlock),
            177 => Some(Format::Astc10x8UnormBlock),
            178 => Some(Format::Astc10x8SrgbBlock),
            179 => Some(Format::Astc10x10UnormBlock),
            180 => Some(Format::Astc10x10SrgbBlock),
            181 => Some(Format::Astc12x10UnormBlock),
            182 => Some(Format::Astc12x10SrgbBlock),
            183 => Some(Format::Astc12x12UnormBlock),
            184 => Some(Format::Astc12x12SrgbBlock),
            1000156000 => Some(Format::G8b8g8r8_422Unorm),
            1000156001 => Some(Format::B8g8r8g8_422Unorm),
            1000156002 => Some(Format::G8B8R8_3plane420Unorm),
            1000156003 => Some(Format::G8B8r8_2plane420Unorm),
            1000156004 => Some(Format::G8B8R8_3plane422Unorm),
            1000156005 => Some(Format::G8B8r8_2plane422Unorm),
            1000156006 => Some(Format::G8B8R8_3plane444Unorm),
            1000156007 => Some(Format::R10x6UnormPack16),
            1000156008 => Some(Format::R10x6g10x6Unorm2pack16),
            1000156009 => Some(Format::R10x6g10x6b10x6a10x6Unorm4pack16),
            1000156010 => Some(Format::G10x6b10x6g10x6r10x6_422Unorm4pack16),
            1000156011 => Some(Format::B10x6g10x6r10x6g10x6_422Unorm4pack16),
            1000156012 => Some(Format::G10x6B10x6R10x6_3plane420Unorm3pack16),
            1000156013 => Some(Format::G10x6B10x6r10x6_2plane420Unorm3pack16),
            1000156014 => Some(Format::G10x6B10x6R10x6_3plane422Unorm3pack16),
            1000156015 => Some(Format::G10x6B10x6r10x6_2plane422Unorm3pack16),
            1000156016 => Some(Format::G10x6B10x6R10x6_3plane444Unorm3pack16),
            1000156017 => Some(Format::R12x4UnormPack16),
            1000156018 => Some(Format::R12x4g12x4Unorm2pack16),
            1000156019 => Some(Format::R12x4g12x4b12x4a12x4Unorm4pack16),
            1000156020 => Some(Format::G12x4b12x4g12x4r12x4_422Unorm4pack16),
            1000156021 => Some(Format::B12x4g12x4r12x4g12x4_422Unorm4pack16),
            1000156022 => Some(Format::G12x4B12x4R12x4_3plane420Unorm3pack16),
            1000156023 => Some(Format::G12x4B12x4r12x4_2plane420Unorm3pack16),
            1000156024 => Some(Format::G12x4B12x4R12x4_3plane422Unorm3pack16),
            1000156025 => Some(Format::G12x4B12x4r12x4_2plane422Unorm3pack16),
            1000156026 => Some(Format::G12x4B12x4R12x4_3plane444Unorm3pack16),
            1000156027 => Some(Format::G16b16g16r16_422Unorm),
            1000156028 => Some(Format::B16g16r16g16_422Unorm),
            1000156029 => Some(Format::G16B16R16_3plane420Unorm),
            1000156030 => Some(Format::G16B16r16_2plane420Unorm),
            1000156031 => Some(Format::G16B16R16_3plane422Unorm),
            1000156032 => Some(Format::G16B16r16_2plane422Unorm),
            1000156033 => Some(Format::G16B16R16_3plane444Unorm),
            1000054000 => Some(Format::Pvrtc1_2bppUnormBlockImg),
            1000054001 => Some(Format::Pvrtc1_4bppUnormBlockImg),
            1000054002 => Some(Format::Pvrtc2_2bppUnormBlockImg),
            1000054003 => Some(Format::Pvrtc2_4bppUnormBlockImg),
            1000054004 => Some(Format::Pvrtc1_2bppSrgbBlockImg),
            1000054005 => Some(Format::Pvrtc1_4bppSrgbBlockImg),
            1000054006 => Some(Format::Pvrtc2_2bppSrgbBlockImg),
            1000054007 => Some(Format::Pvrtc2_4bppSrgbBlockImg),
            1000066000 => Some(Format::Astc4x4SfloatBlockExt),
            1000066001 => Some(Format::Astc5x4SfloatBlockExt),
            1000066002 => Some(Format::Astc5x5SfloatBlockExt),
            1000066003 => Some(Format::Astc6x5SfloatBlockExt),
            1000066004 => Some(Format::Astc6x6SfloatBlockExt),
            1000066005 => Some(Format::Astc8x5SfloatBlockExt),
            1000066006 => Some(Format::Astc8x6SfloatBlockExt),
            1000066007 => Some(Format::Astc8x8SfloatBlockExt),
            1000066008 => Some(Format::Astc10x5SfloatBlockExt),
            1000066009 => Some(Format::Astc10x6SfloatBlockExt),
            1000066010 => Some(Format::Astc10x8SfloatBlockExt),
            1000066011 => Some(Format::Astc10x10SfloatBlockExt),
            1000066012 => Some(Format::Astc12x10SfloatBlockExt),
            1000066013 => Some(Format::Astc12x12SfloatBlockExt),
            1000330000 => Some(Format::G8B8r8_2plane444UnormExt),
            1000330001 => Some(Format::G10x6B10x6r10x6_2plane444Unorm3pack16Ext),
            1000330002 => Some(Format::G12x4B12x4r12x4_2plane444Unorm3pack16Ext),
            1000330003 => Some(Format::G16B16r16_2plane444UnormExt),
            1000340000 => Some(Format::A4r4g4b4UnormPack16Ext),
            1000340001 => Some(Format::A4b4g4r4UnormPack16Ext),
            _ => None,
        }
    }

    /// Reading the integer of a format gives that format back.
    #[verifier::rlimit(50)]
    pub proof fn lemma_raw_round_trip(v: Format)
        ensures
            Format::spec_from_raw(v.spec_raw()) == Some(v),
    {
    }

    /// A format that is read from an integer has that integer.
    #[verifier::rlimit(50)]
    pub proof fn lemma_from_raw_sound(raw: i32)
        ensures
            Format::spec_from_raw(raw) matches Some(v) ==> v.spec_raw() == raw,
    {
    }
}

} // verus!
