//! Terrain-layer payloads: the body of the `LayerData` message and the layer
//! classification byte.

use vstd::prelude::*;

verus! {

use vstd::bytes::{spec_u16_from_le_bytes, spec_u16_to_le_bytes};
use crate::packet::DecodeError;
use crate::wire::{copy_range, push_range, push_u16_le, read_u16_le, read_u8};

/// Kind of terrain layer a `LayerData` body describes.
#[derive(Clone, Copy, Debug, PartialEq, Eq, Structural)]
pub enum LayerType {
    Land,
    LandExtended,
    Water,
    WaterExtended,
    Wind,
    WindExtended,
    Cloud,
    CloudExtended,
    Unknown,
}

/// Wire byte of a layer kind.
pub open spec fn spec_layer_type_byte(t: LayerType) -> u8 {
    match t {
        LayerType::Land => 76,
        LayerType::LandExtended => 77,
        LayerType::Water => 87,
        LayerType::WaterExtended => 88,
        LayerType::Wind => 55,
        LayerType::WindExtended => 57,
        LayerType::Cloud => 56,
        LayerType::CloudExtended => 58,
        LayerType::Unknown => 0,
    }
}

/// Layer kind decoded from a wire byte; bytes outside the table decode to
/// `Unknown`.
pub open spec fn spec_layer_type_from_byte(b: u8) -> LayerType {
    match b {
        76u8 => LayerType::Land,
        77u8 => LayerType::LandExtended,
        87u8 => LayerType::Water,
        88u8 => LayerType::WaterExtended,
        55u8 => LayerType::Wind,
        57u8 => LayerType::WindExtended,
        56u8 => LayerType::Cloud,
        58u8 => LayerType::CloudExtended,
        _ => LayerType::Unknown,
    }
}

impl LayerType {
    /// Encodes the layer kind as its wire byte.
    pub fn to_bytes(&self) -> (r: u8)
        ensures
            r == spec_layer_type_byte(*self),
    {
        match self {
            LayerType::Land => 76,
            LayerType::LandExtended => 77,
            LayerType::Water => 87,
            LayerType::WaterExtended => 88,
            LayerType::Wind => 55,
            LayerType::WindExtended => 57,
            LayerType::Cloud => 56,
            LayerType::CloudExtended => 58,
            LayerType::Unknown => 0,
        }
    }

    /// Decodes a wire byte into a layer kind.
    pub fn from_bytes(bytes: u8) -> (r: Self)
        ensures
            r == spec_layer_type_from_byte(bytes),
    {
        match bytes {
            76 => LayerType::Land,
            77 => LayerType::LandExtended,
            87 => LayerType::Water,
            88 => LayerType::WaterExtended,
            55 => LayerType::Wind,
            57 => LayerType::WindExtended,
            56 => LayerType::Cloud,
            58 => LayerType::CloudExtended,
            _ => LayerType::Unknown,
        }
    }
}

/// Decoding a layer kind's own wire byte gives the kind back.
pub proof fn lemma_layer_type_round_trip(t: LayerType)
    ensures
        spec_layer_type_from_byte(spec_layer_type_byte(t)) == t,
{
}

/// Body of a `LayerData` message: a classification header followed by the
/// raw compressed patch bytes, which this engine relays without
/// interpreting.
#[derive(Clone, Debug, PartialEq, Eq)]
pub struct LayerData {
    pub layer_id: LayerType,
    pub stride: u16,
    pub patch_size: u8,
    pub layer_type: LayerType,
    pub layer_content: Vec<u8>,
}

/// Mathematical model of a `LayerData` body.
#[verifier::ext_equal]
pub ghost struct LayerDataV {
    pub layer_id: LayerType,
    pub stride: u16,
    pub patch_size: u8,
    pub layer_type: LayerType,
    pub layer_content: Seq<u8>,
}

impl View for LayerData {
    type V = LayerDataV;

    open spec fn view(&self) -> LayerDataV {
        LayerDataV {
            layer_id: self.layer_id,
            stride: self.stride,
            patch_size: self.patch_size,
            layer_type: self.layer_type,
            layer_content: self.layer_content@,
        }
    }
}

/// Wire bytes of a `LayerData` body: the layer byte, two reserved zero
/// bytes, the little-endian stride, the patch size, the layer byte again,
/// then the patch content.
pub open spec fn spec_layer_data_bytes(l: LayerDataV) -> Seq<u8> {
    seq![spec_layer_type_byte(l.layer_id), 0u8, 0u8] + spec_u16_to_le_bytes(l.stride) + seq![
        l.patch_size,
        spec_layer_type_byte(l.layer_type),
    ] + l.layer_content
}

/// Parse of a byte sequence as a `LayerData` body. Everything after the
/// seven header bytes is patch content; only a short buffer is rejected.
pub open spec fn spec_parse_layer_data(b: Seq<u8>) -> Result<LayerDataV, DecodeError> {
    if b.len() < 7 {
        Err(DecodeError::Truncated)
    } else {
        Ok(
            LayerDataV {
                layer_id: spec_layer_type_from_byte(b[0]),
                stride: spec_u16_from_le_bytes(b.subrange(3, 5)),
                patch_size: b[5],
                layer_type: spec_layer_type_from_byte(b[6]),
                layer_content: b.skip(7),
            },
        )
    }
}

impl LayerData {
    /// Encodes the body into its wire bytes.
    pub fn to_bytes(&self) -> (r: Vec<u8>)
        ensures
            r@ == spec_layer_data_bytes(self@),
    {
        let mut out: Vec<u8> = Vec::new();
        out.push(self.layer_id.to_bytes());
        out.push(0);
        out.push(0);
        push_u16_le(&mut out, self.stride);
        out.push(self.patch_size);
        out.push(self.layer_type.to_bytes());
        push_range(&mut out, self.layer_content.as_slice(), 0, self.layer_content.len());
        proof {
            assert(out@ =~= spec_layer_data_bytes(self@));
        }
        out
    }

    /// Decodes a byte buffer into a `LayerData` body.
    pub fn from_bytes(bytes: &[u8]) -> (r: Result<Self, DecodeError>)
        ensures
            match r {
                Ok(l) => spec_parse_layer_data(bytes@) == Ok::<LayerDataV, DecodeError>(l@),
                Err(e) => spec_parse_layer_data(bytes@) == Err::<LayerDataV, DecodeError>(e),
            },
    {
        let n = bytes.len();
        if n < 7 {
            return Err(DecodeError::Truncated);
        }
        let layer_id = LayerType::from_bytes(read_u8(bytes, 0));
        let stride = read_u16_le(bytes, 3);
        let patch_size = read_u8(bytes, 5);
        let layer_type = LayerType::from_bytes(read_u8(bytes, 6));
        let layer_content = copy_range(bytes, 7, n);
        proof {
            assert(bytes@.subrange(7, n as int) =~= bytes@.skip(7));
        }
        Ok(LayerData { layer_id, stride, patch_size, layer_type, layer_content })
    }
}

/// Decoding the encoding of a `LayerData` body gives the body back.
pub proof fn lemma_layer_data_round_trip(l: LayerDataV)
    ensures
        spec_parse_layer_data(spec_layer_data_bytes(l)) == Ok::<LayerDataV, DecodeError>(l),
{
    let b = spec_layer_data_bytes(l);
    vstd::bytes::lemma_auto_spec_u16_to_from_le_bytes();
    assert(b.subrange(3, 5) =~= spec_u16_to_le_bytes(l.stride));
    assert(b.skip(7) =~= l.layer_content);
    lemma_layer_type_round_trip(l.layer_id);
    lemma_layer_type_round_trip(l.layer_type);
}

} // verus!
