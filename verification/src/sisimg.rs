//! The SIS frame: its fixed byte layout, and the passage between bytes,
//! frames and sample grids.

use crate::error::{DimensionError, FormatError};
use crate::grid::{grid_dim, grid_elements, grid_from_shape_vec, grid_shape, grid_to_vec, Grid};
use crate::le::{
    high_byte, join_bytes, le_bytes, le_high, le_low, le_samples, le_u16,
    lemma_le_samples_of_bytes, low_byte, read_u16_le, write_u16_le,
};
use vstd::prelude::*;
use vstd::slice::slice_subrange;

verus! {

/// Number of bytes before the first sample.
pub const HEADER_LEN: usize = 200;

/// Number of bytes up to the end of the two dimension fields: the height
/// stands at offset 10, the width at offset 12.
pub const DIMS_END: usize = 14;

/// Largest length of an axis that a dimension field can hold.
pub const MAX_AXIS: usize = 65535;

/// The byte that fills the reserved regions: an ASCII space.
pub const FILL: u8 = 0x20;

/// What a frame is: its shape and its samples, row by row.
pub ghost struct Frame {
    pub height: nat,
    pub width: nat,
    pub samples: Seq<u16>,
}

impl Frame {
    /// Both axes fit a dimension field, and there is one sample for each
    /// place of the grid.
    pub open spec fn wf(self) -> bool {
        &&& self.height <= MAX_AXIS
        &&& self.width <= MAX_AXIS
        &&& self.samples.len() == self.height * self.width
    }
}

/// The byte at offset `i` of the header of a frame of the given shape.
pub open spec fn header_byte(height: nat, width: nat, i: int) -> u8 {
    if i == 10 {
        le_low(height as u16)
    } else if i == 11 {
        le_high(height as u16)
    } else if i == 12 {
        le_low(width as u16)
    } else if i == 13 {
        le_high(width as u16)
    } else {
        FILL
    }
}

/// The 200 bytes that precede the samples.
pub open spec fn header(height: nat, width: nat) -> Seq<u8> {
    Seq::new(HEADER_LEN as nat, |i: int| header_byte(height, width, i))
}

/// The byte stream of a frame.
pub open spec fn encode(frame: Frame) -> Seq<u8> {
    header(frame.height, frame.width) + le_bytes(frame.samples)
}

/// The frame that a byte stream holds. The reserved bytes are not looked at,
/// nor is anything that follows the last sample; a frame without samples
/// needs no more than its two dimension fields.
pub open spec fn decode(bytes: Seq<u8>) -> Result<Frame, FormatError> {
    if bytes.len() < DIMS_END {
        Err(FormatError::ShortHeader)
    } else {
        let height = le_u16(bytes[10], bytes[11]) as nat;
        let width = le_u16(bytes[12], bytes[13]) as nat;
        let count = height * width;
        if count == 0 {
            Ok(Frame { height, width, samples: Seq::empty() })
        } else if bytes.len() < HEADER_LEN + 2 * count {
            Err(FormatError::ShortSamples)
        } else {
            Ok(
                Frame {
                    height,
                    width,
                    samples: le_samples(
                        bytes.subrange(HEADER_LEN as int, HEADER_LEN + 2 * count),
                    ),
                },
            )
        }
    }
}

/// Why a shape with the given number of samples makes no frame, if it makes
/// none: the height is tested first, then the width, then the count.
pub open spec fn shape_fault(height: nat, width: nat, count: nat) -> Option<DimensionError> {
    if height > MAX_AXIS {
        Some(DimensionError::HeightTooBig)
    } else if width > MAX_AXIS {
        Some(DimensionError::WidthTooBig)
    } else if count != height * width {
        Some(DimensionError::SampleCount)
    } else {
        None
    }
}

/// The frame of a shape and its samples, unless the shape is at fault.
pub open spec fn frame_of(height: nat, width: nat, samples: Seq<u16>) -> Result<
    Frame,
    DimensionError,
> {
    match shape_fault(height, width, samples.len()) {
        Some(fault) => Err(fault),
        None => Ok(Frame { height, width, samples }),
    }
}

/// Every stream that a well-formed frame encodes to decodes to that frame.
pub proof fn lemma_decode_encode(frame: Frame)
    requires
        frame.wf(),
    ensures
        decode(encode(frame)) == Ok::<Frame, FormatError>(frame),
{
    let bytes = encode(frame);
    let count = frame.height * frame.width;
    assert(bytes.len() == HEADER_LEN + 2 * count);
    assert(bytes[10] == le_low(frame.height as u16));
    assert(bytes[11] == le_high(frame.height as u16));
    assert(bytes[12] == le_low(frame.width as u16));
    assert(bytes[13] == le_high(frame.width as u16));
    assert(le_u16(bytes[10], bytes[11]) == frame.height);
    assert(le_u16(bytes[12], bytes[13]) == frame.width);
    if count == 0 {
        assert(frame.samples =~= Seq::<u16>::empty());
    } else {
        assert(bytes.subrange(HEADER_LEN as int, HEADER_LEN + 2 * count) =~= le_bytes(
            frame.samples,
        ));
        lemma_le_samples_of_bytes(frame.samples);
    }
}

/// The stream of a frame is 200 bytes longer than twice its number of
/// places, and its reserved regions hold nothing but spaces.
pub proof fn lemma_encode_shape(frame: Frame)
    requires
        frame.wf(),
    ensures
        encode(frame).len() == 200 + 2 * frame.height * frame.width,
        forall|i: int| 0 <= i < 10 ==> encode(frame)[i] == 0x20,
        forall|i: int| 14 <= i < 200 ==> encode(frame)[i] == 0x20,
{
    assert(2 * (frame.height * frame.width) == 2 * frame.height * frame.width) by (nonlinear_arith);
}

/// Whatever decodes is a well-formed frame.
pub proof fn lemma_decode_wf(bytes: Seq<u8>)
    ensures
        decode(bytes) matches Ok(frame) ==> frame.wf(),
{
}

/// One decoded or computed frame.
#[derive(Debug)]
pub struct SisImg {
    height: usize,
    width: usize,
    image: Vec<u16>,
}

impl View for SisImg {
    type V = Frame;

    closed spec fn view(&self) -> Frame {
        Frame { height: self.height as nat, width: self.width as nat, samples: self.image@ }
    }
}

/// A decoding outcome as the frame it holds.
pub open spec fn decoded(r: Result<SisImg, FormatError>) -> Result<Frame, FormatError> {
    match r {
        Ok(img) => Ok(img@),
        Err(e) => Err(e),
    }
}

/// The outcome of making a frame as the frame it holds.
pub open spec fn framed(r: Result<SisImg, DimensionError>) -> Result<Frame, DimensionError> {
    match r {
        Ok(img) => Ok(img@),
        Err(e) => Err(e),
    }
}

impl SisImg {
    #[verifier::type_invariant]
    spec fn inv(&self) -> bool {
        &&& self.height <= MAX_AXIS
        &&& self.width <= MAX_AXIS
        &&& self.image@.len() == self.height * self.width
    }

    /// Makes a frame of a shape and its samples, row by row.
    pub fn from_parts(height: usize, width: usize, samples: Vec<u16>) -> (r: Result<
        SisImg,
        DimensionError,
    >)
        ensures
            framed(r) == frame_of(height as nat, width as nat, samples@),
            r matches Ok(img) ==> img@.wf(),
    {
        if height > MAX_AXIS {
            return Err(DimensionError::HeightTooBig);
        }
        if width > MAX_AXIS {
            return Err(DimensionError::WidthTooBig);
        }
        assert(height * width <= 65535 * 65535) by (nonlinear_arith)
            requires
                height <= 65535,
                width <= 65535,
        ;
        if samples.len() as u64 != (height as u64) * (width as u64) {
            return Err(DimensionError::SampleCount);
        }
        Ok(SisImg { height, width, image: samples })
    }

    /// Makes a frame of a grid: the grid's shape, and its elements row by
    /// row. Only an axis that is too long stands in the way.
    pub fn new(grid: Grid) -> (r: Result<SisImg, DimensionError>)
        ensures
            framed(r) == frame_of(grid_shape(grid).0, grid_shape(grid).1, grid_elements(grid)),
            r matches Ok(img) ==> img@.wf(),
            r.is_ok() <==> grid_shape(grid).0 <= MAX_AXIS && grid_shape(grid).1 <= MAX_AXIS,
    {
        let shape = grid_dim(&grid);
        let samples = grid_to_vec(&grid);
        SisImg::from_parts(shape.0, shape.1, samples)
    }

    /// The grid of this frame: same shape, same samples, stored row by row.
    pub fn into_grid(self) -> (grid: Grid)
        ensures
            grid_shape(grid) == (self@.height, self@.width),
            grid_elements(grid) == self@.samples,
    {
        proof {
            use_type_invariant(&self);
        }
        grid_from_shape_vec(self.height, self.width, self.image)
    }

    /// Number of rows.
    pub fn height(&self) -> (h: usize)
        ensures
            h == self@.height,
            self@.wf(),
    {
        proof {
            use_type_invariant(self);
        }
        self.height
    }

    /// Number of columns.
    pub fn width(&self) -> (w: usize)
        ensures
            w == self@.width,
            self@.wf(),
    {
        proof {
            use_type_invariant(self);
        }
        self.width
    }

    /// The samples, row by row.
    pub fn image(&self) -> (samples: &Vec<u16>)
        ensures
            samples@ == self@.samples,
            self@.wf(),
    {
        proof {
            use_type_invariant(self);
        }
        &self.image
    }

    /// Decodes a frame from the bytes of a stream.
    pub fn read(bytes: &[u8]) -> (r: Result<SisImg, FormatError>)
        ensures
            decoded(r) == decode(bytes@),
            r matches Ok(img) ==> img@.wf(),
    {
        if bytes.len() < DIMS_END {
            return Err(FormatError::ShortHeader);
        }
        let height: u16 = join_bytes(bytes[10], bytes[11]);
        let width: u16 = join_bytes(bytes[12], bytes[13]);
        assert(height * width <= 65535 * 65535) by (nonlinear_arith)
            requires
                height <= 65535,
                width <= 65535,
        ;
        let count: u64 = (height as u64) * (width as u64);
        if count == 0 {
            return Ok(SisImg { height: height as usize, width: width as usize, image: Vec::new() });
        }
        let needed: u64 = 200 + 2 * count;
        if (bytes.len() as u64) < needed {
            return Err(FormatError::ShortSamples);
        }
        let data = slice_subrange(bytes, HEADER_LEN, needed as usize);
        let mut image: Vec<u16> = vec![0u16; count as usize];
        read_u16_le(data, &mut image);
        Ok(SisImg { height: height as usize, width: width as usize, image })
    }

    /// Encodes this frame as the bytes of a stream.
    pub fn write(&self) -> (bytes: Vec<u8>)
        requires
            HEADER_LEN + 2 * self@.samples.len() <= usize::MAX,
        ensures
            bytes@ == encode(self@),
            bytes@.len() == 200 + 2 * self@.height * self@.width,
            forall|i: int| 0 <= i < 10 ==> bytes@[i] == 0x20,
            forall|i: int| 14 <= i < 200 ==> bytes@[i] == 0x20,
    {
        proof {
            use_type_invariant(self);
            lemma_encode_shape(self@);
        }
        let mut bytes: Vec<u8> = vec![FILL; HEADER_LEN];
        bytes.set(10, low_byte(self.height as u16));
        bytes.set(11, high_byte(self.height as u16));
        bytes.set(12, low_byte(self.width as u16));
        bytes.set(13, high_byte(self.width as u16));
        assert(bytes@ =~= header(self@.height, self@.width));
        let mut data: Vec<u8> = vec![0u8; 2 * self.image.len()];
        write_u16_le(&self.image, &mut data);
        bytes.append(&mut data);
        bytes
    }
}

} // verus!
