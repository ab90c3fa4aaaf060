//! The optical-density reduction of three frames, up to the point where
//! logarithms are taken: which background-free samples are set against each
//! other at each place of the reduced frame.

use crate::error::{DimensionError, Fault, ProcessingError};
use crate::process::FKSpecies;
use crate::sisimg::{decode, Frame, SisImg};
use vstd::prelude::*;

verus! {

/// One place of the reduced frame: the optical density there is the
/// logarithm of `minuend` less the logarithm of `subtrahend`. Both are
/// samples with the reference frame subtracted, so both may be negative.
#[derive(Debug, Clone, Copy, PartialEq, Eq, Structural)]
pub struct LogTerm {
    pub minuend: i32,
    pub subtrahend: i32,
}

/// What reducing three decoded frames gives: the shape they share, and one
/// term for each place, row by row.
#[derive(Debug, PartialEq, Eq)]
pub struct Reduction {
    pub height: usize,
    pub width: usize,
    pub terms: Vec<LogTerm>,
}

/// What a `Reduction` holds.
pub ghost struct ReductionView {
    pub height: nat,
    pub width: nat,
    pub terms: Seq<LogTerm>,
}

impl View for Reduction {
    type V = ReductionView;

    open spec fn view(&self) -> ReductionView {
        ReductionView { height: self.height as nat, width: self.width as nat, terms: self.terms@ }
    }
}

/// Why three frames cannot be reduced, if they cannot: they must agree in
/// shape, and their rows must split into two equal halves.
pub open spec fn od_fault(atoms: Frame, probe: Frame, reference: Frame) -> Option<DimensionError> {
    if atoms.height != probe.height || atoms.width != probe.width || atoms.height
        != reference.height || atoms.width != reference.width {
        Some(DimensionError::FrameMismatch)
    } else if atoms.height % 2 != 0 {
        Some(DimensionError::OddHeight)
    } else {
        None
    }
}

/// The number of places in the upper half of a frame.
pub open spec fn half_len(frame: Frame) -> int {
    ((frame.height / 2) * frame.width) as int
}

/// The sample at place `k` of a frame with the reference subtracted.
pub open spec fn background_free(frame: Frame, reference: Frame, k: int) -> int {
    frame.samples[k] - reference.samples[k]
}

/// The term at place `k`, counted row by row. In the upper half the first
/// frame is set against itself: the place as far down in the lower half over
/// the place itself. In the lower half the second frame is, likewise: the
/// place itself over the place as far up in the upper half.
pub open spec fn od_term(atoms: Frame, probe: Frame, reference: Frame, k: int) -> LogTerm {
    let half = half_len(atoms);
    if k < half {
        LogTerm {
            minuend: background_free(atoms, reference, k + half) as i32,
            subtrahend: background_free(atoms, reference, k) as i32,
        }
    } else {
        LogTerm {
            minuend: background_free(probe, reference, k) as i32,
            subtrahend: background_free(probe, reference, k - half) as i32,
        }
    }
}

/// The reduction of three frames.
pub open spec fn reduction(atoms: Frame, probe: Frame, reference: Frame) -> Result<
    ReductionView,
    DimensionError,
> {
    match od_fault(atoms, probe, reference) {
        Some(fault) => Err(fault),
        None => Ok(
            ReductionView {
                height: atoms.height,
                width: atoms.width,
                terms: Seq::new(
                    atoms.samples.len(),
                    |k: int| od_term(atoms, probe, reference, k),
                ),
            },
        ),
    }
}

/// The reduction of three byte streams: they are decoded in the order atoms,
/// probe, reference, and the first that does not decode is the failure.
pub open spec fn reduction_of_streams(atoms: Seq<u8>, probe: Seq<u8>, reference: Seq<u8>) -> Result<
    ReductionView,
    Fault,
> {
    match decode(atoms) {
        Err(e) => Err(Fault::Format(e)),
        Ok(a) => match decode(probe) {
            Err(e) => Err(Fault::Format(e)),
            Ok(b) => match decode(reference) {
                Err(e) => Err(Fault::Format(e)),
                Ok(r) => match reduction(a, b, r) {
                    Err(e) => Err(Fault::Dimension(e)),
                    Ok(reduced) => Ok(reduced),
                },
            },
        },
    }
}

/// A frame of an even number of rows is twice as long as its upper half.
pub proof fn lemma_two_halves(frame: Frame)
    requires
        frame.wf(),
        frame.height % 2 == 0,
    ensures
        frame.samples.len() == 2 * half_len(frame),
        0 <= half_len(frame),
{
    let h = frame.height as int;
    let w = frame.width as int;
    let m = h / 2;
    assert(h == 2 * m);
    assert(h * w == 2 * (m * w)) by (nonlinear_arith)
        requires
            h == 2 * m,
    ;
    assert(0 <= m * w) by (nonlinear_arith)
        requires
            0 <= m,
            0 <= w,
    ;
}

/// Three equal flat frames reduce to terms whose two sides agree at every
/// place, so that every optical density is the difference of two equal
/// logarithms.
pub proof fn lemma_flat_frames(atoms: Frame, probe: Frame, reference: Frame, k: int)
    requires
        atoms.wf(),
        probe.wf(),
        reference.wf(),
        od_fault(atoms, probe, reference).is_none(),
        0 <= k < atoms.samples.len(),
        forall|i: int, j: int|
            0 <= i < atoms.samples.len() && 0 <= j < atoms.samples.len() ==> atoms.samples[i]
                == atoms.samples[j] && probe.samples[i] == probe.samples[j]
                && reference.samples[i] == reference.samples[j],
    ensures
        od_term(atoms, probe, reference, k).minuend == od_term(
            atoms,
            probe,
            reference,
            k,
        ).subtrahend,
{
    lemma_two_halves(atoms);
}

impl FKSpecies {
    /// Sets the background-free samples of three frames against each other,
    /// place by place.
    pub fn calc_od(img1: &SisImg, img2: &SisImg, img3: &SisImg) -> (r: Result<
        Reduction,
        DimensionError,
    >)
        ensures
            match r {
                Ok(reduced) => Ok::<ReductionView, DimensionError>(reduced@) == reduction(
                    img1@,
                    img2@,
                    img3@,
                ),
                Err(e) => Err::<ReductionView, DimensionError>(e) == reduction(
                    img1@,
                    img2@,
                    img3@,
                ),
            },
    {
        let height = img1.height();
        let width = img1.width();
        if height != img2.height() || width != img2.width() || height != img3.height() || width
            != img3.width() {
            return Err(DimensionError::FrameMismatch);
        }
        if height % 2 != 0 {
            return Err(DimensionError::OddHeight);
        }
        let atoms = img1.image();
        let probe = img2.image();
        let reference = img3.image();
        proof {
            lemma_two_halves(img1@);
        }
        let total: usize = atoms.len();
        let half: usize = total / 2;
        let mut terms: Vec<LogTerm> = Vec::new();
        let mut k: usize = 0;
        while k < total
            invariant
                k <= total,
                total == atoms@.len(),
                total == probe@.len(),
                total == reference@.len(),
                total == 2 * half,
                half == half_len(img1@),
                atoms@ == img1@.samples,
                probe@ == img2@.samples,
                reference@ == img3@.samples,
                terms@.len() == k,
                forall|i: int| 0 <= i < k ==> terms@[i] == od_term(img1@, img2@, img3@, i),
            decreases total - k,
        {
            let term = if k < half {
                LogTerm {
                    minuend: atoms[k + half] as i32 - reference[k + half] as i32,
                    subtrahend: atoms[k] as i32 - reference[k] as i32,
                }
            } else {
                LogTerm {
                    minuend: probe[k] as i32 - reference[k] as i32,
                    subtrahend: probe[k - half] as i32 - reference[k - half] as i32,
                }
            };
            terms.push(term);
            k += 1;
        }
        let reduced = Reduction { height, width, terms };
        assert(reduced@.terms =~= reduction(img1@, img2@, img3@).unwrap().terms);
        Ok(reduced)
    }

    /// Decodes the streams of the three frames and reduces them.
    pub fn reduce(atoms: &[u8], probe: &[u8], reference: &[u8]) -> (r: Result<
        Reduction,
        ProcessingError,
    >)
        ensures
            match r {
                Ok(reduced) => Ok::<ReductionView, Fault>(reduced@) == reduction_of_streams(
                    atoms@,
                    probe@,
                    reference@,
                ),
                Err(e) => Err::<ReductionView, Fault>(e@) == reduction_of_streams(
                    atoms@,
                    probe@,
                    reference@,
                ),
            },
    {
        let img1 = match SisImg::read(atoms) {
            Ok(img) => img,
            Err(e) => {
                return Err(ProcessingError::Format(e));
            },
        };
        let img2 = match SisImg::read(probe) {
            Ok(img) => img,
            Err(e) => {
                return Err(ProcessingError::Format(e));
            },
        };
        let img3 = match SisImg::read(reference) {
            Ok(img) => img,
            Err(e) => {
                return Err(ProcessingError::Format(e));
            },
        };
        match FKSpecies::calc_od(&img1, &img2, &img3) {
            Ok(reduced) => Ok(reduced),
            Err(e) => Err(ProcessingError::Dimension(e)),
        }
    }
}

} // verus!
