use vstd::arithmetic::div_mod::lemma_div_is_ordered;
use vstd::arithmetic::mul::lemma_mul_inequality;
use vstd::prelude::*;

use crate::geometry::{GridUnit, Mil, PixelPosition, PixelUnit, Rect, SixteenthPixel, Size};
use crate::interpret::{ErrorRatio, ResizeStrategy};

verus! {

/// The physical size class of a ballot card.
#[derive(Clone, Copy, Debug, PartialEq, Eq, Hash)]
pub enum BallotPaperSize {
    /// 8.5 by 11 inches.
    Letter,
    /// 8.5 by 14 inches.
    Legal,
}

/// Ballot card orientation.
#[derive(Clone, Copy, Debug, PartialEq, Eq, Hash)]
pub enum Orientation {
    /// The ballot card is portrait and right-side up.
    Portrait,
    /// The ballot card is portrait and upside down.
    PortraitReversed,
}

/// The pixel-space layout of a ballot card, derived from its [`PaperInfo`].
#[derive(Clone, Copy, Debug, PartialEq, Eq)]
pub struct Geometry {
    pub ballot_paper_size: BallotPaperSize,
    pub pixels_per_inch: PixelUnit,
    pub canvas_size: Size<PixelUnit>,
    pub content_area: Rect,
    pub timing_mark_size: Size<SixteenthPixel>,
    pub grid_size: Size<GridUnit>,
}

/// Which face of a two-sided ballot card.
#[derive(Clone, Copy, Debug, PartialEq, Eq)]
pub enum BallotSide {
    Front,
    Back,
}

/// A name that is neither `front` nor `back`, given where a ballot side was expected.
#[derive(Clone, Debug, PartialEq, Eq)]
pub struct UnknownSideName {
    pub name: String,
}

/// The side whose external name is `name`, if any.
pub open spec fn side_of_name(name: Seq<char>) -> Option<BallotSide> {
    if name == BallotSide::Front.spec_name() {
        Some(BallotSide::Front)
    } else if name == BallotSide::Back.spec_name() {
        Some(BallotSide::Back)
    } else {
        None
    }
}

/// Whether two strings hold the same characters.
fn str_equals(a: &str, b: &str) -> (r: bool)
    ensures
        r == (a@ == b@),
{
    let n = a.unicode_len();
    if n != b.unicode_len() {
        return false;
    }
    let mut i: usize = 0;
    while i < n
        invariant
            n == a@.len(),
            n == b@.len(),
            i <= n,
            forall|k: int| 0 <= k < i ==> a@[k] == b@[k],
        decreases n - i,
    {
        if a.get_char(i) != b.get_char(i) {
            return false;
        }
        i = i + 1;
    }
    assert(a@ =~= b@);
    true
}

impl BallotSide {
    /// The external name of the side.
    pub open spec fn spec_name(self) -> Seq<char> {
        match self {
            BallotSide::Front => seq!['f', 'r', 'o', 'n', 't'],
            BallotSide::Back => seq!['b', 'a', 'c', 'k'],
        }
    }

    /// The external name of the side: `front` or `back`.
    pub fn name(&self) -> (r: &'static str)
        ensures
            r@ == self.spec_name(),
    {
        match self {
            BallotSide::Front => {
                proof {
                    reveal_strlit("front");
                }
                assert("front"@ =~= BallotSide::Front.spec_name());
                "front"
            },
            BallotSide::Back => {
                proof {
                    reveal_strlit("back");
                }
                assert("back"@ =~= BallotSide::Back.spec_name());
                "back"
            },
        }
    }

    /// The side whose external name is `name`; any other name is refused.
    pub fn from_name(name: &str) -> (r: Result<BallotSide, UnknownSideName>)
        ensures
            match r {
                Ok(side) => side_of_name(name@) == Some(side),
                Err(e) => side_of_name(name@).is_none() && e.name@ == name@,
            },
    {
        if str_equals(name, BallotSide::Front.name()) {
            Ok(BallotSide::Front)
        } else if str_equals(name, BallotSide::Back.name()) {
            Ok(BallotSide::Back)
        } else {
            Err(UnknownSideName { name: name.to_owned() })
        }
    }
}

/// Expected PPI for scanned ballot cards.
pub const SCAN_PIXELS_PER_INCH: PixelUnit = 200;

/// Expected PPI for ballot card templates.
pub const TEMPLATE_PIXELS_PER_INCH: PixelUnit = 72;

/// Template margin on each side of the ballot card, in thousandths of an inch.
pub const TEMPLATE_MARGIN_MILS: Mil = 500;

/// Scanned margin on each side of the ballot card, in thousandths of an inch.
pub const SCAN_MARGIN_MILS: Mil = 0;

/// Width and height of a paper size class, in thousandths of an inch.
pub open spec fn paper_dimensions_mils(size: BallotPaperSize) -> (int, int) {
    match size {
        BallotPaperSize::Letter => (8500, 11000),
        BallotPaperSize::Legal => (8500, 14000),
    }
}

/// `pixels_per_inch * mils / 1000` rounded to the nearest whole pixel, halves
/// rounded up (away from zero, as all values here are non-negative).
pub open spec fn round_mils_to_pixels(pixels_per_inch: int, mils: int) -> int {
    (pixels_per_inch * mils + 500) / 1000
}

/// Rounding a length in mils to pixels keeps the order of lengths.
proof fn lemma_round_mils_monotone(pixels_per_inch: int, a: int, b: int)
    requires
        0 <= pixels_per_inch,
        0 <= a <= b,
    ensures
        0 <= round_mils_to_pixels(pixels_per_inch, a) <= round_mils_to_pixels(pixels_per_inch, b),
{
    lemma_mul_inequality(a, b, pixels_per_inch);
    assert(pixels_per_inch * a == a * pixels_per_inch) by (nonlinear_arith);
    assert(pixels_per_inch * b == b * pixels_per_inch) by (nonlinear_arith);
    assert(0 <= pixels_per_inch * a) by (nonlinear_arith)
        requires
            0 <= pixels_per_inch,
            0 <= a,
    ;
    lemma_div_is_ordered(pixels_per_inch * a + 500, pixels_per_inch * b + 500, 1000);
}

/// Rounds `pixels_per_inch * mils / 1000` to the nearest whole pixel.
fn mils_to_pixels(pixels_per_inch: PixelUnit, mils: u64) -> (r: u128)
    requires
        mils < 0x1_0000_0000_0000,
    ensures
        r == round_mils_to_pixels(pixels_per_inch as int, mils as int),
{
    proof {
        assert((pixels_per_inch as int) * (mils as int) < 0x1_0000_0000 * 0x1_0000_0000_0000)
            by (nonlinear_arith)
            requires
                pixels_per_inch < 0x1_0000_0000,
                mils < 0x1_0000_0000_0000,
        ;
        assert(0 <= (pixels_per_inch as int) * (mils as int)) by (nonlinear_arith);
    }
    ((pixels_per_inch as u128) * (mils as u128) + 500) / 1000
}

/// Timing-mark grid size (columns, rows) of a paper size class.
pub open spec fn grid_size_of(size: BallotPaperSize) -> (int, int) {
    match size {
        BallotPaperSize::Letter => (34, 41),
        BallotPaperSize::Legal => (34, 53),
    }
}

/// A supported paper stock: its size class, its margins, and the resolution
/// at which it is rendered or scanned.
#[derive(Clone, Copy, Debug, PartialEq, Eq)]
pub struct PaperInfo {
    pub size: BallotPaperSize,
    /// Margin on each side, in thousandths of an inch.
    pub margins: Size<Mil>,
    pub pixels_per_inch: PixelUnit,
}

impl PaperInfo {
    /// Canvas width in pixels: the paper width plus both margins, at this resolution.
    pub open spec fn spec_canvas_width(self) -> int {
        round_mils_to_pixels(
            self.pixels_per_inch as int,
            paper_dimensions_mils(self.size).0 + 2 * self.margins.width,
        )
    }

    /// Canvas height in pixels: the paper height plus both margins, at this resolution.
    pub open spec fn spec_canvas_height(self) -> int {
        round_mils_to_pixels(
            self.pixels_per_inch as int,
            paper_dimensions_mils(self.size).1 + 2 * self.margins.height,
        )
    }

    /// Left edge of the content area: the left margin in whole pixels.
    pub open spec fn spec_content_left(self) -> int {
        round_mils_to_pixels(self.pixels_per_inch as int, self.margins.width as int)
    }

    /// Top edge of the content area: the top margin in whole pixels.
    pub open spec fn spec_content_top(self) -> int {
        round_mils_to_pixels(self.pixels_per_inch as int, self.margins.height as int)
    }

    /// A descriptor whose resolution is positive and whose pixel geometry fits
    /// the integer types of [`Geometry`].
    pub open spec fn is_valid(self) -> bool {
        &&& self.pixels_per_inch > 0
        &&& self.spec_canvas_width() <= PixelUnit::MAX
        &&& self.spec_canvas_height() <= PixelUnit::MAX
        &&& self.spec_content_left() <= PixelPosition::MAX
        &&& self.spec_content_top() <= PixelPosition::MAX
    }

    /// The canvas size (width, height) in pixels.
    pub open spec fn spec_canvas_size(self) -> (PixelUnit, PixelUnit) {
        (self.spec_canvas_width() as PixelUnit, self.spec_canvas_height() as PixelUnit)
    }

    /// The geometry of this paper stock.
    pub open spec fn spec_geometry(self) -> Geometry {
        Geometry {
            ballot_paper_size: self.size,
            pixels_per_inch: self.pixels_per_inch,
            canvas_size: Size {
                width: self.spec_canvas_width() as PixelUnit,
                height: self.spec_canvas_height() as PixelUnit,
            },
            content_area: Rect {
                left: self.spec_content_left() as PixelPosition,
                top: self.spec_content_top() as PixelPosition,
                width: (self.spec_canvas_width() - self.spec_content_left()) as PixelUnit,
                height: (self.spec_canvas_height() - self.spec_content_top()) as PixelUnit,
            },
            timing_mark_size: Size {
                width: (3 * self.pixels_per_inch) as SixteenthPixel,
                height: self.pixels_per_inch as SixteenthPixel,
            },
            grid_size: Size {
                width: grid_size_of(self.size).0 as GridUnit,
                height: grid_size_of(self.size).1 as GridUnit,
            },
        }
    }

    /// The paper stock of a letter-sized scanned ballot card.
    pub open spec fn spec_scanned_letter() -> PaperInfo {
        PaperInfo {
            size: BallotPaperSize::Letter,
            margins: Size { width: SCAN_MARGIN_MILS, height: SCAN_MARGIN_MILS },
            pixels_per_inch: SCAN_PIXELS_PER_INCH,
        }
    }

    /// The paper stock of a legal-sized scanned ballot card.
    pub open spec fn spec_scanned_legal() -> PaperInfo {
        PaperInfo {
            size: BallotPaperSize::Legal,
            margins: Size { width: SCAN_MARGIN_MILS, height: SCAN_MARGIN_MILS },
            pixels_per_inch: SCAN_PIXELS_PER_INCH,
        }
    }

    /// The paper stock of a letter-sized ballot card template.
    pub open spec fn spec_template_letter() -> PaperInfo {
        PaperInfo {
            size: BallotPaperSize::Letter,
            margins: Size { width: TEMPLATE_MARGIN_MILS, height: TEMPLATE_MARGIN_MILS },
            pixels_per_inch: TEMPLATE_PIXELS_PER_INCH,
        }
    }

    /// The paper stock of a legal-sized ballot card template.
    pub open spec fn spec_template_legal() -> PaperInfo {
        PaperInfo {
            size: BallotPaperSize::Legal,
            margins: Size { width: TEMPLATE_MARGIN_MILS, height: TEMPLATE_MARGIN_MILS },
            pixels_per_inch: TEMPLATE_PIXELS_PER_INCH,
        }
    }

    /// Computes the pixel geometry of this paper stock.
    pub fn compute_geometry(&self) -> (r: Geometry)
        requires
            self.is_valid(),
        ensures
            r == self.spec_geometry(),
            r.content_area.width <= r.canvas_size.width,
            r.content_area.height <= r.canvas_size.height,
    {
        let ballot_paper_size = self.size;
        let margins = self.margins;
        let pixels_per_inch = self.pixels_per_inch;
        let (width, height): (u64, u64) = match ballot_paper_size {
            BallotPaperSize::Letter => (8500, 11000),
            BallotPaperSize::Legal => (8500, 14000),
        };
        let canvas_width = mils_to_pixels(pixels_per_inch, width + 2 * (margins.width as u64));
        let canvas_height = mils_to_pixels(pixels_per_inch, height + 2 * (margins.height as u64));
        let left = mils_to_pixels(pixels_per_inch, margins.width as u64);
        let top = mils_to_pixels(pixels_per_inch, margins.height as u64);
        proof {
            lemma_round_mils_monotone(
                pixels_per_inch as int,
                margins.width as int,
                width + 2 * margins.width,
            );
            lemma_round_mils_monotone(
                pixels_per_inch as int,
                margins.height as int,
                height + 2 * margins.height,
            );
        }
        let canvas_size = Size {
            width: canvas_width as PixelUnit,
            height: canvas_height as PixelUnit,
        };
        let content_area = Rect::new(
            left as PixelPosition,
            top as PixelPosition,
            (canvas_width - left) as PixelUnit,
            (canvas_height - top) as PixelUnit,
        );
        let timing_mark_size = Size {
            width: 3 * (pixels_per_inch as SixteenthPixel),
            height: pixels_per_inch as SixteenthPixel,
        };
        let grid_size = match ballot_paper_size {
            BallotPaperSize::Letter => Size { width: 34, height: 41 },
            BallotPaperSize::Legal => Size { width: 34, height: 53 },
        };
        Geometry {
            ballot_paper_size,
            pixels_per_inch,
            canvas_size,
            content_area,
            timing_mark_size,
            grid_size,
        }
    }

    /// Returns info for a letter-sized scanned ballot card.
    pub fn scanned_letter() -> (r: Self)
        ensures
            r == Self::spec_scanned_letter(),
            r.is_valid(),
    {
        PaperInfo {
            size: BallotPaperSize::Letter,
            margins: Size { width: SCAN_MARGIN_MILS, height: SCAN_MARGIN_MILS },
            pixels_per_inch: SCAN_PIXELS_PER_INCH,
        }
    }

    /// Returns info for a legal-sized scanned ballot card.
    pub fn scanned_legal() -> (r: Self)
        ensures
            r == Self::spec_scanned_legal(),
            r.is_valid(),
    {
        PaperInfo {
            size: BallotPaperSize::Legal,
            margins: Size { width: SCAN_MARGIN_MILS, height: SCAN_MARGIN_MILS },
            pixels_per_inch: SCAN_PIXELS_PER_INCH,
        }
    }

    /// Returns info for a letter-sized ballot card template.
    pub fn template_letter() -> (r: Self)
        ensures
            r == Self::spec_template_letter(),
            r.is_valid(),
    {
        PaperInfo {
            size: BallotPaperSize::Letter,
            margins: Size { width: TEMPLATE_MARGIN_MILS, height: TEMPLATE_MARGIN_MILS },
            pixels_per_inch: TEMPLATE_PIXELS_PER_INCH,
        }
    }

    /// Returns info for a legal-sized ballot card template.
    pub fn template_legal() -> (r: Self)
        ensures
            r == Self::spec_template_legal(),
            r.is_valid(),
    {
        PaperInfo {
            size: BallotPaperSize::Legal,
            margins: Size { width: TEMPLATE_MARGIN_MILS, height: TEMPLATE_MARGIN_MILS },
            pixels_per_inch: TEMPLATE_PIXELS_PER_INCH,
        }
    }

    /// Returns info for all supported scanned paper sizes.
    pub fn scanned() -> (r: [Self; 2])
        ensures
            r@ == seq![Self::spec_scanned_letter(), Self::spec_scanned_legal()],
    {
        let r = [Self::scanned_letter(), Self::scanned_legal()];
        assert(r@ =~= seq![Self::spec_scanned_letter(), Self::spec_scanned_legal()]);
        r
    }

    /// Returns info for all supported template paper sizes.
    pub fn template() -> (r: [Self; 2])
        ensures
            r@ == seq![Self::spec_template_letter(), Self::spec_template_legal()],
    {
        let r = [Self::template_letter(), Self::template_legal()];
        assert(r@ =~= seq![Self::spec_template_letter(), Self::spec_template_legal()]);
        r
    }
}


/// The error of each candidate's canvas size against the observed image size.
pub open spec fn candidate_errors(
    size: (PixelUnit, PixelUnit),
    candidates: Seq<PaperInfo>,
    resize_strategy: ResizeStrategy,
) -> Seq<ErrorRatio> {
    candidates.map_values(|p: PaperInfo| resize_strategy.spec_error(p.spec_canvas_size(), size))
}

/// Index of the first smallest error: scanning left to right, the running best
/// is replaced only by an error strictly smaller than it. Errors that cannot be
/// compared (one of them is not a number) keep the running best.
pub open spec fn best_error_index(errors: Seq<ErrorRatio>) -> int
    decreases errors.len(),
{
    if errors.len() <= 1 {
        0
    } else {
        let best = best_error_index(errors.drop_last());
        if errors.last().spec_less_than(errors[best]) {
            errors.len() - 1
        } else {
            best
        }
    }
}

/// The candidate whose canvas best fits the observed size, if its error is
/// within the acceptance threshold; none for an empty candidate list.
pub open spec fn matching_paper_info(
    size: (PixelUnit, PixelUnit),
    candidates: Seq<PaperInfo>,
    resize_strategy: ResizeStrategy,
) -> Option<PaperInfo> {
    if candidates.len() == 0 {
        None
    } else {
        let errors = candidate_errors(size, candidates, resize_strategy);
        let best = best_error_index(errors);
        if errors[best].spec_within_threshold() {
            Some(candidates[best])
        } else {
            None
        }
    }
}

/// The best index of a non-empty error list is one of its indices, and no
/// error in the list is strictly smaller than the one there.
pub proof fn lemma_best_error_index_is_minimal(errors: Seq<ErrorRatio>)
    requires
        errors.len() > 0,
    ensures
        0 <= best_error_index(errors) < errors.len(),
        forall|j: int|
            0 <= j < errors.len() ==> !(#[trigger] errors[j]).spec_less_than(
                errors[best_error_index(errors)],
            ),
    decreases errors.len(),
{
    if errors.len() > 1 {
        let prefix = errors.drop_last();
        lemma_best_error_index_is_minimal(prefix);
        let b = best_error_index(prefix);
        let last = errors.last();
        if last.spec_less_than(errors[b]) {
            assert forall|j: int| 0 <= j < errors.len() implies !(
            #[trigger] errors[j]).spec_less_than(last) by {
                if j < errors.len() - 1 && errors[j].spec_less_than(last) {
                    assert(prefix[j] == errors[j]);
                    ErrorRatio::lemma_less_than_transitive(errors[j], last, errors[b]);
                }
            }
        } else {
            assert forall|j: int| 0 <= j < errors.len() implies !(
            #[trigger] errors[j]).spec_less_than(errors[b]) by {
                if j < errors.len() - 1 {
                    assert(prefix[j] == errors[j]);
                }
            }
        }
    }
}

/// A match is one of the candidates, its error is within the acceptance
/// threshold, and no candidate's canvas fits the observed size strictly better.
pub proof fn lemma_match_is_best_acceptable_candidate(
    size: (PixelUnit, PixelUnit),
    candidates: Seq<PaperInfo>,
    resize_strategy: ResizeStrategy,
    found: PaperInfo,
)
    requires
        matching_paper_info(size, candidates, resize_strategy) == Some(found),
    ensures
        exists|i: int|
            {
                let errors = candidate_errors(size, candidates, resize_strategy);
                &&& 0 <= i < candidates.len()
                &&& #[trigger] candidates[i] == found
                &&& errors[i].spec_within_threshold()
                &&& forall|j: int|
                    0 <= j < candidates.len() ==> !(#[trigger] errors[j]).spec_less_than(errors[i])
            },
{
    let errors = candidate_errors(size, candidates, resize_strategy);
    lemma_best_error_index_is_minimal(errors);
    let i = best_error_index(errors);
    assert(candidates[i] == found);
}

/// Finds the paper stock among `possible_paper_info` whose canvas best fits an
/// image of `size` (width, height) pixels, if it fits well enough.
pub fn get_matching_paper_info_for_image_size(
    size: (PixelUnit, PixelUnit),
    possible_paper_info: &[PaperInfo],
    resize_strategy: ResizeStrategy,
) -> (r: Option<PaperInfo>)
    requires
        forall|i: int|
            0 <= i < possible_paper_info@.len() ==> #[trigger] possible_paper_info@[i].is_valid(),
    ensures
        r == matching_paper_info(size, possible_paper_info@, resize_strategy),
        possible_paper_info@.len() == 0 ==> r.is_none(),
{
    let n = possible_paper_info.len();
    if n == 0 {
        return None;
    }
    let ghost errors = candidate_errors(size, possible_paper_info@, resize_strategy);
    let first = possible_paper_info[0].compute_geometry();
    let mut best: usize = 0;
    let mut best_error = resize_strategy.compute_error(
        (first.canvas_size.width, first.canvas_size.height),
        size,
    );
    let mut i: usize = 1;
    while i < n
        invariant
            n == possible_paper_info@.len(),
            1 <= i <= n,
            errors == candidate_errors(size, possible_paper_info@, resize_strategy),
            forall|k: int| 0 <= k < n ==> #[trigger] possible_paper_info@[k].is_valid(),
            best as int == best_error_index(errors.take(i as int)),
            best < i,
            best_error == errors[best as int],
        decreases n - i,
    {
        let geometry = possible_paper_info[i].compute_geometry();
        let error = resize_strategy.compute_error(
            (geometry.canvas_size.width, geometry.canvas_size.height),
            size,
        );
        proof {
            let prefix = errors.take(i as int + 1);
            assert(prefix.drop_last() =~= errors.take(i as int));
            assert(prefix.last() == errors[i as int]);
        }
        if error.is_less_than(&best_error) {
            best = i;
            best_error = error;
        }
        i = i + 1;
    }
    assert(errors.take(n as int) =~= errors);
    if best_error.is_within_threshold() {
        Some(possible_paper_info[best])
    } else {
        None
    }
}

/// Decoding the name of a side gives that side back.
pub proof fn lemma_side_name_round_trip(side: BallotSide)
    ensures
        side_of_name(side.spec_name()) == Some(side),
{
    assert(BallotSide::Front.spec_name().len() != BallotSide::Back.spec_name().len());
}

/// Equal paper stocks have equal geometry.
pub proof fn lemma_geometry_deterministic(a: PaperInfo, b: PaperInfo)
    requires
        a.is_valid(),
        a == b,
    ensures
        a.spec_geometry() == b.spec_geometry(),
{
}

/// The content area of a valid paper stock lies within its canvas.
pub proof fn lemma_content_area_within_canvas(p: PaperInfo)
    requires
        p.is_valid(),
    ensures
        p.spec_geometry().content_area.width <= p.spec_geometry().canvas_size.width,
        p.spec_geometry().content_area.height <= p.spec_geometry().canvas_size.height,
{
    let ppi = p.pixels_per_inch as int;
    let (w, h) = paper_dimensions_mils(p.size);
    lemma_round_mils_monotone(ppi, p.margins.width as int, w + 2 * p.margins.width);
    lemma_round_mils_monotone(ppi, p.margins.height as int, h + 2 * p.margins.height);
}

/// The timing-mark grid is 34 by 41 cells on letter paper and 34 by 53 on
/// legal paper, whatever the margins and the resolution.
pub proof fn lemma_grid_size_by_paper_size(p: PaperInfo)
    ensures
        p.size == BallotPaperSize::Letter ==> p.spec_geometry().grid_size == (Size::<GridUnit> {
            width: 34,
            height: 41,
        }),
        p.size == BallotPaperSize::Legal ==> p.spec_geometry().grid_size == (Size::<GridUnit> {
            width: 34,
            height: 53,
        }),
{
}

/// An empty candidate list never matches.
pub proof fn lemma_no_candidates_no_match(
    size: (PixelUnit, PixelUnit),
    resize_strategy: ResizeStrategy,
)
    ensures
        matching_paper_info(size, Seq::<PaperInfo>::empty(), resize_strategy).is_none(),
{
}

} // verus!
