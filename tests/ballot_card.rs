use ballot_interpreter_nh::{
    get_matching_paper_info_for_image_size, BallotPaperSize, BallotSide, ErrorRatio, PaperInfo,
    Rect, ResizeStrategy, Size, UnknownSideName,
};

#[test]
fn test_get_scanned_ballot_card_geometry() {
    assert_eq!(
        get_matching_paper_info_for_image_size((1696, 2200), &PaperInfo::scanned(), ResizeStrategy::Fit),
        Some(PaperInfo::scanned_letter())
    );
    assert_eq!(
        get_matching_paper_info_for_image_size((1696, 2800), &PaperInfo::scanned(), ResizeStrategy::Fit),
        Some(PaperInfo::scanned_legal())
    );
    assert_eq!(
        get_matching_paper_info_for_image_size((1500, 1500), &PaperInfo::scanned(), ResizeStrategy::Fit),
        None
    );
}

#[test]
fn test_ballot_side_deserialize() {
    assert_eq!(BallotSide::from_name("front").unwrap(), BallotSide::Front);
    assert_eq!(BallotSide::from_name("back").unwrap(), BallotSide::Back);
    assert!(BallotSide::from_name("foo").is_err());
}

#[test]
fn test_ballot_side_serialize() {
    assert_eq!(BallotSide::Front.name(), "front");
    assert_eq!(BallotSide::Back.name(), "back");
}

#[test]
fn side_name_round_trip() {
    for side in [BallotSide::Front, BallotSide::Back] {
        assert_eq!(BallotSide::from_name(side.name()), Ok(side));
    }
}

#[test]
fn unknown_side_name_is_reported() {
    assert_eq!(
        BallotSide::from_name("Front"),
        Err(UnknownSideName { name: "Front".to_string() })
    );
    assert_eq!(BallotSide::from_name(""), Err(UnknownSideName { name: String::new() }));
    assert!(BallotSide::from_name("fron").is_err());
    assert!(BallotSide::from_name("backs").is_err());
}

#[test]
fn catalog_entries() {
    let letter = PaperInfo::scanned_letter();
    assert_eq!(letter.size, BallotPaperSize::Letter);
    assert_eq!(letter.margins, Size { width: 0, height: 0 });
    assert_eq!(letter.pixels_per_inch, 200);
    let legal = PaperInfo::template_legal();
    assert_eq!(legal.size, BallotPaperSize::Legal);
    assert_eq!(legal.margins, Size { width: 500, height: 500 });
    assert_eq!(legal.pixels_per_inch, 72);
    assert_eq!(PaperInfo::scanned(), [PaperInfo::scanned_letter(), PaperInfo::scanned_legal()]);
    assert_eq!(PaperInfo::template(), [PaperInfo::template_letter(), PaperInfo::template_legal()]);
}

#[test]
fn scanned_letter_geometry() {
    let g = PaperInfo::scanned_letter().compute_geometry();
    assert_eq!(g.ballot_paper_size, BallotPaperSize::Letter);
    assert_eq!(g.pixels_per_inch, 200);
    assert_eq!(g.canvas_size, Size { width: 1700, height: 2200 });
    assert_eq!(g.content_area, Rect::new(0, 0, 1700, 2200));
    // 37.5 by 12.5 pixels
    assert_eq!(g.timing_mark_size, Size { width: 600, height: 200 });
    assert_eq!(g.grid_size, Size { width: 34, height: 41 });
}

#[test]
fn scanned_legal_geometry() {
    let g = PaperInfo::scanned_legal().compute_geometry();
    assert_eq!(g.canvas_size, Size { width: 1700, height: 2800 });
    assert_eq!(g.content_area, Rect::new(0, 0, 1700, 2800));
    assert_eq!(g.grid_size, Size { width: 34, height: 53 });
}

#[test]
fn template_geometry() {
    let letter = PaperInfo::template_letter().compute_geometry();
    assert_eq!(letter.canvas_size, Size { width: 684, height: 864 });
    assert_eq!(letter.content_area, Rect::new(36, 36, 648, 828));
    // 13.5 by 4.5 pixels
    assert_eq!(letter.timing_mark_size, Size { width: 216, height: 72 });
    assert_eq!(letter.grid_size, Size { width: 34, height: 41 });
    let legal = PaperInfo::template_legal().compute_geometry();
    assert_eq!(legal.canvas_size, Size { width: 684, height: 1080 });
    assert_eq!(legal.content_area, Rect::new(36, 36, 648, 1044));
    assert_eq!(legal.grid_size, Size { width: 34, height: 53 });
}

#[test]
fn geometry_is_deterministic() {
    for p in PaperInfo::scanned().iter().chain(PaperInfo::template().iter()) {
        assert_eq!(p.compute_geometry(), p.compute_geometry());
    }
}

#[test]
fn geometry_rounds_half_up_and_keeps_content_within_canvas() {
    // 0.25 in at 2 PPI is half a pixel: rounded up to 1.
    let p = PaperInfo {
        size: BallotPaperSize::Letter,
        margins: Size { width: 250, height: 1 },
        pixels_per_inch: 2,
    };
    let g = p.compute_geometry();
    // 2 * 9.0 in = 18; 2 * 11.002 in = 22.004 -> 22
    assert_eq!(g.canvas_size, Size { width: 18, height: 22 });
    assert_eq!(g.content_area, Rect::new(1, 0, 17, 22));
    assert!(g.content_area.width <= g.canvas_size.width);
    assert!(g.content_area.height <= g.canvas_size.height);
    assert_eq!(g.timing_mark_size, Size { width: 6, height: 2 });
    assert_eq!(g.grid_size, Size { width: 34, height: 41 });
}

#[test]
fn grid_size_ignores_margin_and_resolution() {
    let p = PaperInfo {
        size: BallotPaperSize::Legal,
        margins: Size { width: 1234, height: 77 },
        pixels_per_inch: 300,
    };
    assert_eq!(p.compute_geometry().grid_size, Size { width: 34, height: 53 });
}

#[test]
fn matching_against_no_candidates_is_none() {
    assert_eq!(get_matching_paper_info_for_image_size((1700, 2200), &[], ResizeStrategy::Fit), None);
}

#[test]
fn matching_against_template_candidates() {
    assert_eq!(
        get_matching_paper_info_for_image_size((684, 1080), &PaperInfo::template(), ResizeStrategy::Fit),
        Some(PaperInfo::template_legal())
    );
}

#[test]
fn matching_ties_keep_first_candidate() {
    // Half the resolution: an 850 by 1100 canvas, the same aspect ratio as 1700 by 2200.
    let coarse_letter = PaperInfo {
        size: BallotPaperSize::Letter,
        margins: Size { width: 0, height: 0 },
        pixels_per_inch: 100,
    };
    assert_eq!(coarse_letter.compute_geometry().canvas_size, Size { width: 850, height: 1100 });
    let candidates = [coarse_letter, PaperInfo::scanned_letter()];
    assert_eq!(
        get_matching_paper_info_for_image_size((1696, 2200), &candidates, ResizeStrategy::Fit),
        Some(coarse_letter)
    );
    let candidates = [PaperInfo::scanned_letter(), coarse_letter];
    assert_eq!(
        get_matching_paper_info_for_image_size((1696, 2200), &candidates, ResizeStrategy::Fit),
        Some(PaperInfo::scanned_letter())
    );
}

#[test]
fn matching_zero_height_image_is_none() {
    assert_eq!(
        get_matching_paper_info_for_image_size((1700, 0), &PaperInfo::scanned(), ResizeStrategy::Fit),
        None
    );
}

#[test]
fn fit_error_is_aspect_ratio_difference() {
    let e = ResizeStrategy::Fit.compute_error((1700, 2200), (1696, 2200));
    assert_eq!(e, ErrorRatio { numerator: 8800, denominator: 4_840_000 });
    assert!(e.is_within_threshold());
    let e = ResizeStrategy::Fit.compute_error((1700, 2800), (1696, 2200));
    assert_eq!(e, ErrorRatio { numerator: 1_008_800, denominator: 6_160_000 });
    assert!(!e.is_within_threshold());
    let undefined = ResizeStrategy::Fit.compute_error((1700, 0), (1, 1));
    assert_eq!(undefined.denominator, 0);
    assert!(!undefined.is_within_threshold());
}

#[test]
fn error_comparison_and_threshold() {
    let small = ErrorRatio { numerator: 1, denominator: 100 };
    let large = ErrorRatio { numerator: 1, denominator: 10 };
    let nan = ErrorRatio { numerator: 0, denominator: 0 };
    assert!(small.is_less_than(&large));
    assert!(!large.is_less_than(&small));
    assert!(!small.is_less_than(&small));
    assert!(!nan.is_less_than(&small));
    assert!(!small.is_less_than(&nan));
    // exactly 5% is not accepted
    assert!(!ErrorRatio { numerator: 1, denominator: 20 }.is_within_threshold());
    assert!(ErrorRatio { numerator: 49, denominator: 1000 }.is_within_threshold());
}
