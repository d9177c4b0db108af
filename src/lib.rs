//! Ballot card geometry: the catalog of supported paper stocks, the pixel
//! geometry each one yields, and the selection of the stock that best fits a
//! scanned image's size.

pub mod ballot_card;
pub mod geometry;
pub mod interpret;

pub use ballot_card::{
    get_matching_paper_info_for_image_size, BallotPaperSize, BallotSide, Geometry, Orientation,
    PaperInfo, UnknownSideName,
};
pub use geometry::{GridUnit, Mil, PixelPosition, PixelUnit, Rect, SixteenthPixel, Size};
pub use interpret::{ErrorRatio, ResizeStrategy};
