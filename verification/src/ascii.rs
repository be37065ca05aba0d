//! Conversion of camera frames to character art: grayscale conversion,
//! downsampling to a character grid, brightness-to-character mapping,
//! dithering, edge detection and braille rendering.
pub mod braille;
pub mod charset;
pub mod diffusion;
pub mod dimensions;
pub mod dither;
pub mod downsample;
pub mod edges;
pub mod grayscale;
pub mod mapping;

pub use charset::{CharSet, BLOCKS_CHARSET, MINIMAL_CHARSET, STANDARD_CHARSET};
pub use dimensions::calculate_dimensions;
pub use downsample::{downsample, downsample_colors_into, downsample_into, CellColor};
pub use edges::{apply_edge_detection, map_structure_aware, EdgeDirection, StructureCharset};
pub use grayscale::{to_grayscale, to_grayscale_into};
pub use mapping::{gamma_correct, map_to_chars, map_to_chars_gamma, map_to_chars_gamma_into, map_to_chars_into};
pub use dither::map_to_chars_ordered_dither;
pub use diffusion::map_to_chars_dithered;
pub use braille::render as render_braille;
pub use braille::render_into as render_braille_into;
pub use braille::{grid_to_braille, BRAILLE_BASE};
