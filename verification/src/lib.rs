//! A Base16 color palette for terminal user interfaces.
//!
//! A [`Base16Palette`] holds the sixteen color slots of the Base16 styling
//! convention (`base00` through `base0f`) together with descriptive
//! metadata. Palettes are loaded from YAML or TOML documents by [`codec`],
//! whose string values are parsed by the color-token grammar in [`color`],
//! or taken from the built-in preset catalog in [`presets`]. A load either
//! yields a fully populated palette or fails as a whole with a single
//! [`Base16PaletteError`]; no partial palette is ever returned.

pub mod codec;
pub mod color;
pub mod palette;
pub mod presets;

pub use color::Color;
pub use palette::Base16Palette;
pub use palette::Base16PaletteError;
