//! Build-time transforms for embedded stylesheet text and binary assets.
//!
//! Embedded text is either inline source or a quoted file reference
//! (`source`). Inline stylesheet text is repaired of the spacing that
//! tokenization put into it (`repair`) before the stylesheet grammar sees it
//! (`stylesheet`). Image and font files are embedded as their bytes together
//! with a data URI of the same bytes (`asset`).
pub mod asset;
pub mod repair;
pub mod source;
pub mod stylesheet;
