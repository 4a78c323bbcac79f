//! Pixel encodings of electrophoretic display panels: color families, the
//! frame-buffer codec that packs them, and the partial-window arithmetic of a
//! quad-color panel.
pub mod buffer;
pub mod color;
pub mod epd7in5_yrd0750ryf665f60;
pub mod lemmas;
