//! Document side of a small 3D geometry kernel: the error taxonomy shared by
//! every fallible constructor, exact fixed-point decimal formatting, and the
//! vector-graphics document that a projected scene is serialized into.
//!
//! The floating-point primitives and the camera pipeline live outside this
//! crate; what is verified here is everything whose meaning can be stated over
//! plain integers, characters and sequences: which error a constructor hands
//! out, how a number is printed, and the exact text of the rendered document.

mod error;
mod numfmt;
mod svg;

pub use error::{error_text, GeometryError};
pub use numfmt::{dec_str, digit_char, fixed_str, format_fixed, format_u64};
pub use svg::{
    background_text, box_edges, contains_text, document_text, element_text, elements_text,
    fill_attr_text, header_text, lemma_document_carries_strokes, lemma_document_shape, line_between, opt_str_view,
    opt_string_view, pair_text, pair_view, points_text, stroke_of, ElementV, RendererV, SVGElement,
    SVGRenderer,
};
