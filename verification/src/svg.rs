use vstd::prelude::*;
use vstd::string::StringExecFns;

use crate::numfmt::{dec_str, fixed_str};

verus! {

/// A drawing element of the two-dimensional document.
///
/// Every coordinate, radius and stroke width is a count of hundredths: the
/// document renders each numeric attribute with exactly two decimal places,
/// so a count of hundredths carries the rendered value exactly.  `fill` is
/// optional; an absent fill is serialized as an explicit `none` marker, not
/// by omitting the attribute.
#[derive(Debug, Clone)]
pub enum SVGElement {
    Circle {
        cx: i64,
        cy: i64,
        r: i64,
        stroke: String,
        fill: Option<String>,
        stroke_width: i64,
    },
    Line {
        x1: i64,
        y1: i64,
        x2: i64,
        y2: i64,
        stroke: String,
        stroke_width: i64,
    },
    Polygon {
        points: Vec<(i64, i64)>,
        stroke: String,
        fill: Option<String>,
        stroke_width: i64,
    },
}

/// The mathematical value of a drawing element.
pub enum ElementV {
    Circle {
        cx: int,
        cy: int,
        r: int,
        stroke: Seq<char>,
        fill: Option<Seq<char>>,
        stroke_width: int,
    },
    Line {
        x1: int,
        y1: int,
        x2: int,
        y2: int,
        stroke: Seq<char>,
        stroke_width: int,
    },
    Polygon {
        points: Seq<(int, int)>,
        stroke: Seq<char>,
        fill: Option<Seq<char>>,
        stroke_width: int,
    },
}

/// The value of an optional owned color.
pub open spec fn opt_string_view(o: Option<String>) -> Option<Seq<char>> {
    match o {
        Some(c) => Some(c@),
        None => None,
    }
}

/// The value of an optional borrowed color.
pub open spec fn opt_str_view(o: Option<&str>) -> Option<Seq<char>> {
    match o {
        Some(c) => Some(c@),
        None => None,
    }
}

/// The value of a screen point given in hundredths.
pub open spec fn pair_view(p: (i64, i64)) -> (int, int) {
    (p.0 as int, p.1 as int)
}

impl View for SVGElement {
    type V = ElementV;

    open spec fn view(&self) -> ElementV {
        match self {
            SVGElement::Circle { cx, cy, r, stroke, fill, stroke_width } => ElementV::Circle {
                cx: *cx as int,
                cy: *cy as int,
                r: *r as int,
                stroke: stroke@,
                fill: opt_string_view(*fill),
                stroke_width: *stroke_width as int,
            },
            SVGElement::Line { x1, y1, x2, y2, stroke, stroke_width } => ElementV::Line {
                x1: *x1 as int,
                y1: *y1 as int,
                x2: *x2 as int,
                y2: *y2 as int,
                stroke: stroke@,
                stroke_width: *stroke_width as int,
            },
            SVGElement::Polygon { points, stroke, fill, stroke_width } => ElementV::Polygon {
                points: points@.map_values(|p: (i64, i64)| pair_view(p)),
                stroke: stroke@,
                fill: opt_string_view(*fill),
                stroke_width: *stroke_width as int,
            },
        }
    }
}

/// The fill attribute: the fill color when one is set, an explicit `none`
/// marker when not.
pub open spec fn fill_attr_text(fill: Option<Seq<char>>) -> Seq<char> {
    match fill {
        Some(f) => "fill=\""@ + f + "\""@,
        None => "fill=\"none\""@,
    }
}

/// One vertex of a polygon's point list: the two coordinates separated by a
/// comma.
pub open spec fn pair_text(p: (int, int)) -> Seq<char> {
    fixed_str(p.0) + seq![','] + fixed_str(p.1)
}

/// A polygon's point list: the vertices in order, separated by single
/// spaces.
pub open spec fn points_text(ps: Seq<(int, int)>) -> Seq<char>
    decreases ps.len(),
{
    if ps.len() == 0 {
        Seq::empty()
    } else if ps.len() == 1 {
        pair_text(ps[0])
    } else {
        points_text(ps.drop_last()) + seq![' '] + pair_text(ps.last())
    }
}

/// The serialized form of a single drawing element.
pub open spec fn element_text(e: ElementV) -> Seq<char> {
    match e {
        ElementV::Circle { cx, cy, r, stroke, fill, stroke_width } => "<circle cx=\""@
            + fixed_str(cx) + "\" cy=\""@ + fixed_str(cy) + "\" r=\""@ + fixed_str(r)
            + "\" stroke=\""@ + stroke + "\" "@ + fill_attr_text(fill) + " stroke-width=\""@
            + fixed_str(stroke_width) + "\" />"@,
        ElementV::Line { x1, y1, x2, y2, stroke, stroke_width } => "<line x1=\""@ + fixed_str(x1)
            + "\" y1=\""@ + fixed_str(y1) + "\" x2=\""@ + fixed_str(x2) + "\" y2=\""@ + fixed_str(
            y2,
        ) + "\" stroke=\""@ + stroke + "\" stroke-width=\""@ + fixed_str(stroke_width) + "\" />"@,
        ElementV::Polygon { points, stroke, fill, stroke_width } => "<polygon points=\""@
            + points_text(points) + "\" stroke=\""@ + stroke + "\" "@ + fill_attr_text(fill)
            + " stroke-width=\""@ + fixed_str(stroke_width) + "\" />"@,
    }
}

/// Appends the fill attribute for `fill` to `s`.
fn push_fill_attr(s: &mut String, fill: &Option<String>)
    ensures
        final(s)@ == old(s)@ + fill_attr_text(opt_string_view(*fill)),
{
    match fill {
        Some(f) => {
            s.append("fill=\"");
            s.append(f.as_str());
            s.append("\"");
            proof {
                assert(s@ =~= old(s)@ + fill_attr_text(opt_string_view(*fill)));
            }
        },
        None => {
            s.append("fill=\"none\"");
        },
    }
}

impl SVGElement {
    /// Serializes this element, exactly as `element_text` describes it.
    pub fn to_svg_string(&self) -> (r: String)
        ensures
            r@ == element_text(self@),
    {
        let mut s = String::new();
        match self {
            SVGElement::Circle { cx, cy, r, stroke, fill, stroke_width } => {
                s.append("<circle cx=\"");
                crate::numfmt::push_fixed(&mut s, *cx);
                s.append("\" cy=\"");
                crate::numfmt::push_fixed(&mut s, *cy);
                s.append("\" r=\"");
                crate::numfmt::push_fixed(&mut s, *r);
                s.append("\" stroke=\"");
                s.append(stroke.as_str());
                s.append("\" ");
                push_fill_attr(&mut s, fill);
                s.append(" stroke-width=\"");
                crate::numfmt::push_fixed(&mut s, *stroke_width);
                s.append("\" />");
                proof {
                    assert(s@ =~= element_text(self@));
                }
            },
            SVGElement::Line { x1, y1, x2, y2, stroke, stroke_width } => {
                s.append("<line x1=\"");
                crate::numfmt::push_fixed(&mut s, *x1);
                s.append("\" y1=\"");
                crate::numfmt::push_fixed(&mut s, *y1);
                s.append("\" x2=\"");
                crate::numfmt::push_fixed(&mut s, *x2);
                s.append("\" y2=\"");
                crate::numfmt::push_fixed(&mut s, *y2);
                s.append("\" stroke=\"");
                s.append(stroke.as_str());
                s.append("\" stroke-width=\"");
                crate::numfmt::push_fixed(&mut s, *stroke_width);
                s.append("\" />");
                proof {
                    assert(s@ =~= element_text(self@));
                }
            },
            SVGElement::Polygon { points, stroke, fill, stroke_width } => {
                s.append("<polygon points=\"");
                let ghost ps = points@.map_values(|p: (i64, i64)| pair_view(p));
                let mut i: usize = 0;
                while i < points.len()
                    invariant
                        i <= points.len(),
                        ps == points@.map_values(|p: (i64, i64)| pair_view(p)),
                        s@ == "<polygon points=\""@ + points_text(ps.take(i as int)),
                    decreases points.len() - i,
                {
                    if i > 0 {
                        s.append(" ");
                        proof {
                            reveal_strlit(" ");
                        }
                    }
                    let p = points[i];
                    crate::numfmt::push_fixed(&mut s, p.0);
                    s.append(",");
                    crate::numfmt::push_fixed(&mut s, p.1);
                    proof {
                        reveal_strlit(",");
                        assert(ps.take(i as int + 1).drop_last() =~= ps.take(i as int));
                        assert(ps.take(i as int + 1).last() == ps[i as int]);
                        assert(s@ =~= "<polygon points=\""@ + points_text(ps.take(i as int + 1)));
                    }
                    i = i + 1;
                }
                proof {
                    assert(ps.take(points@.len() as int) =~= ps);
                }
                s.append("\" stroke=\"");
                s.append(stroke.as_str());
                s.append("\" ");
                push_fill_attr(&mut s, fill);
                s.append(" stroke-width=\"");
                crate::numfmt::push_fixed(&mut s, *stroke_width);
                s.append("\" />");
                proof {
                    assert(s@ =~= element_text(self@));
                }
            },
        }
        s
    }
}

/// Whether `needle` occurs contiguously somewhere in `hay`.
pub open spec fn contains_text(hay: Seq<char>, needle: Seq<char>) -> bool {
    exists|i: int|
        0 <= i && i + needle.len() <= hay.len() && #[trigger] hay.subrange(i, i + needle.len())
            == needle
}

/// The stroke color of an element.
pub open spec fn stroke_of(e: ElementV) -> Seq<char> {
    match e {
        ElementV::Circle { stroke, .. } => stroke,
        ElementV::Line { stroke, .. } => stroke,
        ElementV::Polygon { stroke, .. } => stroke,
    }
}

/// Text contained in `b` is contained in `a + b`.
proof fn lemma_contains_append_left(a: Seq<char>, b: Seq<char>, x: Seq<char>)
    requires
        contains_text(b, x),
    ensures
        contains_text(a + b, x),
{
    let i = choose|i: int|
        0 <= i && i + x.len() <= b.len() && #[trigger] b.subrange(i, i + x.len()) == x;
    assert((a + b).subrange(a.len() + i, a.len() + i + x.len()) =~= x);
}

/// Text contained in `a` is contained in `a + b`.
proof fn lemma_contains_append_right(a: Seq<char>, b: Seq<char>, x: Seq<char>)
    requires
        contains_text(a, x),
    ensures
        contains_text(a + b, x),
{
    let i = choose|i: int|
        0 <= i && i + x.len() <= a.len() && #[trigger] a.subrange(i, i + x.len()) == x;
    assert((a + b).subrange(i, i + x.len()) =~= x);
}

/// A serialized element carries its stroke color verbatim.
proof fn lemma_element_text_carries_stroke(e: ElementV)
    ensures
        contains_text(element_text(e), stroke_of(e)),
{
    let t = element_text(e);
    let x = stroke_of(e);
    match e {
        ElementV::Circle { cx, cy, r, stroke, fill, stroke_width } => {
            let p = "<circle cx=\""@ + fixed_str(cx) + "\" cy=\""@ + fixed_str(cy) + "\" r=\""@
                + fixed_str(r) + "\" stroke=\""@;
            assert(t.subrange(p.len() as int, p.len() as int + x.len() as int) =~= x);
        },
        ElementV::Line { x1, y1, x2, y2, stroke, stroke_width } => {
            let p = "<line x1=\""@ + fixed_str(x1) + "\" y1=\""@ + fixed_str(y1) + "\" x2=\""@
                + fixed_str(x2) + "\" y2=\""@ + fixed_str(y2) + "\" stroke=\""@;
            assert(t.subrange(p.len() as int, p.len() as int + x.len() as int) =~= x);
        },
        ElementV::Polygon { points, stroke, fill, stroke_width } => {
            let p = "<polygon points=\""@ + points_text(points) + "\" stroke=\""@;
            assert(t.subrange(p.len() as int, p.len() as int + x.len() as int) =~= x);
        },
    }
}

/// The serialized element list carries every element's serialization.
proof fn lemma_elements_text_carries_element(es: Seq<ElementV>, k: int)
    requires
        0 <= k < es.len(),
    ensures
        contains_text(elements_text(es), element_text(es[k])),
    decreases es.len(),
{
    let x = element_text(es[k]);
    if k == es.len() - 1 {
        let pre = elements_text(es.drop_last()) + "  "@;
        assert(elements_text(es).subrange(
            pre.len() as int,
            pre.len() as int + x.len() as int,
        ) =~= x);
        assert(contains_text(elements_text(es), x));
    } else {
        lemma_elements_text_carries_element(es.drop_last(), k);
        assert(es.drop_last()[k] == es[k]);
        let prev = elements_text(es.drop_last());
        let tail = "  "@ + element_text(es.last()) + "\n"@;
        assert(elements_text(es) =~= prev + tail);
        lemma_contains_append_right(prev, tail, x);
    }
}

/// Law: the serialized document carries every element's stroke color
/// verbatim, whatever else the scene holds.
pub proof fn lemma_document_carries_strokes(v: RendererV, k: int)
    requires
        0 <= k < v.elements.len(),
    ensures
        contains_text(document_text(v), stroke_of(v.elements[k])),
{
    let x = stroke_of(v.elements[k]);
    let h = header_text(v.width, v.height);
    let b = background_text(v.background);
    let e = elements_text(v.elements);
    lemma_element_text_carries_stroke(v.elements[k]);
    lemma_elements_text_carries_element(v.elements, k);
    lemma_contains_trans(e, element_text(v.elements[k]), x);
    lemma_contains_append_left(h + b, e, x);
    assert(h + b + e =~= (h + b) + e);
    lemma_contains_append_right(h + b + e, "</svg>"@, x);
}

/// Containment is transitive.
proof fn lemma_contains_trans(a: Seq<char>, b: Seq<char>, x: Seq<char>)
    requires
        contains_text(a, b),
        contains_text(b, x),
    ensures
        contains_text(a, x),
{
    let i = choose|i: int|
        0 <= i && i + b.len() <= a.len() && #[trigger] a.subrange(i, i + b.len()) == b;
    let j = choose|j: int|
        0 <= j && j + x.len() <= b.len() && #[trigger] b.subrange(j, j + x.len()) == x;
    assert(a.subrange(i + j, i + j + x.len()) =~= b.subrange(j, j + x.len()));
}

/// The mathematical value of a renderer: the canvas size in whole pixels,
/// the optional background color, and the drawing elements in insertion
/// order.
#[verifier::ext_equal]
pub struct RendererV {
    pub width: nat,
    pub height: nat,
    pub background: Option<Seq<char>>,
    pub elements: Seq<ElementV>,
}

/// Accumulates two-dimensional drawing elements and serializes them to a
/// vector-graphics document.
///
/// The renderer is the document side of the scene pipeline: the camera
/// projection turns each three-dimensional primitive into screen
/// coordinates (in hundredths of a pixel), and the renderer records the
/// resulting elements.  The element list is append-only, and the document
/// lists the elements strictly in insertion order; there is no depth
/// sorting and no occlusion.
#[derive(Debug)]
pub struct SVGRenderer {
    width: usize,
    height: usize,
    background: Option<String>,
    elements: Vec<SVGElement>,
}

impl View for SVGRenderer {
    type V = RendererV;

    closed spec fn view(&self) -> RendererV {
        RendererV {
            width: self.width as nat,
            height: self.height as nat,
            background: opt_string_view(self.background),
            elements: self.elements@.map_values(|e: SVGElement| e@),
        }
    }
}

/// The document's opening root tag, carrying the canvas size.
pub open spec fn header_text(width: nat, height: nat) -> Seq<char> {
    "<svg width=\""@ + dec_str(width) + "\" height=\""@ + dec_str(height)
        + "\" xmlns=\"http://www.w3.org/2000/svg\">\n"@
}

/// The full-canvas background rectangle, or nothing when no background is
/// set.
pub open spec fn background_text(bg: Option<Seq<char>>) -> Seq<char> {
    match bg {
        Some(c) => "  <rect width=\"100%\" height=\"100%\" fill=\""@ + c + "\" />\n"@,
        None => Seq::empty(),
    }
}

/// The serialized element list: one indented line per element, in order.
pub open spec fn elements_text(es: Seq<ElementV>) -> Seq<char>
    decreases es.len(),
{
    if es.len() == 0 {
        Seq::empty()
    } else {
        elements_text(es.drop_last()) + "  "@ + element_text(es.last()) + "\n"@
    }
}

/// The complete serialized document.
pub open spec fn document_text(v: RendererV) -> Seq<char> {
    header_text(v.width, v.height) + background_text(v.background) + elements_text(v.elements)
        + "</svg>"@
}

/// A line element between two screen points.
pub open spec fn line_between(a: (int, int), b: (int, int), stroke: Seq<char>, w: int) -> ElementV {
    ElementV::Line { x1: a.0, y1: a.1, x2: b.0, y2: b.1, stroke, stroke_width: w }
}

/// The twelve wireframe edges of a box whose eight corners were projected
/// to the screen points `c`: first the four edges of the near face, then
/// the four edges of the far face, then the four edges joining the two
/// faces, each as an independent line element.
pub open spec fn box_edges(c: Seq<(int, int)>, stroke: Seq<char>, w: int) -> Seq<ElementV>
    recommends
        c.len() == 8,
{
    seq![
        line_between(c[0], c[1], stroke, w),
        line_between(c[1], c[2], stroke, w),
        line_between(c[2], c[3], stroke, w),
        line_between(c[3], c[0], stroke, w),
        line_between(c[4], c[5], stroke, w),
        line_between(c[5], c[6], stroke, w),
        line_between(c[6], c[7], stroke, w),
        line_between(c[7], c[4], stroke, w),
        line_between(c[0], c[4], stroke, w),
        line_between(c[1], c[5], stroke, w),
        line_between(c[2], c[6], stroke, w),
        line_between(c[3], c[7], stroke, w),
    ]
}

impl SVGRenderer {
    /// A renderer for a canvas of the given pixel size, with no background
    /// and no elements.
    pub fn new(width: usize, height: usize) -> (r: Self)
        ensures
            r@.width == width as nat,
            r@.height == height as nat,
            r@.background is None,
            r@.elements == Seq::<ElementV>::empty(),
    {
        let r = SVGRenderer { width, height, background: None, elements: Vec::new() };
        proof {
            assert(r@.elements =~= Seq::<ElementV>::empty());
        }
        r
    }

    /// The canvas width in pixels.
    pub fn width(&self) -> (r: usize)
        ensures
            r as nat == self@.width,
    {
        self.width
    }

    /// The canvas height in pixels.
    pub fn height(&self) -> (r: usize)
        ensures
            r as nat == self@.height,
    {
        self.height
    }

    /// The background color, if one was set.
    pub fn background(&self) -> (r: &Option<String>)
        ensures
            opt_string_view(*r) == self@.background,
    {
        &self.background
    }

    /// How many elements the scene holds.
    pub fn element_count(&self) -> (r: usize)
        ensures
            r as nat == self@.elements.len(),
    {
        self.elements.len()
    }

    /// Sets the background color; the elements are untouched.
    pub fn set_background(&mut self, color: &str)
        ensures
            final(self)@ == (RendererV { background: Some(color@), ..old(self)@ }),
    {
        self.background = Some(color.to_owned());
    }

    /// Appends a circle element; everything recorded before stays as it
    /// was.
    pub fn add_circle(
        &mut self,
        cx: i64,
        cy: i64,
        r: i64,
        stroke: &str,
        fill: Option<&str>,
        stroke_width: i64,
    )
        ensures
            final(self)@ == (RendererV {
                elements: old(self)@.elements.push(
                    ElementV::Circle {
                        cx: cx as int,
                        cy: cy as int,
                        r: r as int,
                        stroke: stroke@,
                        fill: opt_str_view(fill),
                        stroke_width: stroke_width as int,
                    },
                ),
                ..old(self)@
            }),
    {
        let owned_fill: Option<String> = match fill {
            Some(f) => Some(f.to_owned()),
            None => None,
        };
        self.elements.push(
            SVGElement::Circle {
                cx,
                cy,
                r,
                stroke: stroke.to_owned(),
                fill: owned_fill,
                stroke_width,
            },
        );
        proof {
            assert(self@.elements =~= old(self)@.elements.push(
                ElementV::Circle {
                    cx: cx as int,
                    cy: cy as int,
                    r: r as int,
                    stroke: stroke@,
                    fill: opt_str_view(fill),
                    stroke_width: stroke_width as int,
                },
            ));
        }
    }

    /// Appends a line element; everything recorded before stays as it was.
    pub fn add_line(&mut self, x1: i64, y1: i64, x2: i64, y2: i64, stroke: &str, stroke_width: i64)
        ensures
            final(self)@ == (RendererV {
                elements: old(self)@.elements.push(
                    ElementV::Line {
                        x1: x1 as int,
                        y1: y1 as int,
                        x2: x2 as int,
                        y2: y2 as int,
                        stroke: stroke@,
                        stroke_width: stroke_width as int,
                    },
                ),
                ..old(self)@
            }),
    {
        self.elements.push(
            SVGElement::Line { x1, y1, x2, y2, stroke: stroke.to_owned(), stroke_width },
        );
        proof {
            assert(self@.elements =~= old(self)@.elements.push(
                ElementV::Line {
                    x1: x1 as int,
                    y1: y1 as int,
                    x2: x2 as int,
                    y2: y2 as int,
                    stroke: stroke@,
                    stroke_width: stroke_width as int,
                },
            ));
        }
    }

    /// Appends a polygon element over the given vertices; everything
    /// recorded before stays as it was.
    pub fn add_polygon(
        &mut self,
        points: Vec<(i64, i64)>,
        stroke: &str,
        fill: Option<&str>,
        stroke_width: i64,
    )
        ensures
            final(self)@ == (RendererV {
                elements: old(self)@.elements.push(
                    ElementV::Polygon {
                        points: points@.map_values(|p: (i64, i64)| pair_view(p)),
                        stroke: stroke@,
                        fill: opt_str_view(fill),
                        stroke_width: stroke_width as int,
                    },
                ),
                ..old(self)@
            }),
    {
        let owned_fill: Option<String> = match fill {
            Some(f) => Some(f.to_owned()),
            None => None,
        };
        let ghost points_v = points@.map_values(|p: (i64, i64)| pair_view(p));
        self.elements.push(
            SVGElement::Polygon {
                points,
                stroke: stroke.to_owned(),
                fill: owned_fill,
                stroke_width,
            },
        );
        proof {
            assert(self@.elements =~= old(self)@.elements.push(
                ElementV::Polygon {
                    points: points_v,
                    stroke: stroke@,
                    fill: opt_str_view(fill),
                    stroke_width: stroke_width as int,
                },
            ));
        }
    }

    /// Appends the twelve wireframe edges of a box whose eight corners
    /// were projected to the screen points `corners`, in the fixed edge
    /// order that `box_edges` lists.
    pub fn add_box_edges(&mut self, corners: &[(i64, i64); 8], stroke: &str, stroke_width: i64)
        ensures
            final(self)@ == (RendererV {
                elements: old(self)@.elements + box_edges(
                    corners@.map_values(|p: (i64, i64)| pair_view(p)),
                    stroke@,
                    stroke_width as int,
                ),
                ..old(self)@
            }),
    {
        let ghost c = corners@.map_values(|p: (i64, i64)| pair_view(p));
        self.add_line(corners[0].0, corners[0].1, corners[1].0, corners[1].1, stroke, stroke_width);
        self.add_line(corners[1].0, corners[1].1, corners[2].0, corners[2].1, stroke, stroke_width);
        self.add_line(corners[2].0, corners[2].1, corners[3].0, corners[3].1, stroke, stroke_width);
        self.add_line(corners[3].0, corners[3].1, corners[0].0, corners[0].1, stroke, stroke_width);
        self.add_line(corners[4].0, corners[4].1, corners[5].0, corners[5].1, stroke, stroke_width);
        self.add_line(corners[5].0, corners[5].1, corners[6].0, corners[6].1, stroke, stroke_width);
        self.add_line(corners[6].0, corners[6].1, corners[7].0, corners[7].1, stroke, stroke_width);
        self.add_line(corners[7].0, corners[7].1, corners[4].0, corners[4].1, stroke, stroke_width);
        self.add_line(corners[0].0, corners[0].1, corners[4].0, corners[4].1, stroke, stroke_width);
        self.add_line(corners[1].0, corners[1].1, corners[5].0, corners[5].1, stroke, stroke_width);
        self.add_line(corners[2].0, corners[2].1, corners[6].0, corners[6].1, stroke, stroke_width);
        self.add_line(corners[3].0, corners[3].1, corners[7].0, corners[7].1, stroke, stroke_width);
        proof {
            assert(self@.elements =~= old(self)@.elements + box_edges(
                c,
                stroke@,
                stroke_width as int,
            ));
            assert(self@ =~= (RendererV {
                elements: old(self)@.elements + box_edges(c, stroke@, stroke_width as int),
                ..old(self)@
            }));
        }
    }

    /// Serializes the whole scene, exactly as `document_text` describes
    /// it: the root tag with the canvas size, the background rectangle if
    /// a background was set, one line per element in insertion order, and
    /// the closing root tag.
    pub fn to_svg_string(&self) -> (r: String)
        ensures
            r@ == document_text(self@),
    {
        let mut s = String::new();
        s.append("<svg width=\"");
        crate::numfmt::push_u64(&mut s, self.width as u64);
        s.append("\" height=\"");
        crate::numfmt::push_u64(&mut s, self.height as u64);
        s.append("\" xmlns=\"http://www.w3.org/2000/svg\">\n");
        proof {
            assert(s@ =~= header_text(self@.width, self@.height));
        }
        match &self.background {
            Some(bg) => {
                s.append("  <rect width=\"100%\" height=\"100%\" fill=\"");
                s.append(bg.as_str());
                s.append("\" />\n");
            },
            None => {},
        }
        proof {
            assert(s@ =~= header_text(self@.width, self@.height) + background_text(
                self@.background,
            ));
        }
        let ghost prefix = s@;
        let mut i: usize = 0;
        while i < self.elements.len()
            invariant
                i <= self.elements.len(),
                self@.elements == self.elements@.map_values(|e: SVGElement| e@),
                s@ == prefix + elements_text(self@.elements.take(i as int)),
            decreases self.elements.len() - i,
        {
            s.append("  ");
            let line = self.elements[i].to_svg_string();
            s.append(line.as_str());
            s.append("\n");
            proof {
                let es = self@.elements;
                assert(es.take(i as int + 1).drop_last() =~= es.take(i as int));
                assert(es.take(i as int + 1).last() == es[i as int]);
                assert(s@ =~= prefix + elements_text(es.take(i as int + 1)));
            }
            i = i + 1;
        }
        s.append("</svg>");
        proof {
            assert(self@.elements.take(self.elements@.len() as int) =~= self@.elements);
            assert(s@ =~= document_text(self@));
        }
        s
    }
}

/// Law: every serialized document opens with the root tag and closes with
/// the matching end tag, and it carries the background color verbatim
/// whenever one is set.
pub proof fn lemma_document_shape(v: RendererV)
    ensures
        document_text(v).len() >= 6,
        document_text(v).subrange(0, 5) == "<svg "@,
        document_text(v).subrange(
            document_text(v).len() - 6,
            document_text(v).len() as int,
        ) == "</svg>"@,
        v.background matches Some(bg) ==> contains_text(document_text(v), bg),
{
    reveal_strlit("<svg ");
    reveal_strlit("<svg width=\"");
    reveal_strlit("</svg>");
    let doc = document_text(v);
    assert(doc.subrange(0, 5) =~= "<svg "@);
    assert(doc.subrange(doc.len() - 6, doc.len() as int) =~= "</svg>"@);
    if v.background is Some {
        let bg = v.background->0;
        reveal_strlit("  <rect width=\"100%\" height=\"100%\" fill=\"");
        let h = header_text(v.width, v.height);
        let p = "  <rect width=\"100%\" height=\"100%\" fill=\""@;
        let i0 = h.len() + p.len() as int;
        assert(doc.subrange(i0 as int, i0 as int + bg.len() as int) =~= bg);
        assert(contains_text(doc, bg));
    }
}

} // verus!
