use common_core_geometry::{SVGElement, SVGRenderer};

#[test]
fn test_svg_renderer_creation() {
    let renderer = SVGRenderer::new(800, 600);
    assert_eq!(renderer.width(), 800);
    assert_eq!(renderer.height(), 600);
    assert_eq!(renderer.element_count(), 0);
}

#[test]
fn test_set_background() {
    let mut renderer = SVGRenderer::new(800, 600);
    renderer.set_background("#ffffff");
    assert_eq!(renderer.background(), &Some("#ffffff".to_string()));
}

#[test]
fn test_to_string() {
    let mut renderer = SVGRenderer::new(800, 600);
    renderer.set_background("#ffffff");
    renderer.add_circle(40000, 30000, 500, "#ff0000", Some("#ff0000"), 100);

    let svg_string = renderer.to_svg_string();
    assert!(svg_string.contains("<svg"));
    assert!(svg_string.contains("</svg>"));
    assert!(svg_string.contains("#ffffff"));
    assert!(svg_string.contains("#ff0000"));
}

#[test]
fn test_exact_document() {
    let mut renderer = SVGRenderer::new(800, 600);
    renderer.set_background("#ffffff");
    renderer.add_circle(40000, 30000, 500, "#ff0000", Some("#ff0000"), 100);

    let expected = "<svg width=\"800\" height=\"600\" xmlns=\"http://www.w3.org/2000/svg\">\n  <rect width=\"100%\" height=\"100%\" fill=\"#ffffff\" />\n  <circle cx=\"400.00\" cy=\"300.00\" r=\"5.00\" stroke=\"#ff0000\" fill=\"#ff0000\" stroke-width=\"1.00\" />\n</svg>";
    assert_eq!(renderer.to_svg_string(), expected);
}

#[test]
fn test_document_without_background() {
    let renderer = SVGRenderer::new(100, 50);
    let expected = "<svg width=\"100\" height=\"50\" xmlns=\"http://www.w3.org/2000/svg\">\n</svg>";
    assert_eq!(renderer.to_svg_string(), expected);
}

#[test]
fn test_circle_without_fill_marks_none() {
    let e = SVGElement::Circle {
        cx: 1250,
        cy: -75,
        r: 200,
        stroke: "#00ff00".to_string(),
        fill: None,
        stroke_width: 150,
    };
    assert_eq!(
        e.to_svg_string(),
        "<circle cx=\"12.50\" cy=\"-0.75\" r=\"2.00\" stroke=\"#00ff00\" fill=\"none\" stroke-width=\"1.50\" />"
    );
}

#[test]
fn test_line_element() {
    let e = SVGElement::Line {
        x1: 0,
        y1: 100,
        x2: -250,
        y2: 30000,
        stroke: "black".to_string(),
        stroke_width: 200,
    };
    assert_eq!(
        e.to_svg_string(),
        "<line x1=\"0.00\" y1=\"1.00\" x2=\"-2.50\" y2=\"300.00\" stroke=\"black\" stroke-width=\"2.00\" />"
    );
}

#[test]
fn test_polygon_element() {
    let e = SVGElement::Polygon {
        points: vec![(0, 100), (2050, -100), (300, 300)],
        stroke: "#0000ff".to_string(),
        fill: Some("#ccccff".to_string()),
        stroke_width: 100,
    };
    assert_eq!(
        e.to_svg_string(),
        "<polygon points=\"0.00,1.00 20.50,-1.00 3.00,3.00\" stroke=\"#0000ff\" fill=\"#ccccff\" stroke-width=\"1.00\" />"
    );
}

#[test]
fn test_polygon_without_points() {
    let e = SVGElement::Polygon {
        points: vec![],
        stroke: "red".to_string(),
        fill: None,
        stroke_width: 100,
    };
    assert_eq!(
        e.to_svg_string(),
        "<polygon points=\"\" stroke=\"red\" fill=\"none\" stroke-width=\"1.00\" />"
    );
}

#[test]
fn test_add_line_and_polygon() {
    let mut renderer = SVGRenderer::new(400, 400);
    renderer.add_line(0, 0, 40000, 40000, "#00ff00", 200);
    renderer.add_polygon(vec![(0, 100), (200, 100), (100, 0)], "#0000ff", None, 100);
    assert_eq!(renderer.element_count(), 2);
    let svg = renderer.to_svg_string();
    assert!(svg.contains("<line x1=\"0.00\" y1=\"0.00\" x2=\"400.00\" y2=\"400.00\""));
    assert!(svg.contains("<polygon points=\"0.00,1.00 2.00,1.00 1.00,0.00\""));
}

#[test]
fn test_add_box_edges_appends_twelve_lines() {
    let mut renderer = SVGRenderer::new(800, 600);
    let corners = [
        (0, 0),
        (100, 0),
        (100, 100),
        (0, 100),
        (10, 10),
        (110, 10),
        (110, 110),
        (10, 110),
    ];
    renderer.add_box_edges(&corners, "#00ffff", 100);
    assert_eq!(renderer.element_count(), 12);
    let svg = renderer.to_svg_string();
    // First edge of the near face and last edge joining the faces.
    assert!(svg.contains("<line x1=\"0.00\" y1=\"0.00\" x2=\"1.00\" y2=\"0.00\""));
    assert!(svg.contains("<line x1=\"0.00\" y1=\"1.00\" x2=\"0.10\" y2=\"1.10\""));
}

#[test]
fn test_elements_keep_insertion_order() {
    let mut renderer = SVGRenderer::new(200, 200);
    renderer.add_circle(100, 100, 100, "a", None, 100);
    renderer.add_line(0, 0, 100, 100, "b", 100);
    renderer.add_circle(200, 200, 100, "c", None, 100);
    let svg = renderer.to_svg_string();
    let first = svg.find("stroke=\"a\"").unwrap();
    let second = svg.find("stroke=\"b\"").unwrap();
    let third = svg.find("stroke=\"c\"").unwrap();
    assert!(first < second && second < third);
}
