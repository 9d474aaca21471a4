use common_core_geometry::GeometryError;

#[test]
fn test_invalid_construction_message() {
    let e = GeometryError::InvalidConstruction("Sphere radius must be positive".to_string());
    assert_eq!(
        e.message(),
        "Invalid geometric construction: Sphere radius must be positive"
    );
}

#[test]
fn test_degenerate_case_message() {
    let e = GeometryError::DegenerateCase("Triangle vertices are collinear".to_string());
    assert_eq!(e.message(), "Degenerate geometry: Triangle vertices are collinear");
}

#[test]
fn test_no_intersection_message() {
    let e = GeometryError::NoIntersection("nothing hit".to_string());
    assert_eq!(e.message(), "No intersection found: nothing hit");
}

#[test]
fn test_invalid_parameter_message() {
    let e = GeometryError::InvalidParameter("Cannot create AABB from empty point list".to_string());
    assert_eq!(
        e.message(),
        "Invalid parameter: Cannot create AABB from empty point list"
    );
}

#[test]
fn test_division_by_zero_message() {
    let e = GeometryError::DivisionByZero("Cannot normalize zero vector".to_string());
    assert_eq!(e.message(), "Division by zero: Cannot normalize zero vector");
}

#[test]
fn test_detail_strips_prefix() {
    let e = GeometryError::DivisionByZero("Cannot normalize zero vector".to_string());
    assert_eq!(e.detail(), "Cannot normalize zero vector");
}

#[test]
fn test_error_equality() {
    let a = GeometryError::DegenerateCase("collinear".to_string());
    let b = GeometryError::DegenerateCase("collinear".to_string());
    let c = GeometryError::DegenerateCase("coincident".to_string());
    let d = GeometryError::InvalidConstruction("collinear".to_string());
    assert_eq!(a, b);
    assert_ne!(a, c);
    assert_ne!(a, d);
}

#[test]
fn test_error_clone() {
    let a = GeometryError::InvalidParameter("empty".to_string());
    let b = a.clone();
    assert_eq!(a, b);
}
