use vstd::prelude::*;
use vstd::string::StringExecFns;

verus! {

/// The error taxonomy shared by every fallible construction in the kernel.
///
/// Each variant carries the human-readable message the failing call site
/// supplied.  `InvalidConstruction` reports a violated structural
/// precondition, `DegenerateCase` a mathematically degenerate geometry,
/// `InvalidParameter` a malformed input collection and `DivisionByZero` an
/// attempt to normalize a zero-length vector.  `NoIntersection` is part of
/// the taxonomy for callers that need it, although the intersection tests
/// themselves report "no hit" through `Option` rather than through an error.
#[derive(Debug, Clone)]
pub enum GeometryError {
    InvalidConstruction(String),
    DegenerateCase(String),
    NoIntersection(String),
    InvalidParameter(String),
    DivisionByZero(String),
}

/// The rendered text of an error: a fixed prefix naming the kind, followed
/// by the message carried by the variant.
pub open spec fn error_text(e: GeometryError) -> Seq<char> {
    match e {
        GeometryError::InvalidConstruction(m) => "Invalid geometric construction: "@ + m@,
        GeometryError::DegenerateCase(m) => "Degenerate geometry: "@ + m@,
        GeometryError::NoIntersection(m) => "No intersection found: "@ + m@,
        GeometryError::InvalidParameter(m) => "Invalid parameter: "@ + m@,
        GeometryError::DivisionByZero(m) => "Division by zero: "@ + m@,
    }
}

impl GeometryError {
    /// The message carried by the variant, without the kind prefix.
    pub fn detail(&self) -> (r: &String)
        ensures
            r@ == match *self {
                GeometryError::InvalidConstruction(m) => m@,
                GeometryError::DegenerateCase(m) => m@,
                GeometryError::NoIntersection(m) => m@,
                GeometryError::InvalidParameter(m) => m@,
                GeometryError::DivisionByZero(m) => m@,
            },
    {
        match self {
            GeometryError::InvalidConstruction(m) => m,
            GeometryError::DegenerateCase(m) => m,
            GeometryError::NoIntersection(m) => m,
            GeometryError::InvalidParameter(m) => m,
            GeometryError::DivisionByZero(m) => m,
        }
    }

    /// The full human-readable description of the error.
    pub fn message(&self) -> (r: String)
        ensures
            r@ == error_text(*self),
    {
        match self {
            GeometryError::InvalidConstruction(m) => {
                let mut s = String::from_str("Invalid geometric construction: ");
                s.append(m.as_str());
                s
            },
            GeometryError::DegenerateCase(m) => {
                let mut s = String::from_str("Degenerate geometry: ");
                s.append(m.as_str());
                s
            },
            GeometryError::NoIntersection(m) => {
                let mut s = String::from_str("No intersection found: ");
                s.append(m.as_str());
                s
            },
            GeometryError::InvalidParameter(m) => {
                let mut s = String::from_str("Invalid parameter: ");
                s.append(m.as_str());
                s
            },
            GeometryError::DivisionByZero(m) => {
                let mut s = String::from_str("Division by zero: ");
                s.append(m.as_str());
                s
            },
        }
    }
}

impl PartialEq for GeometryError {
    /// Two errors are equal when they are the same kind and carry the same
    /// message.
    fn eq(&self, other: &Self) -> (r: bool) {
        match (self, other) {
            (GeometryError::InvalidConstruction(a), GeometryError::InvalidConstruction(b)) => *a
                == *b,
            (GeometryError::DegenerateCase(a), GeometryError::DegenerateCase(b)) => *a == *b,
            (GeometryError::NoIntersection(a), GeometryError::NoIntersection(b)) => *a == *b,
            (GeometryError::InvalidParameter(a), GeometryError::InvalidParameter(b)) => *a == *b,
            (GeometryError::DivisionByZero(a), GeometryError::DivisionByZero(b)) => *a == *b,
            _ => false,
        }
    }
}

impl vstd::std_specs::cmp::PartialEqSpecImpl for GeometryError {
    open spec fn obeys_eq_spec() -> bool {
        true
    }

    open spec fn eq_spec(&self, other: &Self) -> bool {
        match (self, other) {
            (GeometryError::InvalidConstruction(a), GeometryError::InvalidConstruction(b)) => a@
                == b@,
            (GeometryError::DegenerateCase(a), GeometryError::DegenerateCase(b)) => a@ == b@,
            (GeometryError::NoIntersection(a), GeometryError::NoIntersection(b)) => a@ == b@,
            (GeometryError::InvalidParameter(a), GeometryError::InvalidParameter(b)) => a@ == b@,
            (GeometryError::DivisionByZero(a), GeometryError::DivisionByZero(b)) => a@ == b@,
            _ => false,
        }
    }
}

} // verus!
