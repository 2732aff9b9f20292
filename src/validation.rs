//! Field-level validation rules. Every violated rule of an entity is
//! collected, in field order, and returned together.
use vstd::prelude::*;
use vstd::string::StringExecFns;

verus! {

/// One violated rule: a machine-readable code and a human-readable message.
#[derive(Debug, Clone)]
pub struct ValidationError {
    pub code: String,
    pub message: String,
}

/// A violated rule on a named field.
#[derive(Debug, Clone)]
pub struct FieldError {
    pub field: String,
    pub error: ValidationError,
}

/// All violated rules of one entity, in field order.
#[derive(Debug, Clone)]
pub struct ValidationErrors {
    pub errors: Vec<FieldError>,
}

/// The mathematical content of a [`FieldError`]: field, code, message.
pub type Violation = (Seq<char>, Seq<char>, Seq<char>);

impl View for FieldError {
    type V = Violation;

    open spec fn view(&self) -> Violation {
        (self.field@, self.error.code@, self.error.message@)
    }
}

impl View for ValidationErrors {
    type V = Seq<Violation>;

    open spec fn view(&self) -> Seq<Violation> {
        self.errors@.map_values(|e: FieldError| e@)
    }
}

impl ValidationErrors {
    /// Whether some violated rule concerns `field`.
    pub open spec fn has_field(&self, field: Seq<char>) -> bool {
        exists|i: int| 0 <= i < self@.len() && (#[trigger] self@[i]).0 == field
    }

    pub fn new() -> (r: ValidationErrors)
        ensures
            r@ == Seq::<Violation>::empty(),
    {
        let r = ValidationErrors { errors: Vec::new() };
        assert(r@ =~= Seq::<Violation>::empty());
        r
    }

    pub fn is_empty(&self) -> (r: bool)
        ensures
            r == (self@.len() == 0),
    {
        self.errors.len() == 0
    }

    /// Records a violated rule on `field`.
    pub fn add(&mut self, field: &str, code: &str, message: &str)
        ensures
            final(self)@ == old(self)@.push((field@, code@, message@)),
    {
        let e = FieldError {
            field: String::from_str(field),
            error: ValidationError { code: String::from_str(code), message: String::from_str(message) },
        };
        self.errors.push(e);
        assert(final(self)@ =~= old(self)@.push((field@, code@, message@)));
    }
}

/// Whether a length lies within optional inclusive bounds.
pub open spec fn within_bounds(len: nat, min: Option<u64>, max: Option<u64>) -> bool {
    &&& (match min {
        Some(lo) => len >= lo,
        None => true,
    })
    &&& (match max {
        Some(hi) => len <= hi,
        None => true,
    })
}

/// Relies on validator::validate_length (with no `equal` bound): it counts the
/// chars of `s` and compares the count with the bounds that are given.
#[verifier::external_body]
pub(crate) fn length_within(s: &str, min: Option<u64>, max: Option<u64>) -> (r: bool)
    ensures
        r == within_bounds(s@.len(), min, max),
{
    validator::validate_length(s, min, max, None)
}

} // verus!
