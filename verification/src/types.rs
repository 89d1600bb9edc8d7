//! A model of the pieces of a Rust type expression that the engine reads.

use vstd::prelude::*;

verus! {

/// A type expression, holding exactly what the engine inspects: one layer
/// of reference-ness at a time, the names of a path's segments, and
/// otherwise the verbatim spelling.
///
/// Generic arguments are carried as verbatim spellings only: the engine
/// never inspects them, because context matching goes by the final path
/// segment's name. That is a deliberate simplification: two distinct types
/// sharing a final path segment are judged equal (an accepted limitation,
/// and the reason generic arguments need no structure here).
#[derive(Debug)]
pub enum TypeExpr {
    /// A path type such as `Counter`, `my_mod::Counter` or
    /// `ContextGeneric<T>`: the segment names in order, and the verbatim
    /// spellings of any generic arguments applied to the final segment.
    Path { segments: Vec<String>, arguments: Vec<String> },
    /// A reference type, `&T` or `&mut T`.
    Reference { mutable: bool, inner: Box<TypeExpr> },
    /// Any other form of type, carried as its verbatim spelling.
    Verbatim { text: String },
}

impl TypeExpr {
    /// Well-formedness: a path names at least one segment, at every depth.
    pub open spec fn wf(self) -> bool
        decreases self,
    {
        match self {
            TypeExpr::Path { segments, .. } => segments.len() > 0,
            TypeExpr::Reference { inner, .. } => inner.wf(),
            TypeExpr::Verbatim { .. } => true,
        }
    }

    /// The name of the final path segment.
    pub open spec fn spec_last_segment(self) -> Seq<char>
        recommends
            self is Path,
    {
        self->segments@.last()@
    }
}

/// Whether two type expressions denote the same context type, as the engine
/// judges it: two paths match when their final segment names are equal
/// (leading segments and generic arguments are deliberately ignored);
/// references match when their mutability agrees and their referents match;
/// any other spellings match when their text is equal; mixed forms never
/// match.
pub open spec fn spec_types_equal(a: TypeExpr, b: TypeExpr) -> bool
    decreases a,
{
    match (a, b) {
        (TypeExpr::Path { .. }, TypeExpr::Path { .. }) => a.spec_last_segment()
            == b.spec_last_segment(),
        (
            TypeExpr::Reference { mutable: ma, inner: ia },
            TypeExpr::Reference { mutable: mb, inner: ib },
        ) => ma == mb && spec_types_equal(*ia, *ib),
        (TypeExpr::Verbatim { text: ta }, TypeExpr::Verbatim { text: tb }) => ta@ == tb@,
        _ => false,
    }
}

/// Decides whether two type expressions denote the same context type.
pub fn types_equal(a: &TypeExpr, b: &TypeExpr) -> (r: bool)
    requires
        a.wf(),
        b.wf(),
    ensures
        r == spec_types_equal(*a, *b),
    decreases *a,
{
    match (a, b) {
        (
            TypeExpr::Path { segments: sa, .. },
            TypeExpr::Path { segments: sb, .. },
        ) => sa[sa.len() - 1] == sb[sb.len() - 1],
        (
            TypeExpr::Reference { mutable: ma, inner: ia },
            TypeExpr::Reference { mutable: mb, inner: ib },
        ) => ma == mb && types_equal(&**ia, &**ib),
        (TypeExpr::Verbatim { text: ta }, TypeExpr::Verbatim { text: tb }) => *ta == *tb,
        _ => false,
    }
}

} // verus!
