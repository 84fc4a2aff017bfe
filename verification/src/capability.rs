use vstd::prelude::*;

verus! {

/// Lifetime class of a payload type, as the host type system reports it at a
/// guard's construction site: either self-contained (no dependency on a
/// caller-supplied borrowed region) or tied to a bounded borrow.
#[derive(Debug, Clone, Copy, PartialEq, Eq, Structural)]
pub enum LifetimeClass {
    SelfContained,
    Bounded,
}

/// Whether a payload of class `c` may outlive any local scope.
pub open spec fn is_self_contained(c: LifetimeClass) -> bool {
    c is SelfContained
}

/// A type's structure as the capability derivation sees it. Wider composites
/// are nested pairs of `Fields`.
#[derive(Debug, PartialEq, Eq)]
pub enum Shape {
    /// An ordinary type: carries the capability by default.
    Plain,
    /// The sentinel marker: permanently withholds the capability.
    Sentinel,
    /// A two-field composite under structural derivation: it carries the
    /// capability exactly when both fields do.
    Fields(Box<Shape>, Box<Shape>),
    /// The revoking wrapper around a payload of the given class: its
    /// explicit rule regrants the capability exactly when the payload is
    /// self-contained, overriding the sentinel it holds inside.
    Wrapper(LifetimeClass),
    /// A guard that writes the wrapper's rule out manually beside a bare
    /// payload of the given class, instead of wrapping the payload.
    ManualGuard(LifetimeClass),
}

/// The capability derivation: whether a type of shape `s` may be leaked
/// (its destructor skipped).
pub open spec fn leakable(s: Shape) -> bool
    decreases s,
{
    match s {
        Shape::Plain => true,
        Shape::Sentinel => false,
        Shape::Fields(a, b) => leakable(*a) && leakable(*b),
        Shape::Wrapper(c) => is_self_contained(c),
        Shape::ManualGuard(c) => is_self_contained(c),
    }
}

/// Whether the sentinel stands somewhere on a structural derivation path of
/// `s`, with no explicit rule overriding it above.
pub open spec fn sentinel_on_path(s: Shape) -> bool
    decreases s,
{
    match s {
        Shape::Plain => false,
        Shape::Sentinel => true,
        Shape::Fields(a, b) => sentinel_on_path(*a) || sentinel_on_path(*b),
        Shape::Wrapper(_) => false,
        Shape::ManualGuard(_) => false,
    }
}

/// The wrapper's propagation rule: a wrapped payload is leakable exactly
/// when it is self-contained.
pub proof fn lemma_wrapper_rule(c: LifetimeClass)
    ensures
        leakable(Shape::Wrapper(c)) <==> is_self_contained(c),
{
}

/// The sentinel withholds the capability through any number of structural
/// nesting levels: wherever it stands unoverridden, the whole composite is
/// non-leakable.
pub proof fn lemma_sentinel_blocks(s: Shape)
    requires
        sentinel_on_path(s),
    ensures
        !leakable(s),
    decreases s,
{
    match s {
        Shape::Fields(a, b) => {
            if sentinel_on_path(*a) {
                lemma_sentinel_blocks(*a);
            } else {
                lemma_sentinel_blocks(*b);
            }
        },
        _ => {},
    }
}

/// The wrapper's default is withheld: its own structure — any contents
/// beside the sentinel — is never leakable, whatever the contents are, so
/// the explicit regrant rule is the only source of the wrapper's capability.
pub proof fn lemma_wrapper_defaults_to_withheld(contents: Shape)
    ensures
        !leakable(Shape::Fields(Box::new(contents), Box::new(Shape::Sentinel))),
{
    let s = Shape::Fields(Box::new(contents), Box::new(Shape::Sentinel));
    assert(sentinel_on_path(Shape::Sentinel));
    assert(sentinel_on_path(s));
    lemma_sentinel_blocks(s);
}

/// The shape of the wrapper-based guard: a processor field beside a payload
/// of class `c` stored behind the revoking wrapper; its capability comes
/// from structural derivation alone.
pub open spec fn wrapped_guard(c: LifetimeClass) -> Shape {
    Shape::Fields(Box::new(Shape::Plain), Box::new(Shape::Wrapper(c)))
}

/// The shape of the explicit-rule guard for a payload of class `c`.
pub open spec fn manual_guard(c: LifetimeClass) -> Shape {
    Shape::ManualGuard(c)
}

/// A wrapper-based guard is leakable exactly when its covariant payload is
/// self-contained, inherited from the wrapper's rule with nothing written by
/// hand at the composite site.
pub proof fn lemma_wrapped_guard_rule(c: LifetimeClass)
    ensures
        leakable(wrapped_guard(c)) <==> is_self_contained(c),
{
    assert(leakable(Shape::Plain));
    assert(leakable(Shape::Wrapper(c)) == is_self_contained(c));
}

/// The two guard designs are observationally equivalent at the capability
/// level: for every payload class they are leakable together.
pub proof fn lemma_guard_designs_agree(c: LifetimeClass)
    ensures
        leakable(wrapped_guard(c)) == leakable(manual_guard(c)),
{
    lemma_wrapped_guard_rule(c);
}

/// Runtime mirror of the capability derivation, for a collaborator that
/// needs to evaluate the rule on an explicit shape.
pub fn is_leakable(s: &Shape) -> (r: bool)
    ensures
        r == leakable(*s),
    decreases *s,
{
    match s {
        Shape::Plain => true,
        Shape::Sentinel => false,
        Shape::Fields(a, b) => is_leakable(a) && is_leakable(b),
        Shape::Wrapper(c) => matches!(c, LifetimeClass::SelfContained),
        Shape::ManualGuard(c) => matches!(c, LifetimeClass::SelfContained),
    }
}

/// Whether a guard whose payload has class `c` may be handed to another
/// execution context: only a self-contained payload may leave its scope.
pub open spec fn transferable(c: LifetimeClass) -> bool {
    is_self_contained(c)
}

/// Whether a guard whose payload has class `c` may be shared read-only
/// across execution contexts: always, since nothing here mutates through a
/// shared view.
pub open spec fn shareable(c: LifetimeClass) -> bool {
    true
}

/// Transfer gate, to be applied at the point a guard is handed to another
/// execution context, not at construction time.
pub fn check_transfer(c: LifetimeClass) -> (r: bool)
    ensures
        r == transferable(c),
{
    matches!(c, LifetimeClass::SelfContained)
}

/// Sharing gate for read-only views of a guard.
pub fn check_share(c: LifetimeClass) -> (r: bool)
    ensures
        r == shareable(c),
{
    true
}

} // verus!
