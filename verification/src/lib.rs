//! A wrapper that records, for a decoded field, whether its value was
//! explicitly declared in the input document or derived from the type's
//! default because the field was omitted (or written with an absence marker).

use vstd::prelude::*;

verus! {

/// A value of `T` together with its provenance: either derived from
/// `T::default()` because no explicit declaration was observed, or
/// decoded from content explicitly present in the input document.
#[derive(PartialEq, Debug)]
pub enum DefaultAware<T: Default> {
    Default(T),
    Declared(T),
}

impl<T: Default> DefaultAware<T> {
    /// The inner value, regardless of provenance.
    pub open spec fn value(self) -> T {
        match self {
            DefaultAware::Default(v) => v,
            DefaultAware::Declared(v) => v,
        }
    }

    /// The wrapper is in the default-derived state: the `Default` variant,
    /// holding a value that `T::default()` can return.
    pub open spec fn default_derived(self) -> bool {
        &&& self is Default
        &&& call_ensures(T::default, (), self.value())
    }

    /// Consumes the wrapper and returns the inner value unchanged.
    pub fn unwrap(self) -> (r: T)
        ensures
            r == self.value(),
    {
        match self {
            Self::Default(inner) => inner,
            Self::Declared(inner) => inner,
        }
    }

    /// Borrows the inner value without consuming the wrapper.
    pub fn as_ref<'a: 'b, 'b>(&'a self) -> (r: &'b T)
        ensures
            *r == self.value(),
    {
        match self {
            Self::Default(inner) => inner,
            Self::Declared(inner) => inner,
        }
    }

    /// True iff the value was derived from the default rather than declared.
    pub fn is_default(&self) -> (r: bool)
        ensures
            r == (self is Default),
    {
        match self {
            Self::Default(_) => true,
            _ => false,
        }
    }

    /// True iff the value was explicitly declared in the input document.
    pub fn is_declared(&self) -> (r: bool)
        ensures
            r == (self is Declared),
    {
        !self.is_default()
    }

    /// Classifies the outcome of probing a field position for an optional
    /// shape. A probe that found an inner value yields `Declared` with
    /// exactly that value, even when it equals the type's default; a probe
    /// that found an absence marker yields the default-derived state, the
    /// same state an omitted field is given; a failure to decode the inner
    /// value is propagated unchanged.
    pub fn decode_probe<E>(probe: Result<Option<T>, E>) -> (r: Result<DefaultAware<T>, E>)
        ensures
            probe matches Ok(Some(v)) ==> r == Ok::<DefaultAware<T>, E>(
                DefaultAware::Declared(v),
            ),
            probe matches Ok(None) ==> (r matches Ok(w) && w.default_derived()),
            probe matches Err(e) ==> r == Err::<DefaultAware<T>, E>(e),
    {
        match probe {
            Ok(Some(value)) => Ok(DefaultAware::Declared(value)),
            Ok(None) => Ok(DefaultAware::default()),
            Err(err) => Err(err),
        }
    }
}

impl<T: Default> Default for DefaultAware<T> {
    /// Default construction, with no decoding involved: the default-derived
    /// state, holding a value obtained from `T::default()`.
    fn default() -> (r: DefaultAware<T>)
        ensures
            r.default_derived(),
    {
        DefaultAware::Default(T::default())
    }
}

/// A default-derived wrapper — whether it came from default construction or
/// from decoding an omitted or absence-marked field — is the `Default`
/// variant, is not declared, and its inner value (what `unwrap` and `as_ref`
/// return) is a value that `T::default()` can return.
pub proof fn lemma_default_derived_observations<T: Default>(w: DefaultAware<T>)
    requires
        w.default_derived(),
    ensures
        w is Default,
        !(w is Declared),
        call_ensures(T::default, (), w.value()),
{
}

/// Provenance, not value equality, distinguishes the two states: a
/// default-derived wrapper and a declared wrapper are never equal, even when
/// their inner values are.
pub proof fn lemma_provenance_distinct<T: Default>(x: T)
    ensures
        DefaultAware::Default(x) != DefaultAware::Declared(x),
{
}

/// A field written with an absence marker decodes to the very same wrapper
/// as an omitted field: whenever `T::default()` admits a single value, any
/// two default-derived wrappers are equal.
pub proof fn lemma_absence_marker_is_omission<T: Default>(w1: DefaultAware<T>, w2: DefaultAware<T>)
    requires
        w1.default_derived(),
        w2.default_derived(),
        forall|a: T, b: T|
            (#[trigger] call_ensures(T::default, (), a) && #[trigger] call_ensures(
                T::default,
                (),
                b,
            )) ==> a == b,
    ensures
        w1 == w2,
{
}

} // verus!
