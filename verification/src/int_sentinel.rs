//! The [`IntSentinel`] type and the mathematical model of its encoding.

use vstd::pervasive::unreached;
use vstd::prelude::*;

verus! {

/// What a raw value means: `u64::MAX` means `None`, any other raw value means
/// `Some` of itself.
pub open spec fn decode(raw: u64) -> Option<u64> {
    if raw == u64::MAX {
        None
    } else {
        Some(raw)
    }
}

/// The raw value that stands for `v`. Meaningful only where
/// [`representable`]`(v)` holds.
pub open spec fn encode(v: Option<u64>) -> u64 {
    match v {
        Some(x) => x,
        None => u64::MAX,
    }
}

/// Whether `v` has an encoding: all of `Option<u64>` but `Some(u64::MAX)`.
pub open spec fn representable(v: Option<u64>) -> bool {
    v != Some(u64::MAX)
}

/// Decoding undoes encoding: every optional integer that has an encoding,
/// `None` and each `Some(x)` with `x < u64::MAX`, is what its encoding decodes
/// to.
pub proof fn lemma_decode_encode(v: Option<u64>)
    requires
        representable(v),
    ensures
        decode(encode(v)) == v,
{
}

/// Encoding undoes decoding: every raw value decodes to an optional integer
/// that has an encoding, encoding it gives the same raw value back, and
/// decoding that once more gives the same optional integer.
pub proof fn lemma_encode_decode(raw: u64)
    ensures
        representable(decode(raw)),
        encode(decode(raw)) == raw,
        decode(encode(decode(raw))) == decode(raw),
{
}

/// An `Option<u64>` stored in the space of a `u64`.
#[derive(Debug)]
pub struct IntSentinel {
    value: u64,
}

impl View for IntSentinel {
    type V = Option<u64>;

    /// The optional integer that this instance stands for.
    open spec fn view(&self) -> Option<u64> {
        decode(self.raw())
    }
}

impl IntSentinel {
    /// The stored integer, before any interpretation.
    pub closed spec fn raw(&self) -> u64 {
        self.value
    }

    /// [`IntSentinel::sentinel`] as it reads in contracts.
    pub open spec fn spec_sentinel() -> u64 {
        u64::MAX
    }

    /// The sentinel value: the raw value that means `None`.
    #[verifier::when_used_as_spec(spec_sentinel)]
    pub fn sentinel() -> (r: u64)
        ensures
            r == u64::MAX,
            r == Self::spec_sentinel(),
    {
        u64::MAX
    }

    /// The largest integer that an instance can hold as a value: one less than
    /// the sentinel.
    pub fn max_value() -> (r: u64)
        ensures
            r == Self::sentinel() - 1,
            r == u64::MAX - 1,
    {
        IntSentinel::sentinel() - 1
    }

    /// Returns the `Option` that this instance stands for: `None` if the
    /// stored integer is the sentinel, `Some` of the stored integer if not.
    pub fn to_option(&self) -> (r: Option<u64>)
        ensures
            r == self@,
    {
        if self.value == u64::MAX {
            None
        } else {
            Some(self.value)
        }
    }

    /// Constructs an `IntSentinel` that stands for `Some(value)`.
    ///
    /// The sentinel cannot be stored: as a raw value it already means `None`,
    /// so a caller that holds it as a value has lost track of which of the
    /// two it has. The precondition rules it out for every caller that Verus
    /// checks.
    ///
    /// # Panics
    ///
    /// A caller that Verus has not checked and that passes the sentinel all
    /// the same is stopped by a panic, rather than handed an instance that
    /// reads back as `None`.
    pub fn new_with_some(value: u64) -> (r: Self)
        requires
            value != Self::sentinel(),
        ensures
            r.raw() == value,
            r@ == Some(value),
    {
        if value == u64::MAX {
            unreached()
        } else {
            IntSentinel { value }
        }
    }

    /// Constructs an `IntSentinel` that stands for `None`.
    pub fn new_none() -> (r: Self)
        ensures
            r.raw() == Self::sentinel(),
            r@ == None::<u64>,
    {
        IntSentinel { value: u64::MAX }
    }

    /// Constructs an `IntSentinel` around `value` as it is, with no test for
    /// the sentinel.
    ///
    /// # Unchecked
    ///
    /// Nothing is asked of `value`, and nothing stops the sentinel: handed
    /// `IntSentinel::sentinel()`, the instance stands for `None`, whatever the
    /// caller meant by it. Handed any other integer, it stands for `Some` of
    /// that integer. Use it where the raw value comes from an instance's own
    /// [`IntSentinel::to_u64_unchecked`], or where the caller has made the
    /// test; everywhere else, use [`IntSentinel::new_with_some`].
    pub fn unchecked_new(value: u64) -> (r: Self)
        ensures
            r.raw() == value,
            r@ == decode(value),
    {
        IntSentinel { value }
    }

    /// Returns the stored integer as it is, with no test for the sentinel.
    ///
    /// # Unchecked
    ///
    /// Where the instance stands for `None`, the result is
    /// `IntSentinel::sentinel()`, which is no value that the instance holds;
    /// where it stands for `Some(x)`, the result is `x`. The caller has to
    /// tell the two apart; [`IntSentinel::to_option`] does so for them.
    pub fn to_u64_unchecked(&self) -> (r: u64)
        ensures
            r == self.raw(),
            r == encode(self@),
    {
        self.value
    }

    /// Converts an `Option<u64>` into its compact form: `Some(value)` as
    /// [`IntSentinel::new_with_some`] does, `None` as
    /// [`IntSentinel::new_none`] does.
    ///
    /// This is an associated function and not an impl of `From`, whose method
    /// could not carry the precondition.
    ///
    /// # Panics
    ///
    /// On `Some(u64::MAX)`, as [`IntSentinel::new_with_some`] does.
    pub fn from(option: Option<u64>) -> (r: Self)
        requires
            representable(option),
        ensures
            r.raw() == encode(option),
            r@ == option,
    {
        match option {
            Some(value) => IntSentinel::new_with_some(value),
            None => IntSentinel::new_none(),
        }
    }
}

impl From<IntSentinel> for Option<u64> {
    /// Converts the compact form back, as [`IntSentinel::to_option`] does.
    fn from(sentinel: IntSentinel) -> (r: Option<u64>)
        ensures
            r == sentinel@,
    {
        sentinel.to_option()
    }
}

impl vstd::std_specs::convert::FromSpecImpl<IntSentinel> for Option<u64> {
    open spec fn obeys_from_spec() -> bool {
        true
    }

    open spec fn from_spec(sentinel: IntSentinel) -> Option<u64> {
        sentinel@
    }
}

} // verus!
