//! Identifiers bound to an owner type.
//!
//! `Id<T, I>` wraps a raw identifier of type `I` and tags it with an owner
//! type `T` that exists only at compile time, so that identifiers of
//! different kinds of entity cannot be mixed up.
use std::marker::PhantomData;
use vstd::prelude::*;
use vstd::std_specs::cmp::{PartialEqSpec, PartialOrdSpec};
use vstd::std_specs::convert::{FromSpec, TryFromSpec};
use vstd::pervasive::strictly_cloned;
use vstd::string::{to_string_from_display_ensures, StringExecFns};

pub mod label;

pub use label::Labeled;

verus! {

/// Backing type of an identifier when none is named.
pub type DefaultIdType = u32;

/// Identifier bound to an owner type `T` and backed by a value of type `I`.
///
/// Identifiers with owners of different types are distinct types: they
/// cannot be compared with each other nor passed in place of each other.
#[derive(Debug)]
pub struct Id<T, I = DefaultIdType> {
    id: I,
    t: PhantomData<T>,
}

impl<T, I> View for Id<T, I> {
    type V = I;

    /// The raw value that the identifier wraps.
    closed spec fn view(&self) -> I {
        self.id
    }
}

impl<T, I> Id<T, I> {
    /// The identifier owned by `T` that wraps `id`.
    pub closed spec fn wrap(id: I) -> Id<T, I> {
        Id { id, t: PhantomData }
    }

    /// The same raw value, owned by `T2`.
    pub closed spec fn with_owner<T2>(self) -> Id<T2, I> {
        Id { id: self.id, t: PhantomData }
    }

    /// Wraps `id` as an identifier owned by `T`.
    pub fn new(id: I) -> (r: Id<T, I>)
        ensures
            r == Self::wrap(id),
            r@ == id,
    {
        Id { id, t: PhantomData }
    }

    /// Name of the backing type `I`.
    pub fn backing_type(&self) -> (r: String) where I: Labeled
        ensures
            r@ == I::label(),
    {
        I::type_label()
    }

    /// Name of the owner type `T`.
    pub fn owner_type(&self) -> (r: String) where T: Labeled
        ensures
            r@ == T::label(),
    {
        T::type_label()
    }

    /// The same raw value, now owned by `T2`.
    pub fn change_owner_type<T2>(self) -> (r: Id<T2, I>)
        ensures
            r == self.with_owner::<T2>(),
            r@ == self@,
    {
        Id::<T2, I>::new(self.id)
    }

    /// The raw value converted to `I2` by its lossless conversion.
    pub fn change_backing_type<I2: From<I>>(self) -> (r: Id<T, I2>)
        ensures
            call_ensures(I2::from, (self@,), r@),
            I2::obeys_from_spec() ==> r@ == I2::from_spec(self@),
    {
        Id::<T, I2>::new(I2::from(self.id))
    }

    /// The raw value converted to `I2` by its fallible conversion; the
    /// conversion's error when the value cannot be held by `I2`.
    pub fn try_change_backing_type<I2: TryFrom<I>>(self) -> (r: Result<Id<T, I2>, I2::Error>)
        ensures
            I2::obeys_try_from_spec() ==> match r {
                Ok(v) => I2::try_from_spec(self@) == Ok::<I2, I2::Error>(v@),
                Err(e) => I2::try_from_spec(self@) == Err::<I2, I2::Error>(e),
            },
    {
        match I2::try_from(self.id) {
            Ok(v) => Ok(Id::<T, I2>::new(v)),
            Err(e) => Err(e),
        }
    }
}

impl<T, I: Clone> Id<T, I> {
    /// A copy of the raw value.
    pub fn value(&self) -> (r: I)
        ensures
            strictly_cloned(self@, r),
    {
        self.id.clone()
    }
}

impl<T, I: std::fmt::Display> Id<T, I> {
    /// The raw value's own display form, with nothing added.
    pub fn to_string(&self) -> (r: String)
        ensures
            to_string_from_display_ensures::<I>(&self@, r),
    {
        self.id.to_string()
    }
}

impl<T: Labeled, I: Labeled + std::fmt::Debug> Id<T, I> {
    /// Diagnostic form: `Id<owner: O, backing: B>(D)`, with the names of the
    /// owner and backing types and the raw value's debug form.
    pub fn debug_string(&self) -> (r: String)
        ensures
            exists|d: Seq<char>| r@ == debug_text(T::label(), I::label(), d),
    {
        let owner = self.owner_type();
        let backing = self.backing_type();
        let raw = debug_of(&self.id);
        debug_form(owner.as_str(), backing.as_str(), raw.as_str())
    }
}

/// The diagnostic form of an identifier, from the owner's name, the backing
/// type's name and the raw value's debug form.
pub open spec fn debug_text(owner: Seq<char>, backing: Seq<char>, raw: Seq<char>) -> Seq<char> {
    "Id<owner: "@ + owner + ", backing: "@ + backing + ">("@ + raw + ")"@
}

/// Builds the diagnostic form of an identifier from the owner's name, the
/// backing type's name and the raw value's debug form.
pub fn debug_form(owner: &str, backing: &str, raw: &str) -> (r: String)
    ensures
        r@ == debug_text(owner@, backing@, raw@),
{
    let mut r = String::from_str("Id<owner: ");
    r.append(owner);
    r.append(", backing: ");
    r.append(backing);
    r.append(">(");
    r.append(raw);
    r.append(")");
    r
}

/// Relies on the `Debug` impl of `X`, through `format!`: the debug form of `v`.
#[verifier::external_body]
fn debug_of<X: std::fmt::Debug>(v: &X) -> String {
    format!("{:?}", v)
}

/// The name of an identifier type: the owner's name inside `typed_id::Id<..>`,
/// followed by the backing type's name unless that is the default `u32`.
pub open spec fn id_label(owner: Seq<char>, backing: Seq<char>) -> Seq<char> {
    if backing == "u32"@ {
        "typed_id::Id<"@ + owner + ">"@
    } else {
        "typed_id::Id<"@ + owner + ", "@ + backing + ">"@
    }
}

impl<T: Labeled, I: Labeled> Labeled for Id<T, I> {
    open spec fn label() -> Seq<char> {
        id_label(T::label(), I::label())
    }

    fn type_label() -> (r: String) {
        let owner = T::type_label();
        let backing = I::type_label();
        let default_backing = String::from_str("u32");
        let mut r = String::from_str("typed_id::Id<");
        r.append(owner.as_str());
        if backing != default_backing {
            r.append(", ");
            r.append(backing.as_str());
        }
        r.append(">");
        proof {
            reveal_strlit("u32");
        }
        r
    }
}

/// A type whose values carry an identifier owned by `T`.
pub trait HasId<T = Self, I = DefaultIdType> {
    /// The identifier of this value.
    fn id(&self) -> Id<T, I>;
}

impl<T, I: PartialEq> PartialEq for Id<T, I> {
    fn eq(&self, other: &Self) -> (r: bool) {
        self.id.eq(&other.id)
    }
}

impl<T, I: PartialEq> vstd::std_specs::cmp::PartialEqSpecImpl for Id<T, I> {
    open spec fn obeys_eq_spec() -> bool {
        <I as PartialEqSpec>::obeys_eq_spec()
    }

    open spec fn eq_spec(&self, other: &Self) -> bool {
        self@.eq_spec(&other@)
    }
}

impl<T, I: Eq> Eq for Id<T, I> {

}

impl<T, I: PartialOrd> PartialOrd for Id<T, I> {
    fn partial_cmp(&self, other: &Self) -> (r: Option<std::cmp::Ordering>) {
        self.id.partial_cmp(&other.id)
    }
}

impl<T, I: PartialOrd> vstd::std_specs::cmp::PartialOrdSpecImpl for Id<T, I> {
    open spec fn obeys_partial_cmp_spec() -> bool {
        <I as PartialOrdSpec>::obeys_partial_cmp_spec()
    }

    open spec fn partial_cmp_spec(&self, other: &Self) -> Option<std::cmp::Ordering> {
        self@.partial_cmp_spec(&other@)
    }
}

impl<T, I: Clone> Clone for Id<T, I> {
    fn clone(&self) -> (r: Self)
        ensures
            strictly_cloned(self@, r@),
    {
        Id::new(self.id.clone())
    }
}

impl<T, I: Copy> Copy for Id<T, I> {

}

impl<T, I> From<I> for Id<T, I> {
    fn from(value: I) -> (r: Self) {
        Self::new(value)
    }
}

impl<T, I> vstd::std_specs::convert::FromSpecImpl<I> for Id<T, I> {
    open spec fn obeys_from_spec() -> bool {
        true
    }

    open spec fn from_spec(v: I) -> Self {
        Self::wrap(v)
    }
}

impl<T, I: Default> Default for Id<T, I> {
    fn default() -> (r: Self)
        ensures
            call_ensures(I::default, (), r@),
    {
        Self::new(I::default())
    }
}

impl<T, I: std::hash::Hash> std::hash::Hash for Id<T, I> {
    /// Relies on the `Hash` impl of `I`: the identifier hashes as its raw value.
    #[verifier::external_body]
    fn hash<H: std::hash::Hasher>(&self, state: &mut H) {
        self.id.hash(state);
    }
}

/// Wrapping a raw value and reading it back gives that value.
pub proof fn lemma_wrap_view<T, I>(v: I)
    ensures
        Id::<T, I>::wrap(v)@ == v,
{
}

/// An identifier is the wrapping of its own raw value.
pub proof fn lemma_view_wrap<T, I>(x: Id<T, I>)
    ensures
        Id::<T, I>::wrap(x@) == x,
{
}

/// Equality and ordering of identifiers are those of their raw values:
/// two identifiers are equal exactly when their raw values are, and they
/// compare as their raw values compare.
pub proof fn lemma_eq_and_order_follow_raw<T, I: PartialOrd>(v1: I, v2: I)
    ensures
        <Id<T, I> as PartialEqSpec>::obeys_eq_spec() == <I as PartialEqSpec>::obeys_eq_spec(),
        Id::<T, I>::wrap(v1).eq_spec(&Id::<T, I>::wrap(v2)) == v1.eq_spec(&v2),
        <Id<T, I> as PartialOrdSpec>::obeys_partial_cmp_spec()
            == <I as PartialOrdSpec>::obeys_partial_cmp_spec(),
        Id::<T, I>::wrap(v1).partial_cmp_spec(&Id::<T, I>::wrap(v2)) == v1.partial_cmp_spec(&v2),
        (Id::<T, I>::wrap(v1) == Id::<T, I>::wrap(v2)) <==> v1 == v2,
{
    if Id::<T, I>::wrap(v1) == Id::<T, I>::wrap(v2) {
        assert(Id::<T, I>::wrap(v1)@ == Id::<T, I>::wrap(v2)@);
    }
}

/// Moving an identifier to another owner and back gives the identifier
/// it started from.
pub proof fn lemma_owner_round_trip<T, U, I>(x: Id<T, I>)
    ensures
        x.with_owner::<U>().with_owner::<T>() == x,
        x.with_owner::<U>()@ == x@,
{
}

/// Widening a `u8` identifier to `u16` and narrowing it back succeeds and
/// gives the identifier it started from.
pub proof fn lemma_widen_then_narrow<T>(x: Id<T, u8>)
    ensures
        <u16 as FromSpec<u8>>::obeys_from_spec(),
        <u8 as TryFromSpec<u16>>::obeys_try_from_spec(),
        <u8 as TryFromSpec<u16>>::try_from_spec(<u16 as FromSpec<u8>>::from_spec(x@))
            == Ok::<u8, std::num::TryFromIntError>(x@),
        Id::<T, u8>::wrap(x@) == x,
{
}

/// Converting a signed `i64` identifier to `u64` fails exactly when the raw
/// value is negative, and otherwise keeps the value.
pub proof fn lemma_signed_to_unsigned<T>(x: Id<T, i64>)
    ensures
        <u64 as TryFromSpec<i64>>::obeys_try_from_spec(),
        <u64 as TryFromSpec<i64>>::try_from_spec(x@) is Err <==> x@ < 0,
        x@ >= 0 ==> <u64 as TryFromSpec<i64>>::try_from_spec(x@) == Ok::<
            u64,
            std::num::TryFromIntError,
        >(x@ as u64),
{
}

/// Converting a signed `i8` identifier to `u8` fails exactly when the raw
/// value is negative, and otherwise keeps the value.
pub proof fn lemma_signed_to_unsigned_byte<T>(x: Id<T, i8>)
    ensures
        <u8 as TryFromSpec<i8>>::obeys_try_from_spec(),
        <u8 as TryFromSpec<i8>>::try_from_spec(x@) is Err <==> x@ < 0,
        x@ >= 0 ==> <u8 as TryFromSpec<i8>>::try_from_spec(x@) == Ok::<
            u8,
            std::num::TryFromIntError,
        >(x@ as u8),
{
}

} // verus!
