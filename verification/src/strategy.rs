//! Codec strategies: how a key stored in memory relates to the key on the wire.

use vstd::prelude::*;

verus! {

/// A key could not be brought from its wire form into its stored form.
#[derive(Debug, PartialEq, Eq)]
pub struct DecodeError {
    message: String,
}

impl View for DecodeError {
    type V = Seq<char>;

    /// The cause, as text.
    closed spec fn view(&self) -> Seq<char> {
        self.message@
    }
}

impl Clone for DecodeError {
    /// An error with the same cause.
    fn clone(&self) -> (err: Self)
        ensures
            err@ == self@,
    {
        DecodeError { message: self.message.clone() }
    }
}

impl DecodeError {
    /// An error with the given cause.
    pub fn new(message: String) -> (err: Self)
        ensures
            err@ == message@,
    {
        DecodeError { message }
    }

    /// The cause.
    pub fn message(&self) -> (text: &str)
        ensures
            text@ == self@,
    {
        self.message.as_str()
    }

    /// Gives up the error for its cause.
    pub fn into_message(self) -> (text: String)
        ensures
            text@ == self@,
    {
        self.message
    }
}

/// The wire form of a key, handed out for writing: the stored key itself
/// where the two forms are one, a value made for the occasion where not.
#[derive(Debug)]
pub enum SerRet<'s, Ser> {
    Borrowed(&'s Ser),
    Owned(Ser),
}

impl<'s, Ser> SerRet<'s, Ser> {
    /// The wire key that is handed out.
    pub open spec fn wire(self) -> Ser {
        match self {
            SerRet::Borrowed(key) => *key,
            SerRet::Owned(key) => key,
        }
    }

    /// The wire key, to be written.
    pub fn get(&self) -> (key: &Ser)
        ensures
            *key == self.wire(),
    {
        match self {
            SerRet::Borrowed(key) => key,
            SerRet::Owned(key) => key,
        }
    }
}

/// A pair of conversions between the keys that a container stores (`Des`)
/// and the keys that are seen on the wire (`Ser`).
///
/// Nothing is asked of an implementation but that both conversions return.
/// What a contract of this library says of a conversion, it says of
/// whatever the conversion returned: see [`projects`] and [`lifts`].
pub trait SerdeMapStrategy<Ser>: Sized {
    /// The stored form of a key.
    type Des;

    /// Gives the wire form of a stored key. Never fails.
    fn serialize<'s>(d: &'s Self::Des) -> SerRet<'s, Ser>;

    /// Brings a wire key into its stored form, or says why it cannot.
    fn deserialize(s: Ser) -> Result<Self::Des, DecodeError>;
}

/// `wire` is a wire form that the strategy `KS` gives for the stored key `d`.
pub open spec fn projects<Ser, KS: SerdeMapStrategy<Ser>>(d: KS::Des, wire: Ser) -> bool {
    exists|r: SerRet<Ser>| #[trigger] call_ensures(KS::serialize, (&d,), r) && r.wire() == wire
}

/// `r` is an outcome of bringing the wire key `s` into its stored form by
/// the strategy `KS`.
pub open spec fn lifts<Ser, KS: SerdeMapStrategy<Ser>>(
    s: Ser,
    r: Result<KS::Des, DecodeError>,
) -> bool {
    call_ensures(KS::deserialize, (s,), r)
}

/// The strategy that stores a key exactly as it appears on the wire.
#[derive(Debug, Clone, Copy)]
pub struct Linear;

impl<Ser> SerdeMapStrategy<Ser> for Linear {
    type Des = Ser;

    /// The stored key itself.
    #[inline(always)]
    fn serialize<'s>(d: &'s Ser) -> (r: SerRet<'s, Ser>)
        ensures
            r == SerRet::Borrowed(d),
    {
        SerRet::Borrowed(d)
    }

    /// The wire key itself. Never fails.
    #[inline(always)]
    fn deserialize(s: Ser) -> (r: Result<Ser, DecodeError>)
        ensures
            r == Ok::<Ser, DecodeError>(s),
    {
        Ok(s)
    }
}

/// With [`Linear`] a key has one wire form, itself, and a wire key one
/// stored form, itself.
pub proof fn lemma_linear_is_identity<Ser>(d: Ser, wire: Ser, r: Result<Ser, DecodeError>)
    ensures
        projects::<Ser, Linear>(d, wire) ==> wire == d,
        lifts::<Ser, Linear>(d, r) ==> r == Ok::<Ser, DecodeError>(d),
{
}

} // verus!
