//! Column types of a columnar database and the errors of writing a map into one.

use vstd::prelude::*;

verus! {

/// The kind of a collection column.
#[derive(Clone, Copy, Debug, PartialEq, Eq, Structural)]
pub enum CollectionType {
    ListOf,
    MapOf,
    SetOf,
    /// A kind of collection of which this library knows no more.
    Other,
}

/// The declared type of a column, as far as this library reads it.
///
/// The element types of a collection are not part of it: the cells of keys
/// and values are written by their own serializers.
#[derive(Clone, Copy, Debug, PartialEq, Eq, Structural)]
pub enum ColumnType {
    Native,
    Collection { frozen: bool, typ: CollectionType },
    Vector,
    UserDefinedType,
    Tuple,
    /// A kind of type of which this library knows no more.
    Other,
}

impl ColumnType {
    /// The one shape a map can be written to: a map collection that is not frozen.
    pub open spec fn is_unfrozen_map(self) -> bool {
        self == (ColumnType::Collection { frozen: false, typ: CollectionType::MapOf })
    }

    /// Tells whether the column is an unfrozen map collection.
    pub fn unfrozen_map(&self) -> (b: bool)
        ensures
            b == self.is_unfrozen_map(),
    {
        match self {
            ColumnType::Collection { frozen: false, typ: CollectionType::MapOf } => true,
            _ => false,
        }
    }
}

/// Why a column type was refused.
#[derive(Clone, Copy, Debug, PartialEq, Eq, Structural)]
pub enum TypeCheckErrorKind {
    /// The column is not an unfrozen map collection.
    NotMap,
}

/// Why a map could not be written, once its column type was accepted.
#[derive(Debug, PartialEq, Eq)]
pub enum SerializationErrorKind<E> {
    /// The map has more entries than a 32-bit signed count can hold.
    TooManyElements,
    /// A key's own serializer failed, with its error.
    KeySerializationFailed(E),
    /// A value's own serializer failed, with its error.
    ValueSerializationFailed(E),
    /// The encoded map is longer than a cell can be.
    SizeOverflow,
}

/// A column type that a type refused.
#[derive(Clone, Copy, Debug, PartialEq, Eq)]
pub struct TypeCheckError {
    /// The name of the type that asked.
    pub rust_name: &'static str,
    /// The column type it was offered.
    pub got: ColumnType,
    pub kind: TypeCheckErrorKind,
}

/// A failure to write a value of a type into a column.
#[derive(Debug, PartialEq, Eq)]
pub struct EncodingError<E> {
    /// The name of the type that was written.
    pub rust_name: &'static str,
    /// The column type it was written to.
    pub got: ColumnType,
    pub kind: SerializationErrorKind<E>,
}

/// Every way in which writing a map into a column fails.
#[derive(Debug, PartialEq, Eq)]
pub enum SerializationError<E> {
    TypeCheck(TypeCheckError),
    Encoding(EncodingError<E>),
}

/// Builds the error of a failed write.
pub fn mk_ser_err_named<E>(
    name: &'static str,
    got: &ColumnType,
    kind: SerializationErrorKind<E>,
) -> (err: SerializationError<E>)
    ensures
        err == SerializationError::Encoding(EncodingError { rust_name: name, got: *got, kind }),
{
    SerializationError::Encoding(EncodingError { rust_name: name, got: *got, kind })
}

/// Builds the error of a refused column type.
pub fn mk_typck_err_named<E>(
    name: &'static str,
    got: &ColumnType,
    kind: TypeCheckErrorKind,
) -> (err: SerializationError<E>)
    ensures
        err == SerializationError::<E>::TypeCheck(TypeCheckError { rust_name: name, got: *got, kind }),
{
    SerializationError::TypeCheck(TypeCheckError { rust_name: name, got: *got, kind })
}

} // verus!
