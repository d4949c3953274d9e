//! The byte layout of a map cell: a big-endian count, then the cell of each
//! key followed by the cell of its value.
//!
//! The cells of keys and values come whole, as their own serializers wrote
//! them, and are not looked into. What is made here is the contents of the
//! map's cell: the writer that takes it puts the length in front.

use vstd::prelude::*;
use crate::map::SerdeMap;
use crate::outcome::{all_ok, first_err_at};
use crate::strategy::SerdeMapStrategy;
use crate::column::{
    mk_ser_err_named, mk_typck_err_named, ColumnType, EncodingError, SerializationError,
    SerializationErrorKind, TypeCheckError, TypeCheckErrorKind,
};

verus! {

/// The largest count, and the largest length in bytes, that a cell can state.
pub const MAX_CELL: usize = 0x7fff_ffff;

/// The cell of an entry that its serializer could not write.
#[derive(Debug, PartialEq, Eq)]
pub enum CellError<E> {
    Key(E),
    Value(E),
}

/// What the serializers made of one entry: the cell of the key and the cell
/// of the value, or the first failure.
pub type EntryCells<E> = Result<(Vec<u8>, Vec<u8>), CellError<E>>;

/// The four bytes of a count, most significant first.
pub open spec fn count_bytes(n: int) -> Seq<u8> {
    seq![
        (n / 0x100_0000 % 0x100) as u8,
        (n / 0x1_0000 % 0x100) as u8,
        (n / 0x100 % 0x100) as u8,
        (n % 0x100) as u8,
    ]
}

/// The cells of the written entries, one after the other.
pub open spec fn cells_bytes<E>(cells: Seq<EntryCells<E>>) -> Seq<u8>
    decreases cells.len(),
{
    if cells.len() == 0 {
        Seq::empty()
    } else {
        let front = cells_bytes(cells.drop_last());
        match cells.last() {
            Ok((key, value)) => front + key@ + value@,
            Err(_) => front,
        }
    }
}

fn count_to_bytes(n: u32) -> (bytes: Vec<u8>)
    ensures
        bytes@ == count_bytes(n as int),
{
    let mut bytes: Vec<u8> = Vec::with_capacity(4);
    bytes.push((n / 0x100_0000 % 0x100) as u8);
    bytes.push((n / 0x1_0000 % 0x100) as u8);
    bytes.push((n / 0x100 % 0x100) as u8);
    bytes.push((n % 0x100) as u8);
    assert(bytes@ =~= count_bytes(n as int));
    bytes
}

/// The error of a write of `rust_name` into `typ` that failed for `kind`.
pub open spec fn failed_write<E>(
    rust_name: &'static str,
    typ: ColumnType,
    kind: SerializationErrorKind<E>,
) -> SerializationError<E> {
    SerializationError::Encoding(EncodingError { rust_name, got: typ, kind })
}

/// The error of a write of `rust_name` into `typ` that was refused because
/// `typ` is not a map.
pub open spec fn refused_write<E>(rust_name: &'static str, typ: ColumnType) -> SerializationError<E> {
    SerializationError::TypeCheck(not_a_map(rust_name, typ))
}

/// The error of a column type `typ` that `rust_name` refused as not a map.
pub open spec fn not_a_map(rust_name: &'static str, typ: ColumnType) -> TypeCheckError {
    TypeCheckError { rust_name, got: typ, kind: TypeCheckErrorKind::NotMap }
}

/// Accepts the column types that a map can be read from and written to:
/// the unfrozen map collections, and no others.
pub fn type_check(rust_name: &'static str, typ: &ColumnType) -> (r: Result<(), TypeCheckError>)
    ensures
        typ.is_unfrozen_map() ==> r is Ok,
        !typ.is_unfrozen_map() ==> r == Err::<(), _>(not_a_map(rust_name, *typ)),
{
    if typ.unfrozen_map() {
        Ok(())
    } else {
        Err(TypeCheckError { rust_name, got: *typ, kind: TypeCheckErrorKind::NotMap })
    }
}

/// The error of a write of `rust_name` into `typ` in which the serializer
/// of a key or of a value failed.
pub open spec fn failed_cell<E>(
    rust_name: &'static str,
    typ: ColumnType,
    cause: CellError<E>,
) -> SerializationError<E> {
    match cause {
        CellError::Key(err) => failed_write(
            rust_name,
            typ,
            SerializationErrorKind::KeySerializationFailed(err),
        ),
        CellError::Value(err) => failed_write(
            rust_name,
            typ,
            SerializationErrorKind::ValueSerializationFailed(err),
        ),
    }
}

/// `r` is the outcome of writing the cell of a map of `len` entries, of
/// which `cells` are the cells, into a column of type `typ`.
///
/// The checks come in this order, and the first that fails decides the
/// error: the column type, the count, the entries from first to last, the
/// size of the whole. Where none fails, the cell holds the count and then
/// the cells of the entries.
pub open spec fn is_mapping_cell<E>(
    rust_name: &'static str,
    len: nat,
    cells: Seq<EntryCells<E>>,
    typ: ColumnType,
    r: Result<Vec<u8>, SerializationError<E>>,
) -> bool {
    if !typ.is_unfrozen_map() {
        r matches Err(e) && e == refused_write::<E>(rust_name, typ)
    } else if len > MAX_CELL {
        r matches Err(e) && e == failed_write::<E>(
            rust_name,
            typ,
            SerializationErrorKind::TooManyElements,
        )
    } else if !all_ok(cells) {
        exists|i: int|
            {
                &&& #[trigger] first_err_at(cells, i)
                &&& cells[i] matches Err(cause)
                &&& r matches Err(e)
                &&& e == failed_cell(rust_name, typ, cause)
            }
    } else if 4 + cells_bytes(cells).len() > MAX_CELL {
        r matches Err(e) && e == failed_write::<E>(
            rust_name,
            typ,
            SerializationErrorKind::SizeOverflow,
        )
    } else {
        r matches Ok(bytes) && bytes@ == count_bytes(len as int) + cells_bytes(cells)
    }
}

/// Begins the cell of a map of `len` entries: checks the column type, then
/// the count, and writes the count.
///
/// Nothing else is needed to refuse a column that is not an unfrozen map,
/// or a map of too many elements: no entry has to be serialized for it.
pub fn mapping_header<E>(rust_name: &'static str, len: usize, typ: &ColumnType) -> (r: Result<
    Vec<u8>,
    SerializationError<E>,
>)
    ensures
        !typ.is_unfrozen_map() ==> (r matches Err(e) && e == refused_write::<E>(rust_name, *typ)),
        typ.is_unfrozen_map() && len > MAX_CELL ==> (r matches Err(e) && e == failed_write::<E>(
            rust_name,
            *typ,
            SerializationErrorKind::TooManyElements,
        )),
        typ.is_unfrozen_map() && len <= MAX_CELL ==> (r matches Ok(bytes) && bytes@ == count_bytes(
            len as int,
        )),
{
    if !typ.unfrozen_map() {
        return Err(mk_typck_err_named(rust_name, typ, TypeCheckErrorKind::NotMap));
    }
    if len > MAX_CELL {
        return Err(mk_ser_err_named(rust_name, typ, SerializationErrorKind::TooManyElements));
    }
    Ok(count_to_bytes(len as u32))
}

/// Ends the cell that `begun` begins: appends the cells of the entries in
/// their order, and checks the size of the whole.
///
/// The first entry that was not written decides the error. The size is
/// looked at only where every entry was written.
pub fn append_cells<E>(
    rust_name: &'static str,
    typ: &ColumnType,
    begun: Vec<u8>,
    cells: Vec<EntryCells<E>>,
) -> (r: Result<Vec<u8>, SerializationError<E>>)
    ensures
        !all_ok(cells@) ==> exists|i: int|
            {
                &&& #[trigger] first_err_at(cells@, i)
                &&& cells@[i] matches Err(cause)
                &&& r matches Err(e)
                &&& e == failed_cell(rust_name, *typ, cause)
            },
        all_ok(cells@) && begun@.len() + cells_bytes(cells@).len() > MAX_CELL ==> (r matches Err(e)
            && e == failed_write::<E>(rust_name, *typ, SerializationErrorKind::SizeOverflow)),
        all_ok(cells@) && begun@.len() + cells_bytes(cells@).len() <= MAX_CELL ==> (
        r matches Ok(bytes) && bytes@ == begun@ + cells_bytes(cells@)),
{
    let mut out = begun;
    let ghost all = cells@;
    for cell in it: cells
        invariant
            it.seq() == all,
            all_ok(all.take(it.index())),
            out@ == begun@ + cells_bytes(all.take(it.index())),
    {
        let ghost idx = it.index();
        assert(all.take(idx + 1).drop_last() == all.take(idx));
        match cell {
            Ok((mut key, mut value)) => {
                out.append(&mut key);
                out.append(&mut value);
            },
            Err(CellError::Key(err)) => {
                assert(first_err_at(all, idx));
                return Err(
                    mk_ser_err_named(
                        rust_name,
                        typ,
                        SerializationErrorKind::KeySerializationFailed(err),
                    ),
                );
            },
            Err(CellError::Value(err)) => {
                assert(first_err_at(all, idx));
                return Err(
                    mk_ser_err_named(
                        rust_name,
                        typ,
                        SerializationErrorKind::ValueSerializationFailed(err),
                    ),
                );
            },
        }
    }
    assert(all.take(all.len() as int) == all);
    if out.len() > MAX_CELL {
        return Err(mk_ser_err_named(rust_name, typ, SerializationErrorKind::SizeOverflow));
    }
    Ok(out)
}

/// Writes the contents of the cell of a map of `len` entries, from the cells
/// that the serializers of its keys and values wrote.
///
/// A column that is not an unfrozen map is refused before anything else is
/// looked at, and a count above [`MAX_CELL`] before any entry is. On an
/// error nothing is written.
pub fn serialize_mapping<E>(
    rust_name: &'static str,
    len: usize,
    cells: Vec<EntryCells<E>>,
    typ: &ColumnType,
) -> (r: Result<Vec<u8>, SerializationError<E>>)
    ensures
        is_mapping_cell(rust_name, len as nat, cells@, *typ, r),
        !typ.is_unfrozen_map() ==> (r matches Err(e) && e == refused_write::<E>(rust_name, *typ)),
        typ.is_unfrozen_map() && len > MAX_CELL ==> (r matches Err(e) && e == failed_write::<E>(
            rust_name,
            *typ,
            SerializationErrorKind::TooManyElements,
        )),
{
    match mapping_header(rust_name, len, typ) {
        Ok(header) => append_cells(rust_name, typ, header, cells),
        Err(err) => Err(err),
    }
}

impl<K, V, KS: SerdeMapStrategy<K>> SerdeMap<K, V, KS> {
    /// Writes the contents of the cell of this container, from the cells
    /// that the serializers of its keys and values wrote, oldest pair
    /// first: [`serialize_mapping`] with the container's own count.
    ///
    /// For a map column, a container of more than [`MAX_CELL`] pairs is
    /// refused as having too many elements, whatever the cells are.
    pub fn serialize_value<E>(
        &self,
        rust_name: &'static str,
        typ: &ColumnType,
        cells: Vec<EntryCells<E>>,
    ) -> (r: Result<Vec<u8>, SerializationError<E>>)
        ensures
            is_mapping_cell(rust_name, self@.len(), cells@, *typ, r),
            !typ.is_unfrozen_map() ==> (r matches Err(e) && e == refused_write::<E>(
                rust_name,
                *typ,
            )),
            typ.is_unfrozen_map() && self@.len() > MAX_CELL ==> (r matches Err(e) && e
                == failed_write::<E>(rust_name, *typ, SerializationErrorKind::TooManyElements)),
    {
        serialize_mapping(rust_name, self.len(), cells, typ)
    }
}

} // verus!
