use serde_map::cell::{
    append_cells, mapping_header, serialize_mapping, type_check, CellError, EntryCells, MAX_CELL,
};
use serde_map::column::{
    mk_ser_err_named, mk_typck_err_named, CollectionType, ColumnType, EncodingError,
    SerializationError, SerializationErrorKind, TypeCheckError, TypeCheckErrorKind,
};
use serde_map::SerdeMap;

const MAP: ColumnType = ColumnType::Collection {
    frozen: false,
    typ: CollectionType::MapOf,
};

fn not_maps() -> Vec<ColumnType> {
    vec![
        ColumnType::Native,
        ColumnType::Collection { frozen: true, typ: CollectionType::MapOf },
        ColumnType::Collection { frozen: false, typ: CollectionType::ListOf },
        ColumnType::Collection { frozen: true, typ: CollectionType::ListOf },
        ColumnType::Collection { frozen: false, typ: CollectionType::SetOf },
        ColumnType::Collection { frozen: true, typ: CollectionType::SetOf },
        ColumnType::Collection { frozen: false, typ: CollectionType::Other },
        ColumnType::Vector,
        ColumnType::UserDefinedType,
        ColumnType::Tuple,
        ColumnType::Other,
    ]
}

fn failed(kind: SerializationErrorKind<String>) -> SerializationError<String> {
    SerializationError::Encoding(EncodingError { rust_name: "T", got: MAP, kind })
}

#[test]
fn only_an_unfrozen_map_is_one() {
    assert!(MAP.unfrozen_map());
    for typ in not_maps() {
        assert!(!typ.unfrozen_map());
    }
}

#[test]
fn type_check_accepts_an_unfrozen_map() {
    assert_eq!(type_check("T", &MAP), Ok(()));
}

#[test]
fn type_check_refuses_everything_else_as_not_a_map() {
    for typ in not_maps() {
        assert_eq!(
            type_check("T", &typ),
            Err(TypeCheckError { rust_name: "T", got: typ, kind: TypeCheckErrorKind::NotMap })
        );
    }
}

#[test]
fn error_builders_keep_name_type_and_kind() {
    let e: SerializationError<String> =
        mk_ser_err_named("Name", &ColumnType::Tuple, SerializationErrorKind::SizeOverflow);
    assert_eq!(
        e,
        SerializationError::Encoding(EncodingError {
            rust_name: "Name",
            got: ColumnType::Tuple,
            kind: SerializationErrorKind::SizeOverflow,
        })
    );
    let e: SerializationError<String> = mk_ser_err_named(
        "Name",
        &MAP,
        SerializationErrorKind::KeySerializationFailed("cause".to_string()),
    );
    assert_eq!(
        e,
        failed_named("Name", SerializationErrorKind::KeySerializationFailed("cause".to_string()))
    );
    let e: SerializationError<String> =
        mk_typck_err_named("Name", &ColumnType::Vector, TypeCheckErrorKind::NotMap);
    assert_eq!(
        e,
        SerializationError::TypeCheck(TypeCheckError {
            rust_name: "Name",
            got: ColumnType::Vector,
            kind: TypeCheckErrorKind::NotMap,
        })
    );
}

fn failed_named(
    rust_name: &'static str,
    kind: SerializationErrorKind<String>,
) -> SerializationError<String> {
    SerializationError::Encoding(EncodingError { rust_name, got: MAP, kind })
}

#[test]
fn empty_map_is_a_zero_count() {
    let cells: Vec<EntryCells<String>> = Vec::new();
    assert_eq!(serialize_mapping("T", 0, cells, &MAP), Ok(vec![0, 0, 0, 0]));
}

#[test]
fn cell_is_count_then_key_and_value_cells() {
    let cells: Vec<EntryCells<String>> = vec![
        Ok((vec![0, 0, 0, 1, b'a'], vec![0, 0, 0, 2, 1, 2])),
        Ok((vec![0, 0, 0, 1, b'b'], vec![255, 255, 255, 255])),
    ];
    assert_eq!(
        serialize_mapping("T", 2, cells, &MAP),
        Ok(vec![
            0, 0, 0, 2, // two entries
            0, 0, 0, 1, b'a', 0, 0, 0, 2, 1, 2, // first key, first value
            0, 0, 0, 1, b'b', 255, 255, 255, 255, // second key, an empty value
        ])
    );
}

#[test]
fn count_is_big_endian() {
    let none = || -> Vec<EntryCells<String>> { Vec::new() };
    assert_eq!(serialize_mapping("T", 1, none(), &MAP), Ok(vec![0, 0, 0, 1]));
    assert_eq!(serialize_mapping("T", 258, none(), &MAP), Ok(vec![0, 0, 1, 2]));
    assert_eq!(serialize_mapping("T", 0x0102_0304, none(), &MAP), Ok(vec![1, 2, 3, 4]));
    assert_eq!(serialize_mapping("T", MAX_CELL, none(), &MAP), Ok(vec![127, 255, 255, 255]));
}

#[test]
fn largest_count_is_that_of_a_signed_32_bit_integer() {
    assert_eq!(MAX_CELL, i32::MAX as usize);
}

#[test]
fn non_map_column_fails_as_not_a_map() {
    for typ in not_maps() {
        let cells: Vec<EntryCells<String>> = vec![Ok((vec![1], vec![2]))];
        assert_eq!(
            serialize_mapping("T", 1, cells, &typ),
            Err(SerializationError::TypeCheck(TypeCheckError {
                rust_name: "T",
                got: typ,
                kind: TypeCheckErrorKind::NotMap,
            }))
        );
    }
}

#[test]
fn non_map_column_fails_before_the_count_is_looked_at() {
    let cells: Vec<EntryCells<String>> = vec![Err(CellError::Key("k".to_string()))];
    assert_eq!(
        serialize_mapping("T", MAX_CELL + 1, cells, &ColumnType::Native),
        Err(SerializationError::TypeCheck(TypeCheckError {
            rust_name: "T",
            got: ColumnType::Native,
            kind: TypeCheckErrorKind::NotMap,
        }))
    );
}

#[test]
fn too_many_elements_fail() {
    let cells: Vec<EntryCells<String>> = Vec::new();
    assert_eq!(
        serialize_mapping("T", MAX_CELL + 1, cells, &MAP),
        Err(failed(SerializationErrorKind::TooManyElements))
    );
    let cells: Vec<EntryCells<String>> = Vec::new();
    assert_eq!(
        serialize_mapping("T", usize::MAX, cells, &MAP),
        Err(failed(SerializationErrorKind::TooManyElements))
    );
}

#[test]
fn too_many_elements_fail_before_any_entry_is_looked_at() {
    let cells: Vec<EntryCells<String>> = vec![Err(CellError::Value("v".to_string()))];
    assert_eq!(
        serialize_mapping("T", MAX_CELL + 1, cells, &MAP),
        Err(failed(SerializationErrorKind::TooManyElements))
    );
}

#[test]
fn failed_key_is_reported_as_the_key() {
    let cells: Vec<EntryCells<String>> = vec![
        Ok((vec![1], vec![2])),
        Err(CellError::Key("bad key".to_string())),
        Err(CellError::Value("later".to_string())),
    ];
    assert_eq!(
        serialize_mapping("T", 3, cells, &MAP),
        Err(failed(SerializationErrorKind::KeySerializationFailed("bad key".to_string())))
    );
}

#[test]
fn failed_value_is_reported_as_the_value() {
    let cells: Vec<EntryCells<String>> = vec![
        Err(CellError::Value("bad value".to_string())),
        Err(CellError::Key("later".to_string())),
    ];
    assert_eq!(
        serialize_mapping("T", 2, cells, &MAP),
        Err(failed(SerializationErrorKind::ValueSerializationFailed("bad value".to_string())))
    );
}

#[test]
fn container_is_written_with_its_own_count() {
    let mut map: SerdeMap<u8, u8> = SerdeMap::new();
    map.insert_unchecked(1, 2);
    map.insert_unchecked(1, 3);
    let cells: Vec<EntryCells<String>> = vec![
        Ok((vec![0, 0, 0, 1, 1], vec![0, 0, 0, 1, 2])),
        Ok((vec![0, 0, 0, 1, 1], vec![0, 0, 0, 1, 3])),
    ];
    assert_eq!(
        map.serialize_value("T", &MAP, cells),
        Ok(vec![0, 0, 0, 2, 0, 0, 0, 1, 1, 0, 0, 0, 1, 2, 0, 0, 0, 1, 1, 0, 0, 0, 1, 3])
    );
}

#[test]
fn container_is_refused_by_a_column_that_is_no_map() {
    let map: SerdeMap<u8, u8> = SerdeMap::new();
    let cells: Vec<EntryCells<String>> = Vec::new();
    assert_eq!(
        map.serialize_value("T", &ColumnType::UserDefinedType, cells),
        Err(SerializationError::TypeCheck(TypeCheckError {
            rust_name: "T",
            got: ColumnType::UserDefinedType,
            kind: TypeCheckErrorKind::NotMap,
        }))
    );
}

#[test]
fn header_is_the_count() {
    let r: Result<Vec<u8>, SerializationError<String>> = mapping_header("T", 3, &MAP);
    assert_eq!(r, Ok(vec![0, 0, 0, 3]));
    let r: Result<Vec<u8>, SerializationError<String>> = mapping_header("T", 65536, &MAP);
    assert_eq!(r, Ok(vec![0, 1, 0, 0]));
}

#[test]
fn header_refuses_a_column_that_is_no_map_and_then_a_count_too_large() {
    let r: Result<Vec<u8>, SerializationError<String>> =
        mapping_header("T", MAX_CELL + 1, &ColumnType::Tuple);
    assert_eq!(
        r,
        Err(SerializationError::TypeCheck(TypeCheckError {
            rust_name: "T",
            got: ColumnType::Tuple,
            kind: TypeCheckErrorKind::NotMap,
        }))
    );
    let r: Result<Vec<u8>, SerializationError<String>> = mapping_header("T", MAX_CELL + 1, &MAP);
    assert_eq!(r, Err(failed(SerializationErrorKind::TooManyElements)));
}

#[test]
fn cells_are_appended_in_their_order() {
    let cells: Vec<EntryCells<String>> = vec![Ok((vec![1], vec![2, 3])), Ok((vec![], vec![4]))];
    assert_eq!(append_cells("T", &MAP, vec![9, 9], cells), Ok(vec![9, 9, 1, 2, 3, 4]));
    let none: Vec<EntryCells<String>> = Vec::new();
    assert_eq!(append_cells("T", &MAP, vec![9], none), Ok(vec![9]));
}

#[test]
fn cells_end_at_the_first_that_was_not_written() {
    let cells: Vec<EntryCells<String>> = vec![
        Ok((vec![1], vec![2])),
        Err(CellError::Value("v".to_string())),
        Err(CellError::Key("k".to_string())),
    ];
    assert_eq!(
        append_cells("T", &MAP, vec![0, 0, 0, 3], cells),
        Err(failed(SerializationErrorKind::ValueSerializationFailed("v".to_string())))
    );
}
