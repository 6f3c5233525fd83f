use shogun::matrix::{ArrayHeader, Matrix, ShapeError};
use shogun::registry::{PrimitiveKind, TypeCodes, TypeTag};
use shogun::value::{object_code, scalar_code, Element, F32Bits, F64Bits};

fn sample_codes() -> TypeCodes {
    TypeCodes { int32: 7, int64: 8, float32: 9, float64: 10, object: 11 }
}

#[test]
fn each_scalar_type_has_its_kind() {
    assert_eq!(<i32 as Element>::kind(), PrimitiveKind::Int32);
    assert_eq!(<i64 as Element>::kind(), PrimitiveKind::Int64);
    assert_eq!(<F32Bits as Element>::kind(), PrimitiveKind::Float32);
    assert_eq!(<F64Bits as Element>::kind(), PrimitiveKind::Float64);
}

#[test]
fn scalars_are_put_with_their_own_codes() {
    let codes = sample_codes();
    assert_eq!(scalar_code::<i32>(&codes), 7);
    assert_eq!(scalar_code::<i64>(&codes), 8);
    assert_eq!(scalar_code::<F32Bits>(&codes), 9);
    assert_eq!(scalar_code::<F64Bits>(&codes), 10);
    assert_eq!(object_code(&codes), 11);
}

#[test]
fn put_value_reads_back_as_its_kind() {
    let codes = sample_codes();
    assert_eq!(codes.tag(scalar_code::<i32>(&codes)), Some(TypeTag::Primitive(PrimitiveKind::Int32)));
    assert_eq!(codes.tag(scalar_code::<i64>(&codes)), Some(TypeTag::Primitive(PrimitiveKind::Int64)));
    assert_eq!(
        codes.tag(scalar_code::<F32Bits>(&codes)),
        Some(TypeTag::Primitive(PrimitiveKind::Float32))
    );
    assert_eq!(
        codes.tag(scalar_code::<F64Bits>(&codes)),
        Some(TypeTag::Primitive(PrimitiveKind::Float64))
    );
}

#[test]
fn float_and_int_puts_carry_different_tags() {
    let codes = sample_codes();
    let width = F64Bits(1.0_f64.to_bits());
    assert_eq!(f64::from_bits(width.0), 1.0_f64);
    assert_eq!(codes.tag(scalar_code::<F64Bits>(&codes)), Some(TypeTag::Primitive(PrimitiveKind::Float64)));
    assert_ne!(scalar_code::<i32>(&codes), scalar_code::<F64Bits>(&codes));
}

#[test]
fn row_major_cells_are_stored_column_major() {
    let m = Matrix::from_row_major(2, 3, &vec![1_i32, 2, 3, 4, 5, 6]).unwrap();
    assert_eq!(m.rows(), 2);
    assert_eq!(m.cols(), 3);
    assert_eq!(m.cells(), &vec![1, 4, 2, 5, 3, 6]);
}

#[test]
fn square_matrix_is_transposed_in_storage() {
    let m = Matrix::from_row_major(2, 2, &vec![1_i64, 2, 3, 4]).unwrap();
    assert_eq!(m.cells(), &vec![1, 3, 2, 4]);
}

#[test]
fn single_row_and_single_column_keep_order() {
    let row = Matrix::from_row_major(1, 3, &vec![1_i32, 2, 3]).unwrap();
    assert_eq!(row.cells(), &vec![1, 2, 3]);
    let col = Matrix::from_row_major(3, 1, &vec![1_i32, 2, 3]).unwrap();
    assert_eq!(col.cells(), &vec![1, 2, 3]);
}

#[test]
fn empty_matrix_is_accepted() {
    let m = Matrix::<i32>::from_row_major(0, 5, &vec![]).unwrap();
    assert_eq!(m.rows(), 0);
    assert_eq!(m.cols(), 5);
    assert!(m.cells().is_empty());
}

#[test]
fn wrong_cell_count_is_refused() {
    assert_eq!(Matrix::from_row_major(2, 3, &vec![1_i32, 2, 3, 4, 5]).err(), Some(ShapeError::CellCount));
    assert_eq!(Matrix::from_row_major(2, 2, &vec![1_i32, 2, 3, 4, 5]).err(), Some(ShapeError::CellCount));
    assert_eq!(Matrix::<i32>::from_row_major(usize::MAX, 2, &vec![]).err(), Some(ShapeError::DimensionTooLarge));
}

#[test]
fn dimensions_beyond_u32_are_refused() {
    let too_many = u32::MAX as usize + 1;
    assert_eq!(Matrix::<i32>::from_row_major(too_many, 0, &vec![]).err(), Some(ShapeError::DimensionTooLarge));
    assert_eq!(Matrix::<i32>::from_row_major(0, too_many, &vec![]).err(), Some(ShapeError::DimensionTooLarge));
    let largest = Matrix::<i32>::from_row_major(u32::MAX as usize, 0, &vec![]).unwrap();
    assert_eq!(largest.rows(), u32::MAX as usize);
}

#[test]
fn header_carries_element_code_and_shape() {
    let codes = sample_codes();
    let m = Matrix::from_row_major(2, 3, &vec![1_i32, 2, 3, 4, 5, 6]).unwrap();
    assert_eq!(m.header(&codes), ArrayHeader { type_code: 7, rows: 2, cols: 3 });
}

#[test]
fn two_float_matrices_of_two_by_three() {
    let codes = sample_codes();
    let bits = |v: &[f64]| v.iter().map(|x| F64Bits(x.to_bits())).collect::<Vec<_>>();
    let first = Matrix::from_row_major(2, 3, &bits(&[1.0, 2.0, 3.0, 4.0, 5.0, 6.0])).unwrap();
    let second = Matrix::from_row_major(2, 3, &bits(&[6.0, 5.0, 4.0, 3.0, 2.0, 1.0])).unwrap();
    for m in [&first, &second] {
        assert_eq!(m.header(&codes), ArrayHeader { type_code: 10, rows: 2, cols: 3 });
    }
    let stored: Vec<f64> = first.cells().iter().map(|b| f64::from_bits(b.0)).collect();
    assert_eq!(stored, vec![1.0, 4.0, 2.0, 5.0, 3.0, 6.0]);
}
