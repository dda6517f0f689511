use fast_api::{CFunctionInfo, CType, CTypeInfo, CTypeSequenceInfo, SequenceType, Type};

fn scalar(c_type: CType) -> CTypeSequenceInfo {
    CTypeSequenceInfo { c_type, sequence_type: SequenceType::Scalar }
}

#[test]
fn single_descriptor_is_one_scalar_pair() {
    let info = CTypeInfo::new(CType::Float64);
    assert_eq!(info.len(), 1);
    assert_eq!(info.as_slice(), &[scalar(CType::Float64)]);
    assert_eq!(info.to_bytes(), vec![8u8, 0]);
}

#[test]
fn single_descriptor_of_callback_options() {
    let info = CTypeInfo::new(CType::CallbackOptions);
    assert_eq!(info.to_bytes(), vec![255u8, 0]);
}

#[test]
fn list_descriptor_pairs_each_type_in_order() {
    let info = CTypeInfo::new_from_slice(&[Type::Int32, Type::TypedArray(CType::Uint8)]);
    assert_eq!(info.len(), 2);
    assert_eq!(
        info.as_slice(),
        &[
            scalar(CType::Int32),
            CTypeSequenceInfo { c_type: CType::Uint8, sequence_type: SequenceType::IsTypedArray },
        ]
    );
}

#[test]
fn list_descriptor_of_nothing_is_empty() {
    let info = CTypeInfo::new_from_slice(&[]);
    assert_eq!(info.len(), 0);
    assert!(info.as_slice().is_empty());
    assert!(info.to_bytes().is_empty());
}

#[test]
fn list_descriptor_of_one_scalar_equals_single_descriptor() {
    assert_eq!(CTypeInfo::new_from_slice(&[Type::Uint64]), CTypeInfo::new(CType::Uint64));
}

#[test]
fn list_descriptor_is_repeatable() {
    let types = [Type::Bool, Type::Sequence(CType::Int64), Type::CallbackOptions];
    assert_eq!(CTypeInfo::new_from_slice(&types), CTypeInfo::new_from_slice(&types));
}

#[test]
fn layout_is_two_bytes_an_entry() {
    let info = CTypeInfo::new_from_slice(&[
        Type::Int32,
        Type::TypedArray(CType::Uint8),
        Type::Sequence(CType::Float32),
        Type::ArrayBuffer(CType::Void),
        Type::CallbackOptions,
    ]);
    assert_eq!(info.to_bytes(), vec![3u8, 0, 2, 2, 7, 1, 0, 3, 255, 0]);
    assert_eq!(info.to_bytes().len(), 2 * info.len());
}

#[test]
fn signature_keeps_return_pair_order_and_arity() {
    let args = CTypeInfo::new_from_slice(&[Type::Int32, Type::TypedArray(CType::Uint8)]);
    let return_type = CTypeInfo::new(CType::Float64);
    let info = CFunctionInfo::new(&args, &return_type);
    assert_eq!(info.arg_count(), 2);
    assert_eq!(info.return_info(), scalar(CType::Float64));
    assert_eq!(info.arg_info(), args.as_slice());
    assert_eq!(info.arg_info()[0], scalar(CType::Int32));
    assert_eq!(
        info.arg_info()[1],
        CTypeSequenceInfo { c_type: CType::Uint8, sequence_type: SequenceType::IsTypedArray }
    );
}

#[test]
fn nullary_void_signature_is_built() {
    let info = CFunctionInfo::new(&CTypeInfo::new_from_slice(&[]), &CTypeInfo::new(CType::Void));
    assert_eq!(info.arg_count(), 0);
    assert!(info.arg_info().is_empty());
    assert_eq!(info.return_info(), scalar(CType::Void));
}

#[test]
fn nullary_void_signature_differs_from_one_with_a_parameter() {
    let void = CTypeInfo::new(CType::Void);
    let nullary = CFunctionInfo::new(&CTypeInfo::new_from_slice(&[]), &void);
    let unary = CFunctionInfo::new(&CTypeInfo::new_from_slice(&[Type::Void]), &void);
    let binary = CFunctionInfo::new(&CTypeInfo::new_from_slice(&[Type::Int32, Type::Bool]), &void);
    assert_ne!(nullary, unary);
    assert_ne!(nullary, binary);
    assert_ne!(nullary.arg_count(), unary.arg_count());
}

#[test]
fn signatures_differ_by_return_kind() {
    let args = CTypeInfo::new_from_slice(&[Type::Int32]);
    let a = CFunctionInfo::new(&args, &CTypeInfo::new(CType::Void));
    let b = CFunctionInfo::new(&args, &CTypeInfo::new(CType::Bool));
    assert_ne!(a, b);
    assert_eq!(a, CFunctionInfo::new(&args, &CTypeInfo::new(CType::Void)));
}
