use render_prototype::layout::{compile, FieldSpec};
use render_prototype::pack::{FieldValue, IntoStd140, Uniform, UniformBlock};
use render_prototype::types::{BaseType, TypeTable, ValueType};

fn bytes<T: IntoStd140>(v: T) -> Vec<u8> {
    v.into_std140()
}

#[test]
fn scalars_are_widened_to_little_endian_words() {
    assert_eq!(bytes(0x0102_0304u32), vec![4, 3, 2, 1]);
    assert_eq!(bytes(255u8), vec![255, 0, 0, 0]);
    assert_eq!(bytes(0xabcdu16), vec![0xcd, 0xab, 0, 0]);
    assert_eq!(bytes(-1i16), vec![255, 255, 255, 255]);
    assert_eq!(bytes(-2i8), vec![254, 255, 255, 255]);
    assert_eq!(bytes(-256i32), vec![0, 255, 255, 255]);
    assert_eq!(bytes(true), vec![1, 0, 0, 0]);
    assert_eq!(bytes(false), vec![0, 0, 0, 0]);
}

#[test]
fn scalars_name_their_stored_type() {
    assert_eq!(<u8 as IntoStd140>::std140_type(), BaseType::U8);
    assert_eq!(<u16 as IntoStd140>::std140_type(), BaseType::U16);
    assert_eq!(<u32 as IntoStd140>::std140_type(), BaseType::U32);
    assert_eq!(<i8 as IntoStd140>::std140_type(), BaseType::I8);
    assert_eq!(<i16 as IntoStd140>::std140_type(), BaseType::I16);
    assert_eq!(<i32 as IntoStd140>::std140_type(), BaseType::I32);
    assert_eq!(<bool as IntoStd140>::std140_type(), BaseType::Bool);
}

#[test]
fn uniform_block_copies_its_padded_bytes() {
    let table = TypeTable::std140();
    let fields = vec![
        FieldSpec {
            name: "flag".to_string(),
            descriptor: table.describe(&ValueType::Base(BaseType::Bool)).unwrap(),
        },
        FieldSpec {
            name: "ints".to_string(),
            descriptor: table
                .describe(&ValueType::Array(Box::new(ValueType::Base(BaseType::I32)), 2))
                .unwrap(),
        },
    ];
    let plan = compile(&fields).unwrap();
    let values = vec![
        FieldValue::Bytes(true.into_std140()),
        FieldValue::Elements(vec![(-1i32).into_std140(), 5i32.into_std140()]),
    ];
    let block = UniformBlock::new(plan, values).unwrap();
    assert_eq!(block.padded_size(), 48);
    let mut s = vec![0xaau8; 50];
    block.copy_padded_to_slice(&mut s);
    let mut expected = vec![0u8; 48];
    expected[0] = 1;
    expected[16..20].copy_from_slice(&[255, 255, 255, 255]);
    expected[32] = 5;
    expected.extend_from_slice(&[0xaa, 0xaa]);
    assert_eq!(s, expected);
}

#[test]
fn uniform_block_refuses_values_of_the_wrong_shape() {
    let table = TypeTable::std140();
    let fields = vec![FieldSpec {
        name: "v".to_string(),
        descriptor: table.describe(&ValueType::Base(BaseType::Vec4)).unwrap(),
    }];
    let plan = compile(&fields).unwrap();
    assert!(UniformBlock::new(plan, vec![FieldValue::Bytes(vec![0; 12])]).is_none());
}
