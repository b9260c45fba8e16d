use arsenal::dll_handler::{
    data_length, library_file_name, plan_call, sign_extend, Argument, CType, CallError, Platform,
};
use arsenal::instructions::Width;

#[test]
fn library_file_names() {
    assert_eq!(library_file_name("m", Platform::Windows), "m.dll");
    assert_eq!(library_file_name("m", Platform::Unix), "libm.so");
    assert_eq!(library_file_name("m", Platform::MacOs), "libm.dylib");
    assert_eq!(library_file_name("", Platform::Unix), "lib.so");
}

#[test]
fn type_tags() {
    assert_eq!(CType::from_tag(0), Some(CType::Void));
    assert_eq!(CType::from_tag(1), Some(CType::Int8));
    assert_eq!(CType::from_tag(2), Some(CType::Int16));
    assert_eq!(CType::from_tag(3), Some(CType::Int32));
    assert_eq!(CType::from_tag(4), Some(CType::Int64));
    assert_eq!(CType::from_tag(5), Some(CType::IntWord));
    assert_eq!(CType::from_tag(6), None);
    assert_eq!(CType::Void.width(Width::Long), None);
    assert_eq!(CType::Int16.width(Width::Long), Some(Width::Short));
    assert_eq!(CType::IntWord.width(Width::Long), Some(Width::Long));
    assert_eq!(CType::IntWord.width(Width::Int), Some(Width::Int));
}

#[test]
fn sign_extension() {
    assert_eq!(sign_extend(0x7f, Width::Byte), 0x7f);
    assert_eq!(sign_extend(0x80, Width::Byte), 0xffff_ffff_ffff_ff80);
    assert_eq!(sign_extend(0xffff, Width::Short), u64::MAX);
    assert_eq!(sign_extend(0x8000_0000, Width::Int), 0xffff_ffff_8000_0000);
    assert_eq!(sign_extend(0x7fff_ffff, Width::Int), 0x7fff_ffff);
    assert_eq!(sign_extend(u64::MAX, Width::Long), u64::MAX);
}

#[test]
fn call_without_tags() {
    let plan = plan_call(&vec![], &vec![1, 2, 3], Width::Long).unwrap();
    assert_eq!(plan.result, CType::Void);
    assert!(plan.arguments.is_empty());
}

#[test]
fn call_with_packed_arguments() {
    let types = vec![3u8, 1, 0, 2, 4, 5];
    let mut data = vec![0xfeu8, 0x34, 0x12];
    data.extend_from_slice(&[1, 0, 0, 0, 0, 0, 0, 0x80]);
    data.extend_from_slice(&[0xff, 0xff, 0xff, 0xff, 9]);
    let plan = plan_call(&types, &data, Width::Int).unwrap();
    assert_eq!(plan.result, CType::Int32);
    assert_eq!(
        plan.arguments,
        vec![
            Argument { kind: CType::Int8, bits: 0xffff_ffff_ffff_fffe },
            Argument { kind: CType::Int16, bits: 0x1234 },
            Argument { kind: CType::Int64, bits: 0x8000_0000_0000_0001 },
            Argument { kind: CType::IntWord, bits: u64::MAX },
        ]
    );
    let plan = plan_call(&vec![0u8, 5], &vec![1, 2, 3, 4, 5, 6, 7, 8], Width::Long).unwrap();
    assert_eq!(plan.result, CType::Void);
    assert_eq!(plan.arguments, vec![Argument { kind: CType::IntWord, bits: 0x0807_0605_0403_0201 }]);
}

#[test]
fn call_errors() {
    assert_eq!(plan_call(&vec![6], &vec![], Width::Long).err(), Some(CallError::InvalidType));
    assert_eq!(plan_call(&vec![0, 9], &vec![1], Width::Long).err(), Some(CallError::InvalidType));
    assert_eq!(plan_call(&vec![0, 2], &vec![1], Width::Long).err(), Some(CallError::MissingData));
    assert_eq!(
        plan_call(&vec![0, 1, 5], &vec![1, 2, 3, 4, 5], Width::Long).err(),
        Some(CallError::MissingData)
    );
    assert_eq!(
        plan_call(&vec![0, 2, 7], &vec![1], Width::Long).err(),
        Some(CallError::MissingData)
    );
    assert_eq!(
        plan_call(&vec![0, 7, 2], &vec![1], Width::Long).err(),
        Some(CallError::InvalidType)
    );
    assert!(plan_call(&vec![0, 1, 5], &vec![1, 2, 3, 4, 5], Width::Int).is_ok());
}

#[test]
fn data_bytes_that_the_tags_ask_for() {
    assert_eq!(data_length(&vec![], Width::Long), Some(0));
    assert_eq!(data_length(&vec![4], Width::Long), Some(0));
    assert_eq!(data_length(&vec![4, 1, 2, 3, 4, 5, 0], Width::Long), Some(23));
    assert_eq!(data_length(&vec![4, 1, 2, 3, 4, 5, 0], Width::Int), Some(19));
    assert_eq!(data_length(&vec![0, 9, 1], Width::Int), Some(1));
    let types = vec![3u8, 1, 0, 2, 4, 5];
    let size = data_length(&types, Width::Long).unwrap();
    assert!(plan_call(&types, &vec![0; size], Width::Long).is_ok());
    assert!(plan_call(&types, &vec![0; size - 1], Width::Long).is_err());
}
