use n64_core::binary_helpers::{
    add_u16_to_u32_as_i16_overflow, add_u16_to_u32_as_i16_trap, u32_to_u8_vector_by_loc, u8_slice_to_u16,
    u8_slice_to_u32, u8_vector_to_u32_vector,
};

#[test]
fn u8_slice_to_u32_pass_test() {
    let test_vec: Vec<u8> = vec![0x01, 0x23, 0x45, 0x67];
    let result: u32 = u8_slice_to_u32(test_vec);
    assert_eq!(result, 0x01234567)
}

#[test]
fn u8_slice_to_u16_pass_test() {
    let test_vec: Vec<u8> = vec![0x01, 0x23];
    let result: u16 = u8_slice_to_u16(test_vec);
    assert_eq!(result, 0x0123);
}

#[test]
fn u8_vector_to_u32_vector_pass_test() {
    let mut u8_test_vec: Vec<u8> = vec![0; 0x400];
    let mut u32_test_vec: Vec<u32> = vec![0; 0x100];
    for value in 0..0x100 {
        u8_test_vec[(value * 4) + 3] = value as u8;
        u32_test_vec[value] = value as u32;
    }
    let converted_vector: Vec<u32> = u8_vector_to_u32_vector(u8_test_vec);
    assert_eq!(converted_vector, u32_test_vec);
}

#[test]
fn u32_to_u8_vector_by_loc_test() {
    let u32_test_val = 0x12345678_u32;
    let mut u8_test_vec: Vec<u8> = vec![0; 0x08];
    u32_to_u8_vector_by_loc(u32_test_val, 0x04, &mut u8_test_vec);
    assert_eq!(u8_test_vec[0x04], 0x12);
    assert_eq!(u8_test_vec[0x05], 0x34);
    assert_eq!(u8_test_vec[0x06], 0x56);
    assert_eq!(u8_test_vec[0x07], 0x78);
}

#[test]
fn add_add_u16_to_u32_as_i16_overflow_test() {
    //Regular
    assert_eq!(add_u16_to_u32_as_i16_overflow(0x00000001_u32, 0x0001_u16), 0x00000002_u32);
    //Negative
    assert_eq!(add_u16_to_u32_as_i16_overflow(0x00000001_u32, 0xFFFF_u16), 0x00000000_u32);
    //Overflow
    assert_eq!(add_u16_to_u32_as_i16_overflow(0xFFFFFFFF_u32, 0x0001_u16), 0x00000000_u32);
    //Negative Overflow
    assert_eq!(add_u16_to_u32_as_i16_overflow(0x00000000_u32, 0xFFFF_u16), 0xFFFFFFFF_u32);
}

#[test]
fn add_add_u16_to_u32_as_i16_trap_test() {
    //Regular
    assert_eq!(add_u16_to_u32_as_i16_trap(0x00000001_u32, 0x0001_u16).unwrap(), 0x00000002_u32);
    //Negative
    assert_eq!(add_u16_to_u32_as_i16_trap(0x00000001_u32, 0xFFFF_u16).unwrap(), 0x00000000_u32);
    //Overflow
    assert!(add_u16_to_u32_as_i16_trap(0xFFFFFFFF_u32, 0x0001_u16).is_err());
    //Negative Overflow
    assert!(add_u16_to_u32_as_i16_trap(0x00000000_u32, 0xFFFF_u16).is_err());
}
