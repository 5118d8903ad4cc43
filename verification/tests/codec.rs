use arctic::response::bytes_to_data;

// Three-byte inputs sign-extend through the top bit of the last byte.
#[test]
fn convert_i24_to_i32() {
    let data = [0xff, 0xff, 0xff];

    assert_eq!(-1, bytes_to_data(&data[..], 3));

    let data = [0x00, 0x00, 0x10];

    assert_eq!(1_048_576, bytes_to_data(&data[..], 3));
}

#[test]
fn convert_i16_to_i32() {
    let data = [0xff, 0xff];

    assert_eq!(-1, bytes_to_data(&data[..], 2));

    let data = [0x00, 0x10];

    assert_eq!(4096, bytes_to_data(&data[..], 2));
}

#[test]
fn convert_i8_to_i32() {
    let data = [0xff];

    assert_eq!(-1, bytes_to_data(&data[..], 1));

    let data = [0x10];

    assert_eq!(16, bytes_to_data(&data[..], 1));
}

// Any three-byte input whose last byte has the top bit set comes out
// negative; one with the top bit clear comes out non-negative.
#[test]
fn convert_sign_follows_top_bit() {
    assert_eq!(-8_388_608, bytes_to_data(&[0x00, 0x00, 0x80], 3));
    assert_eq!(8_388_607, bytes_to_data(&[0xff, 0xff, 0x7f], 3));
    assert_eq!(-32_768, bytes_to_data(&[0x00, 0x80], 2));
    assert_eq!(-128, bytes_to_data(&[0x80], 1));
    assert_eq!(127, bytes_to_data(&[0x7f], 1));
    assert!(bytes_to_data(&[0x01, 0x02, 0x90], 3) < 0);
    assert!(bytes_to_data(&[0x01, 0x02, 0x10], 3) >= 0);
}
