use level6::disk_image::fm::{FMByte, FMBytes};

#[test]
fn test_fm_enc() {
    let mut data = FMBytes::new();

    let byte = FMByte {
        data: 0b11111100,
        clock: 0b11010111,
    };

    data.add_fm_byte(&byte);

    assert_eq!(data.encode(), [0b11110111, 0b01111010]);
}
