use momcap::encode::words_to_le_bytes;

#[test]
fn empty_buffer_encodes_to_no_bytes() {
    assert_eq!(words_to_le_bytes(&vec![]), Vec::<u8>::new());
}

#[test]
fn each_word_contributes_four_bytes_least_significant_first() {
    let bytes = words_to_le_bytes(&vec![0x0403_0201]);
    assert_eq!(bytes, vec![0x01, 0x02, 0x03, 0x04]);
}

#[test]
fn words_encode_in_buffer_order() {
    let bytes = words_to_le_bytes(&vec![0x0403_0201, 0x1122_3344, 0]);
    assert_eq!(
        bytes,
        vec![0x01, 0x02, 0x03, 0x04, 0x44, 0x33, 0x22, 0x11, 0, 0, 0, 0]
    );
    assert_eq!(bytes.len(), 3 * 4);
}
