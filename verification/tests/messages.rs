use web3_wallet::message::{decimal, message_preimage, MESSAGE_MARK};

#[test]
fn numbers_in_decimal() {
    assert_eq!(decimal(0), b"0".to_vec());
    assert_eq!(decimal(7), b"7".to_vec());
    assert_eq!(decimal(9), b"9".to_vec());
    assert_eq!(decimal(10), b"10".to_vec());
    assert_eq!(decimal(11), b"11".to_vec());
    assert_eq!(decimal(99), b"99".to_vec());
    assert_eq!(decimal(100), b"100".to_vec());
    assert_eq!(decimal(1234567890), b"1234567890".to_vec());
    assert_eq!(decimal(usize::MAX), usize::MAX.to_string().into_bytes());
}

#[test]
fn the_preimage_of_a_known_message() {
    assert_eq!(message_preimage(b"hello"), b"\x19Ethereum Signed Message:\n5hello".to_vec());
    assert_eq!(message_preimage(b""), b"\x19Ethereum Signed Message:\n0".to_vec());
    assert_eq!(
        message_preimage(b"0123456789"),
        b"\x19Ethereum Signed Message:\n100123456789".to_vec()
    );
}

#[test]
fn every_preimage_begins_with_the_mark() {
    assert_eq!(MESSAGE_MARK, 0x19);
    for length in [0usize, 1, 9, 10, 99, 100, 1000] {
        let message = vec![0xc0u8; length];
        let preimage = message_preimage(&message);
        assert_eq!(preimage[0], 0x19);
        assert_eq!(&preimage[preimage.len() - length..], message.as_slice());
    }
}

#[test]
fn the_digest_of_a_message_is_the_digest_of_its_preimage() {
    for length in [0usize, 1, 9, 10, 11, 99, 100, 101, 999, 1000, 4096] {
        let message: Vec<u8> = (0..length).map(|i| (i % 251) as u8).collect();
        let expected = ethers::utils::hash_message(&message);
        let ours = ethers::utils::keccak256(message_preimage(&message));
        assert_eq!(expected.0, ours);
    }
}
