use web3_wallet::errors::ProviderFault;
use web3_wallet::provider::{classify_refusal, contains};

#[test]
fn a_word_is_found_wherever_it_stands() {
    assert!(contains(b"nonce too low", b"nonce"));
    assert!(contains(b"the nonce", b"nonce"));
    assert!(contains(b"a nonce b", b"nonce"));
    assert!(contains(b"nonce", b"nonce"));
    assert!(contains(b"nononce", b"nonce"));
    assert!(contains(b"aaab", b"aab"));
}

#[test]
fn a_word_that_is_not_there_is_not_found() {
    assert!(!contains(b"nonc", b"nonce"));
    assert!(!contains(b"", b"nonce"));
    assert!(!contains(b"nonc e", b"nonce"));
    assert!(!contains(b"Nonce", b"nonce"));
    assert!(!contains(b"aabaab", b"aaa"));
}

#[test]
fn the_empty_word_is_everywhere() {
    assert!(contains(b"", b""));
    assert!(contains(b"abc", b""));
}

#[test]
fn an_account_that_cannot_pay() {
    assert_eq!(
        classify_refusal("insufficient funds for gas * price + value"),
        ProviderFault::InsufficientBalance
    );
    assert_eq!(
        classify_refusal("err: insufficient funds for transfer (supplied gas 21000)"),
        ProviderFault::InsufficientBalance
    );
}

#[test]
fn a_sequence_number_that_does_not_fit() {
    assert_eq!(classify_refusal("nonce too low"), ProviderFault::NonceConflict);
    assert_eq!(classify_refusal("nonce too high"), ProviderFault::NonceConflict);
    assert_eq!(classify_refusal("invalid nonce; got 3, expected 5"), ProviderFault::NonceConflict);
}

#[test]
fn funds_are_looked_for_before_the_nonce() {
    assert_eq!(
        classify_refusal("nonce ok, insufficient funds"),
        ProviderFault::InsufficientBalance
    );
}

#[test]
fn any_other_refusal() {
    assert_eq!(classify_refusal(""), ProviderFault::Rejected);
    assert_eq!(classify_refusal("intrinsic gas too low"), ProviderFault::Rejected);
    assert_eq!(classify_refusal("insufficient  funds"), ProviderFault::Rejected);
    assert_eq!(classify_refusal("Insufficient Funds"), ProviderFault::Rejected);
    assert_eq!(classify_refusal("already known"), ProviderFault::Rejected);
}
