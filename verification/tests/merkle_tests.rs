use sha2::Digest;
use suitdrop::hashing::HexError;
use suitdrop::merkle::{bytes_equal, combine, less_or_equal, verify_proof, VerifyError};

// sha256("x"), as a hex text.
const SHA_X: &str = "2d711642b726b04401627ca9fbac32f5c8530fb1903cc4db02258717921a4881";
// sha256("y"), as a hex text.
const SHA_Y: &str = "a1fce4363854ff888cff4b8e7875d600c2682390412a8cf79b37d0b11148b0fa";
// sha256 of the sorted concatenation of bob's leaf and sha256("x").
const BOB_PARENT: &str = "c669cc7f4d692b7a8a85efc2e2fbaf29ad947c02f7a04a60bfd2b2bbd4d0ee1c";
// sha256 of the sorted concatenation of the parent above and sha256("y").
const BOB_ROOT_2: &str = "312e288f1aaf83a3c51cbf774f8bab8a57b7afda4b4a578063ec86431b525d8b";

fn digest(data: &[u8]) -> Vec<u8> {
    sha2::Sha256::digest(data).to_vec()
}

#[test]
fn leaf_equal_to_root_verifies_with_an_empty_path() {
    // The account "x" whose leaf, sha256("x"), is the root itself.
    assert_eq!(verify_proof("x", &vec![], SHA_X), Ok(()));
    // Upper-case hex digits decode like lower-case ones.
    assert_eq!(verify_proof("x", &vec![], &SHA_X.to_uppercase()), Ok(()));
    // Any other account's leaf differs from that root.
    assert_eq!(
        verify_proof("y", &vec![], SHA_X),
        Err(VerifyError::VerificationFailed)
    );
}

#[test]
fn combine_is_symmetric() {
    let a = digest(b"bob");
    let b = digest(b"x");
    assert_ne!(a, b);
    let ab = combine(&a, &b);
    let ba = combine(&b, &a);
    assert_eq!(ab, ba);
    let expected = hex::decode(BOB_PARENT).expect("well-formed hex");
    assert_eq!(ab, expected);
}

#[test]
fn two_level_proof_verifies() {
    let r = verify_proof(
        "bob",
        &vec![SHA_X.to_string(), SHA_Y.to_string()],
        BOB_ROOT_2,
    );
    assert_eq!(r, Ok(()));
}

#[test]
fn mutated_root_fails_verification() {
    // BOB_ROOT_2 with its first digit changed.
    let mutated = format!("4{}", &BOB_ROOT_2[1..]);
    let r = verify_proof("bob", &vec![SHA_X.to_string(), SHA_Y.to_string()], &mutated);
    assert_eq!(r, Err(VerifyError::VerificationFailed));
}

#[test]
fn mutated_proof_element_fails_verification() {
    // A valid but wrong sibling in place of sha256("x").
    let r = verify_proof(
        "bob",
        &vec![SHA_Y.to_string(), SHA_Y.to_string()],
        BOB_ROOT_2,
    );
    assert_eq!(r, Err(VerifyError::VerificationFailed));
}

#[test]
fn malformations_are_reported_in_scan_order() {
    // The first malformed proof element wins.
    let r = verify_proof(
        "bob",
        &vec!["zz".to_string(), SHA_Y.to_string()],
        BOB_ROOT_2,
    );
    assert_eq!(r, Err(VerifyError::Hex(HexError::InvalidStringLength)));
    // An odd digit count is told apart from a wrong length.
    let r = verify_proof("bob", &vec!["abc".to_string()], BOB_ROOT_2);
    assert_eq!(r, Err(VerifyError::Hex(HexError::OddLength)));
    // A digit outside the hex alphabet names itself and its index.
    let mut bad = "0".repeat(10);
    bad.push('q');
    bad.push_str(&"0".repeat(53));
    let r = verify_proof("bob", &vec![bad], BOB_ROOT_2);
    assert_eq!(
        r,
        Err(VerifyError::Hex(HexError::InvalidHexCharacter {
            c: 'q',
            index: 10
        }))
    );
    // A malformed root is only reported once every element decodes.
    let r = verify_proof("bob", &vec![SHA_X.to_string()], "zz");
    assert_eq!(r, Err(VerifyError::Hex(HexError::InvalidStringLength)));
}

#[test]
fn byte_order_helpers_agree_with_raw_ordering() {
    let a = vec![1u8, 2, 3];
    let b = vec![1u8, 2, 4];
    assert!(less_or_equal(&a, &b));
    assert!(!less_or_equal(&b, &a));
    assert!(less_or_equal(&a, &a));
    assert!(bytes_equal(&a, &a));
    assert!(!bytes_equal(&a, &b));
}
