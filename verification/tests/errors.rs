use kuro::error::{validate_id, KuroError};

#[test]
fn validate_id_rejects_blank_ids() {
    let expected = Err(KuroError::InvalidArgs("container_id cannot be empty".to_string()));
    assert_eq!(validate_id(""), expected);
    assert_eq!(validate_id("   \t"), expected);
}

#[test]
fn validate_id_accepts_other_ids() {
    assert_eq!(validate_id("alp-test"), Ok(()));
    assert_eq!(validate_id(" x "), Ok(()));
}
