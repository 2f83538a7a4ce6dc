use toakuai::error::DictError;
use toakuai::ident::{parse_opt, text_of_opt, Ident};

const BYTES: [u8; 16] = [
    0x67, 0xe5, 0x50, 0x44, 0x10, 0xb1, 0x42, 0x6f, 0x92, 0x47, 0xbb, 0x68, 0x0e, 0x5f, 0xe0, 0xc8,
];
const TEXT: &str = "67e55044-10b1-426f-9247-bb680e5fe0c8";

#[test]
fn to_text_is_lowercase_hyphenated() {
    assert_eq!(Ident::from_bytes(BYTES).to_text(), TEXT);
    assert_eq!(Ident::nil().to_text().chars().count(), 36);
}

#[test]
fn nil_text_is_all_zeros() {
    let nil = Ident::nil();
    assert!(nil.is_nil());
    assert_eq!(nil.to_text(), "00000000-0000-0000-0000-000000000000");
    assert!(!Ident::from_bytes(BYTES).is_nil());
}

#[test]
fn parse_reads_back_canonical_text() {
    let id = Ident::from_bytes(BYTES);
    assert_eq!(Ident::parse(&id.to_text()), Ok(id));
    let mut other = BYTES;
    other[15] = 0xff;
    let id = Ident::from_bytes(other);
    assert_eq!(Ident::parse(&id.to_text()), Ok(id));
}

#[test]
fn parse_accepts_other_forms() {
    let id = Ident::from_bytes(BYTES);
    assert_eq!(Ident::parse("67E55044-10B1-426F-9247-BB680E5FE0C8"), Ok(id));
    assert_eq!(Ident::parse("67e5504410b1426f9247bb680e5fe0c8"), Ok(id));
    assert_eq!(Ident::parse("{67e55044-10b1-426f-9247-bb680e5fe0c8}"), Ok(id));
    assert_eq!(Ident::parse("urn:uuid:67e55044-10b1-426f-9247-bb680e5fe0c8"), Ok(id));
}

#[test]
fn parse_rejects_wrong_length() {
    assert_eq!(Ident::parse(""), Err(DictError::MalformedIdentifier));
    assert_eq!(Ident::parse("67e55044-10b1-426f-9247-bb680e5fe0c"), Err(DictError::MalformedIdentifier));
    assert_eq!(Ident::parse("67e55044-10b1-426f-9247-bb680e5fe0c8a"), Err(DictError::MalformedIdentifier));
}

#[test]
fn parse_rejects_non_hex() {
    assert_eq!(Ident::parse("67e55044-10b1-426f-9247-bb680e5fe0cg"), Err(DictError::MalformedIdentifier));
    assert_eq!(Ident::parse("67e55044x10b1-426f-9247-bb680e5fe0c8"), Err(DictError::MalformedIdentifier));
    assert_eq!(Ident::parse("67e55044-10b1-426f-9247-bb680e5fé0c8"), Err(DictError::MalformedIdentifier));
}

#[test]
fn optional_ids_keep_absence() {
    assert_eq!(text_of_opt(None), None);
    assert_eq!(parse_opt(None), Ok(None));
    let id = Ident::from_bytes(BYTES);
    assert_eq!(text_of_opt(Some(id)), Some(TEXT.to_string()));
    assert_eq!(parse_opt(Some(TEXT.to_string())), Ok(Some(id)));
    assert_eq!(parse_opt(Some("nope".to_string())), Err(DictError::MalformedIdentifier));
}
