use andromeda::model::FileData;
use andromeda::staging::{decode_file_content, staging_dir_name};

fn file_with_content(content: &str) -> FileData {
    FileData {
        id: "f1".to_string(),
        name: "a.txt".to_string(),
        original_name: "orig.txt".to_string(),
        size: 5,
        file_type: "text/plain".to_string(),
        content: content.to_string(),
    }
}

#[test]
fn decodes_standard_base64() {
    let f = file_with_content("aGVsbG8=");
    let bytes = decode_file_content(&f).expect("well-formed base64 should decode");
    assert_eq!(bytes, b"hello".to_vec());
}

#[test]
fn rejects_malformed_base64() {
    let f = file_with_content("!!!not base64!!!");
    assert!(decode_file_content(&f).is_none());
}

#[test]
fn empty_content_decodes_to_no_bytes() {
    let f = file_with_content("");
    let bytes = decode_file_content(&f).expect("the empty string is well-formed base64");
    assert!(bytes.is_empty());
}

#[test]
fn staging_dir_is_fixed() {
    assert_eq!(staging_dir_name(), "andromeda_temp_files");
}
