use moto_hses::commands::{
    parse_file_content, parse_file_list, Command, DeleteFile, ReadFileList, ReceiveFile, SendFile,
};
use moto_hses::encoding::TextEncoding;

#[test]
#[allow(clippy::unwrap_used)]
fn file_test_read_file_list_serialization() {
    let cmd = ReadFileList::new("*.JBI".to_string(), TextEncoding::Utf8);
    let data = cmd.serialize().unwrap();
    assert_eq!(data, b"*.JBI");
}

#[test]
#[allow(clippy::unwrap_used)]
fn file_test_read_file_list_deserialization() {
    let data = b"file1.job\r\nfile2.job\r\n";
    let files = parse_file_list(data, TextEncoding::Utf8).unwrap();
    assert_eq!(files, vec!["file1.job", "file2.job"]);
}

#[test]
#[allow(clippy::unwrap_used)]
fn file_test_send_file_serialization() {
    let cmd = SendFile::new(
        "test.job".to_string(),
        b"content".to_vec(),
        TextEncoding::Utf8,
    );
    let data = cmd.serialize().unwrap();
    let expected = b"test.job\0content".to_vec();
    assert_eq!(data, expected);
}

#[test]
#[allow(clippy::unwrap_used)]
fn file_test_receive_file_serialization() {
    let cmd = ReceiveFile::new("test.job".to_string(), TextEncoding::Utf8);
    let data = cmd.serialize().unwrap();
    let expected = b"test.job".to_vec();
    assert_eq!(data, expected);
}

#[test]
#[allow(clippy::unwrap_used)]
fn file_test_receive_file_deserialization() {
    let data = b"test.job\0file content";
    let content = parse_file_content(data).unwrap();
    assert_eq!(content, b"file content".to_vec());
}

#[test]
#[allow(clippy::unwrap_used)]
fn file_test_delete_file_serialization() {
    let cmd = DeleteFile::new("test.job".to_string(), TextEncoding::Utf8);
    let data = cmd.serialize().unwrap();
    let expected = b"test.job".to_vec();
    assert_eq!(data, expected);
}

