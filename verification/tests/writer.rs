use pyroscope_backends::RbspyWriter;

#[test]
fn test_rbspy_writer() {
    let mut buffer: Vec<u8> = Vec::new();
    let mut writer = RbspyWriter::new(&mut buffer);

    writer.write(b"hello").unwrap();
    writer.write(b"world").unwrap();
    writer.flush().unwrap();

    assert_eq!(buffer, b"helloworld".to_vec());
}

#[test]
fn writer_shows_nothing_before_flush() {
    let mut buffer: Vec<u8> = Vec::new();
    {
        let mut writer = RbspyWriter::new(&mut buffer);
        writer.write(b"hello").unwrap();
        writer.write(b"world").unwrap();
        assert!(writer.buffer.is_empty());
        assert_eq!(writer.data, b"helloworld".to_vec());
    }
    assert!(buffer.is_empty());
}

#[test]
fn writer_write_returns_the_length() {
    let mut buffer: Vec<u8> = Vec::new();
    let mut writer = RbspyWriter::new(&mut buffer);
    assert_eq!(writer.write(b"hello").unwrap(), 5);
    assert_eq!(writer.write(b"").unwrap(), 0);
}

#[test]
fn writer_appends_behind_what_the_buffer_held() {
    let mut buffer: Vec<u8> = b"old:".to_vec();
    let mut writer = RbspyWriter::new(&mut buffer);
    writer.write(b"new").unwrap();
    writer.flush().unwrap();
    assert_eq!(buffer, b"old:new".to_vec());
}

#[test]
fn writer_flush_keeps_what_is_staged() {
    let mut buffer: Vec<u8> = Vec::new();
    let mut writer = RbspyWriter::new(&mut buffer);
    writer.write(b"ab").unwrap();
    writer.flush().unwrap();
    writer.flush().unwrap();
    assert_eq!(buffer, b"abab".to_vec());
}

#[test]
fn writer_flush_of_nothing_changes_nothing() {
    let mut buffer: Vec<u8> = b"kept".to_vec();
    let mut writer = RbspyWriter::new(&mut buffer);
    writer.flush().unwrap();
    assert_eq!(buffer, b"kept".to_vec());
}
