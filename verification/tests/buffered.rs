use my_buf_bytes::BufBytes;
use my_buf_bytes::ByteSource;
use my_buf_bytes::IoError;
use my_buf_bytes::MemSource;

/// A source that succeeds until the cumulative requested length passes
/// `error_bytes`, then fails; successful fills hand back zero bytes.
struct ErrorFile {
    error_bytes: usize,
    cursor: usize,
}

impl ErrorFile {
    fn new(error_bytes: usize) -> Self {
        Self { error_bytes, cursor: 0 }
    }
}

impl ByteSource for ErrorFile {
    fn read(&mut self, buf: &mut Vec<u8>) -> Result<usize, IoError> {
        self.cursor += buf.len();
        if self.cursor > self.error_bytes {
            return Err(IoError::ReadFailed);
        }
        for b in buf.iter_mut() {
            *b = 0;
        }
        Ok(buf.len())
    }
}

fn count_bytes<B: ByteSource>(bytes: &mut BufBytes<B>) -> usize {
    let mut count = 0;
    while let Some(_) = bytes.next_byte() {
        count += 1;
    }
    count
}

#[test]
fn buf_8byte_test() {
    let base_txt = "abcdefg\nhijklmn\nopqrstu\nvwxyz00\n";

    let source = MemSource::new(base_txt.as_bytes().to_vec());
    let mut bytes = BufBytes::with_capacity(source, 8).unwrap();

    for base in base_txt.bytes() {
        let file = bytes.next_byte().unwrap();
        assert_eq!(file, base);
    }
}

#[test]
fn zero_size_file_test() {
    let source = MemSource::new(Vec::new());
    let bytes = BufBytes::new(source);

    assert!(matches!(bytes, Err(_)));
}

#[test]
fn read_error_test() {
    // reaching the 17th byte makes this virtual file fail
    let err_file = ErrorFile::new(17);
    let mut bytes = BufBytes::with_capacity(err_file, 8).unwrap();

    // no panic: exactly the bytes read before the failure come out
    assert_eq!(count_bytes(&mut bytes), 16);
}

#[test]
fn try_block_failed_test() {
    // reaching the 17th byte makes this virtual file fail
    let err_file = ErrorFile::new(17);
    let mut bytes = BufBytes::with_capacity(err_file, 8).unwrap();

    let res = bytes.try_block(|b| count_bytes(b));

    assert!(matches!(res, Err(_)));
}

#[test]
fn try_block_success_test() {
    let base_txt = "abcdefg\nhijklmn\nopqrstu\nvwxyz00\n";

    let source = MemSource::new(base_txt.as_bytes().to_vec());
    let mut bytes = BufBytes::with_capacity(source, 8).unwrap();

    let res = bytes.try_block(|b| count_bytes(b));

    assert_eq!(32, res.unwrap())
}
