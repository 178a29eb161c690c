//! The read-ahead buffered reader and its thresholds.

use plugin_host::reader::{MinMaxBufReader, VecReader};

#[test]
fn test_min_max_reader() {
    let data = "Hello, this is a test.".as_bytes().to_vec();
    let mut reader = MinMaxBufReader::new(VecReader::new(data), 10, 20);

    let mut collected: Vec<u8> = Vec::new();
    loop {
        let chunk = reader.read(64).expect("read");
        if chunk.is_empty() {
            break;
        }
        collected.extend_from_slice(&chunk);
    }
    let buffer = String::from_utf8(collected).expect("read_to_string");
    assert_eq!("Hello, this is a test.", buffer);
}

#[test]
fn fill_buf_reaches_min_or_eof_or_max() {
    // Plenty of input: the buffer tops up to at least the low-water mark.
    let mut plenty = MinMaxBufReader::new(VecReader::new(vec![9u8; 100]), 5, 10);
    let filled = plenty.fill_buf().expect("fill");
    assert!(filled.len() >= 5);
    assert!(filled.len() <= 10);

    // Short input: end of stream is reached below the low-water mark.
    let mut short = MinMaxBufReader::new(VecReader::new(vec![1u8, 2, 3]), 5, 10);
    let filled = short.fill_buf().expect("fill");
    assert_eq!(vec![1u8, 2, 3], filled);

    // Empty input: the very first fill signals end of stream.
    let mut empty = MinMaxBufReader::new(VecReader::new(Vec::new()), 5, 10);
    let filled = empty.fill_buf().expect("fill");
    assert!(filled.is_empty());
}

#[test]
fn consume_discards_from_the_front() {
    let mut reader = MinMaxBufReader::new(VecReader::new(vec![1u8, 2, 3, 4, 5, 6, 7, 8]), 4, 8);
    let filled = reader.fill_buf().expect("fill");
    assert_eq!(8, filled.len());
    reader.consume(3);
    let rest = reader.fill_buf().expect("fill");
    assert_eq!(vec![4u8, 5, 6, 7, 8], rest);
    // Consuming more than is buffered empties the buffer.
    reader.consume(100);
    let empty = reader.fill_buf().expect("fill");
    assert!(empty.is_empty());
}

#[test]
fn read_serves_at_most_the_asked_amount() {
    let mut reader = MinMaxBufReader::new(VecReader::new(vec![1u8, 2, 3, 4, 5, 6]), 2, 4);
    let first = reader.read(3).expect("read");
    assert_eq!(vec![1u8, 2, 3], first);
    let second = reader.read(100).expect("read");
    // Whatever was buffered plus what topping up could add, never more than
    // the capacity.
    assert!(second.len() <= 4);
    assert_eq!(vec![4u8, 5, 6], second);
}
