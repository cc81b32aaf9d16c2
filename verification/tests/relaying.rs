use socksproxy::relay::copy_stream;
use socksproxy::relay::forward_chunk;

#[test]
fn forward_chunk_passes_read_bytes_through() {
    assert_eq!(forward_chunk(&[1, 2, 3, 4, 5], 3), vec![1, 2, 3]);
    assert_eq!(forward_chunk(&[9, 9], 0), Vec::<u8>::new());
}

#[test]
fn copy_stream_preserves_bytes_and_order() {
    let data: Vec<u8> = (0u16..600).map(|x| (x % 251) as u8).collect();
    assert_eq!(copy_stream(&data, 64), data);
    assert_eq!(copy_stream(&data, 1), data);
    assert_eq!(copy_stream(&data, 4096), data);
}

#[test]
fn copy_stream_of_empty_input_is_empty() {
    assert_eq!(copy_stream(&[], 512), Vec::<u8>::new());
}
