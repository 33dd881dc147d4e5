use revtunnel::splice::splice_direction;

#[test]
fn splice_delivers_the_bytes_read() {
    let chunks = vec![b"ping\n".to_vec()];
    assert_eq!(splice_direction(&chunks), b"ping\n".to_vec());
}

#[test]
fn splice_concatenates_chunks_in_order() {
    let chunks = vec![b"ab".to_vec(), b"c".to_vec(), b"def".to_vec()];
    assert_eq!(splice_direction(&chunks), b"abcdef".to_vec());
}

#[test]
fn splice_zero_bytes_is_valid_success() {
    let chunks: Vec<Vec<u8>> = Vec::new();
    assert_eq!(splice_direction(&chunks), Vec::<u8>::new());
}

#[test]
fn splice_stops_at_end_of_stream() {
    // An empty read signals end-of-stream: later bytes are never delivered.
    let chunks = vec![b"first".to_vec(), Vec::new(), b"late".to_vec()];
    assert_eq!(splice_direction(&chunks), b"first".to_vec());
}

#[test]
fn splice_immediate_close_delivers_nothing() {
    let chunks = vec![Vec::new(), b"late".to_vec()];
    assert_eq!(splice_direction(&chunks), Vec::<u8>::new());
}
