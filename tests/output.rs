use git_nomad::output::OutputStream;

#[test]
fn vec_stream() {
    let mut stream = OutputStream::new_vec();
    stream.write_str("foo");
    assert_eq!(stream.as_str(), "foo");

    // Flushing should be a no-op
    stream.flush();
    assert_eq!(stream.as_str(), "foo");
}

#[test]
fn vec_stream_appends() {
    let mut stream = OutputStream::new_vec();
    assert_eq!(stream.as_str(), "");
    stream.write_str("a");
    stream.write_str("bc");
    assert_eq!(stream.as_str(), "abc");
}
