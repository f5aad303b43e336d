use rrd::error::RrdError;
use rrd::util::{path_to_str, text_or_encoding_error};
use std::path::PathBuf;

#[test]
fn path_that_is_text() {
    let path = PathBuf::from("/some/path");
    assert_eq!(path_to_str(&path).unwrap(), "/some/path");
    assert_eq!(path_to_str(&PathBuf::new()).unwrap(), "");
    assert_eq!(text_or_encoding_error(Some("a")), Ok("a"));
}

#[test]
fn path_that_is_not_text() {
    assert_eq!(text_or_encoding_error(None), Err(RrdError::PathEncodingError));
}
