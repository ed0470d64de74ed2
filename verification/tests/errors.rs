use better::error::Error;
use std::io;

#[test]
fn an_io_error_is_reported_in_one_line() {
    let error = Error::from(io::Error::new(io::ErrorKind::Other, "boom"));
    assert_eq!(error.message(), "! error: io: boom\n");
}

#[test]
fn an_io_error_is_kept_as_it_came() {
    let error = Error::from(io::Error::new(io::ErrorKind::NotFound, "gone"));
    match error {
        Error::Io(inner) => {
            assert_eq!(inner.kind(), io::ErrorKind::NotFound);
            assert_eq!(inner.to_string(), "gone");
        },
    }
}

#[test]
fn the_report_wraps_any_text() {
    assert_eq!(Error::line("not a directory"), "! error: io: not a directory\n");
    assert_eq!(Error::line(""), "! error: io: \n");
}
