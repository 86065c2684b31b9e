//! Error types of other crates that pass through this one.
use vstd::prelude::*;

verus! {

/// `std::io::Error`, the error of a socket operation. It is only carried.
#[verifier::external_type_specification]
#[verifier::external_body]
pub struct ExIoError(std::io::Error);

/// `serialport::Error`, the error of a serial port operation. It is only
/// carried.
#[verifier::external_type_specification]
#[verifier::external_body]
pub struct ExPortError(serialport::Error);

/// `ureq::Error`, the error of an HTTP request. It is only carried.
#[verifier::external_type_specification]
#[verifier::external_body]
pub struct ExHttpError(ureq::Error);

/// `serialport::Error::from`, applied to an I/O error.
///
/// The new error has the I/O error's kind, and as its description the text
/// that the I/O error displays. For an error of the operating system that
/// text comes from the system and may vary with its language, so nothing is
/// claimed of the result: contracts say which error was converted, and leave
/// unsaid what the conversion makes of it.
pub assume_specification[ <serialport::Error as From<std::io::Error>>::from ](
    io_error: std::io::Error,
) -> serialport::Error;

/// Whether `port_error` is what converting `io_error` for the users of a
/// serial port can give.
pub open spec fn converted(io_error: std::io::Error, port_error: serialport::Error) -> bool {
    call_ensures(
        <serialport::Error as From<std::io::Error>>::from,
        (io_error,),
        port_error,
    )
}

/// The serial port error for an I/O error.
pub(crate) fn port_error(io_error: std::io::Error) -> (r: serialport::Error)
    ensures
        converted(io_error, r),
{
    serialport::Error::from(io_error)
}

/// An error counts as the conversion of an I/O error exactly where the
/// conversion of that very error can give it.
pub proof fn law_converted_means_converted(
    io_error: std::io::Error,
    port_error: serialport::Error,
)
    ensures
        converted(io_error, port_error) <==> call_ensures(
            <serialport::Error as From<std::io::Error>>::from,
            (io_error,),
            port_error,
        ),
{
}

} // verus!
