//! Discarding bytes that wait in a socket's buffers.
use crate::outside::port_error;
use vstd::prelude::*;

verus! {

/// Which buffers of a serial port to clear.
#[derive(Debug, Clone, Copy, PartialEq, Eq, Structural)]
pub enum ClearBuffer {
    /// Bytes that were received and not yet read.
    Input,
    /// Bytes that were written and not yet transmitted.
    Output,
    /// Both.
    All,
}

/// A question for the number of bytes that wait in the receive buffer.
#[derive(Debug)]
pub struct InputQuery {}

/// A request to read `len` bytes and drop them. So many already wait, so the
/// read does not block.
#[derive(Debug)]
pub struct InputDiscard {
    pub len: usize,
}

/// A step in clearing a port's buffers.
#[derive(Debug)]
pub enum ClearStep {
    /// Ask the port how many bytes wait, and hand the answer to
    /// [`InputQuery::answered`].
    Query(InputQuery),
    /// Read and drop exactly so many bytes, and hand the outcome to
    /// [`InputDiscard::discarded`].
    Discard(InputDiscard),
    /// Nothing is left to do, and this is what came of it.
    Done(Result<(), serialport::Error>),
}

/// The first step in clearing `buffer`. Only the input can hold anything: a
/// write goes straight to the socket.
pub open spec fn clear_start(buffer: ClearBuffer) -> ClearStep {
    match buffer {
        ClearBuffer::Input | ClearBuffer::All => ClearStep::Query(InputQuery {  }),
        ClearBuffer::Output => ClearStep::Done(Ok(())),
    }
}

/// The step that follows the answer to an [`InputQuery`].
pub open spec fn after_query(answer: Result<u32, serialport::Error>) -> ClearStep {
    match answer {
        Ok(waiting) => if waiting > 0 {
            ClearStep::Discard(InputDiscard { len: waiting as usize })
        } else {
            ClearStep::Done(Ok(()))
        },
        Err(error) => ClearStep::Done(Err(error)),
    }
}

/// Begins to clear `buffer`.
pub(crate) fn start(buffer: ClearBuffer) -> (r: ClearStep)
    ensures
        r == clear_start(buffer),
        r is Query <==> buffer != ClearBuffer::Output,
        buffer == ClearBuffer::Output ==> r == ClearStep::Done(Ok(())),
{
    match buffer {
        ClearBuffer::Input | ClearBuffer::All => ClearStep::Query(InputQuery {  }),
        ClearBuffer::Output => ClearStep::Done(Ok(())),
    }
}

impl InputQuery {
    /// Goes on with the number of bytes that wait. Where the port could not
    /// tell, clearing fails with its error.
    pub fn answered(self, answer: Result<u32, serialport::Error>) -> (r: ClearStep)
        ensures
            r == after_query(answer),
            match answer {
                Ok(waiting) => if waiting == 0 {
                    r == ClearStep::Done(Ok(()))
                } else {
                    r matches ClearStep::Discard(discard) && discard.len == waiting
                },
                Err(error) => r == ClearStep::Done(Err(error)),
            },
    {
        match answer {
            Ok(waiting) => if waiting > 0 {
                ClearStep::Discard(InputDiscard { len: waiting as usize })
            } else {
                ClearStep::Done(Ok(()))
            },
            Err(error) => ClearStep::Done(Err(error)),
        }
    }
}

impl InputDiscard {
    /// Ends with the outcome of the read, its error converted.
    pub fn discarded(self, outcome: Result<(), std::io::Error>) -> (r: ClearStep)
        ensures
            match outcome {
                Ok(()) => r == ClearStep::Done(Ok(())),
                Err(io_error) => r matches ClearStep::Done(Err(error))
                    && crate::outside::converted(io_error, error),
            },
    {
        match outcome {
            Ok(()) => ClearStep::Done(Ok(())),
            Err(io_error) => ClearStep::Done(Err(port_error(io_error))),
        }
    }
}

/// How many bytes a step asks to read and drop.
pub open spec fn discards(step: ClearStep) -> nat {
    match step {
        ClearStep::Discard(discard) => discard.len as nat,
        _ => 0,
    }
}

/// How many bytes clearing `buffer` drops where the port answers that
/// `waiting` bytes wait.
pub open spec fn bytes_cleared(buffer: ClearBuffer, waiting: u32) -> nat {
    match clear_start(buffer) {
        ClearStep::Query(_) => discards(after_query(Ok(waiting))),
        step => discards(step),
    }
}

/// Clearing the input drops exactly the bytes that waited when the port was
/// asked. Bytes that arrive later stay, and clearing the output alone drops
/// nothing.
pub proof fn law_clear_drops_what_waited(
    buffer: ClearBuffer,
    waiting: Seq<u8>,
    arriving: Seq<u8>,
)
    requires
        waiting.len() <= u32::MAX,
    ensures
        (waiting + arriving).skip(bytes_cleared(buffer, waiting.len() as u32) as int) == (
        if buffer == ClearBuffer::Output {
            waiting + arriving
        } else {
            arriving
        }),
{
}

/// Clearing asks what waits exactly where the input is among what is cleared.
pub proof fn law_clear_asks_for_the_input(buffer: ClearBuffer)
    ensures
        clear_start(buffer) is Query <==> buffer == ClearBuffer::Input || buffer
            == ClearBuffer::All,
        buffer == ClearBuffer::Output ==> clear_start(buffer) == ClearStep::Done(Ok(())),
{
}

/// As many bytes are read and dropped as the port says wait, to the last one,
/// and none where none waits or the port cannot tell.
pub proof fn law_clear_drops_as_many_as_wait(
    query: InputQuery,
    answer: Result<u32, serialport::Error>,
    r: ClearStep,
)
    requires
        call_ensures(InputQuery::answered, (query, answer), r),
    ensures
        answer matches Ok(waiting) ==> {
            &&& r is Discard <==> waiting > 0
            &&& r matches ClearStep::Discard(discard) ==> discard.len as int == waiting as int
            &&& waiting == 0 ==> r == ClearStep::Done(Ok(()))
        },
        answer matches Err(error) ==> r == ClearStep::Done(Err(error)),
{
}

/// Clearing succeeds where the read of the waiting bytes does.
pub proof fn law_clear_ends_with_the_read(
    discard: InputDiscard,
    outcome: Result<(), std::io::Error>,
    r: ClearStep,
)
    requires
        call_ensures(InputDiscard::discarded, (discard, outcome), r),
    ensures
        r is Done,
        r->Done_0 is Ok <==> outcome is Ok,
        outcome matches Err(io_error) ==> call_ensures(
            <serialport::Error as From<std::io::Error>>::from,
            (io_error,),
            r->Done_0->Err_0,
        ),
{
}

} // verus!
