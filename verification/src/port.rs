//! A socket to a bridge as a serial port.
use crate::address::bridge_port_name;
use crate::clear::{start, ClearBuffer, ClearStep};
use crate::outside::port_error;
use crate::timeout::{SocketOp, SocketSetting, Timeout, TimeoutStep};
use vstd::prelude::*;

verus! {

/// Baud rate of the target's UART, which the bridge fixes. No other rate is
/// negotiated over a connection.
pub const BAUD: u32 = 115_200;

/// Number of bits per character.
#[derive(Debug, Clone, Copy, PartialEq, Eq, Structural)]
pub enum DataBits {
    Five,
    Six,
    Seven,
    Eight,
}

/// Flow control modes.
#[derive(Debug, Clone, Copy, PartialEq, Eq, Structural)]
pub enum FlowControl {
    /// No flow control.
    Off,
    Software,
    Hardware,
}

/// Parity checking modes.
#[derive(Debug, Clone, Copy, PartialEq, Eq, Structural)]
pub enum Parity {
    /// No parity bit.
    Off,
    Odd,
    Even,
}

/// Number of stop bits.
#[derive(Debug, Clone, Copy, PartialEq, Eq, Structural)]
pub enum StopBits {
    One,
    Two,
}

/// What matters here of the kind of an I/O error.
#[derive(Debug, Clone, Copy, PartialEq, Eq, Structural)]
pub enum ErrorKind {
    /// Nothing was ready on a socket that does not block.
    WouldBlock,
    /// Nothing came before the deadline.
    TimedOut,
    /// Any other kind.
    Other,
}

/// An I/O error and its kind.
#[derive(Debug)]
pub struct ReadFault {
    pub kind: ErrorKind,
    pub error: std::io::Error,
}

/// What the operating system answered when asked for the depth of a socket's
/// receive buffer.
#[derive(Debug)]
pub struct DepthAnswer {
    /// The status of the request, zero for success.
    pub status: i32,
    /// The depth, where the request succeeded.
    pub depth: i32,
    /// The error on record after the request, which counts where it failed.
    pub os_error: std::io::Error,
}

/// A serial port that stands on a socket to a bridge.
///
/// The target's line settings are fixed in the bridge, and a socket has no
/// control lines. So what concerns either of them does nothing and reports
/// fixed values. Reading, timeouts and clearing the input do real work.
#[derive(Debug)]
pub struct TcpSerialPort<S> {
    /// The socket.
    pub stream: S,
    /// The host of the bridge.
    pub host: String,
    /// The timeout that was last put on the socket.
    pub timeout: Timeout,
}

impl<S> TcpSerialPort<S> {
    /// The timeout on record is well-formed.
    pub open spec fn wf(self) -> bool {
        self.timeout.wf()
    }

    /// A port on `stream`, a socket to the bridge at `host`.
    pub fn new(stream: S, host: String) -> (r: TcpSerialPort<S>)
        ensures
            r == (TcpSerialPort { stream, host, timeout: Timeout::spec_zero() }),
            r.wf(),
            r.timeout.secs == 0,
            r.timeout.nanos == 0,
    {
        TcpSerialPort { stream, host, timeout: Timeout::zero() }
    }

    /// The outcome of a read, in the convention of a terminal: where nothing
    /// arrived in time the read returns no bytes, and this is no error.
    pub fn read(&self, received: Result<usize, ReadFault>) -> (r: Result<usize, std::io::Error>)
        ensures
            match received {
                Ok(count) => r == Ok::<usize, std::io::Error>(count),
                Err(fault) => r == (match fault.kind {
                    ErrorKind::WouldBlock | ErrorKind::TimedOut => Ok(0usize),
                    ErrorKind::Other => Err(fault.error),
                }),
            },
    {
        match received {
            Ok(count) => Ok(count),
            Err(fault) => match fault.kind {
                ErrorKind::WouldBlock | ErrorKind::TimedOut => Ok(0),
                ErrorKind::Other => Err(fault.error),
            },
        }
    }

    /// The outcome of a write to the socket, as it is. Unlike for a read, it is
    /// an error where nothing could be written in time.
    pub fn write(&self, written: Result<usize, std::io::Error>) -> (r: Result<
        usize,
        std::io::Error,
    >)
        ensures
            r == written,
    {
        written
    }

    /// The outcome of flushing the socket, as it is.
    pub fn flush(&self, flushed: Result<(), std::io::Error>) -> (r: Result<(), std::io::Error>)
        ensures
            r == flushed,
    {
        flushed
    }

    /// The name of the port, which selects its bridge.
    pub fn name(&self) -> (r: Option<String>)
        ensures
            r matches Some(name) && name@ == crate::address::bridge_name(self.host@),
            r matches Some(name) && name@ == "bridge://"@ + self.host@,
    {
        Some(bridge_port_name(self.host.as_str()))
    }

    /// The fixed baud rate.
    pub fn baud_rate(&self) -> (r: Result<u32, serialport::Error>)
        ensures
            r == Ok::<u32, serialport::Error>(BAUD),
    {
        Ok(BAUD)
    }

    /// The fixed character size.
    pub fn data_bits(&self) -> (r: Result<DataBits, serialport::Error>)
        ensures
            r == Ok::<DataBits, serialport::Error>(DataBits::Eight),
    {
        Ok(DataBits::Eight)
    }

    /// The fixed flow control mode.
    pub fn flow_control(&self) -> (r: Result<FlowControl, serialport::Error>)
        ensures
            r == Ok::<FlowControl, serialport::Error>(FlowControl::Off),
    {
        Ok(FlowControl::Off)
    }

    /// The fixed parity mode.
    pub fn parity(&self) -> (r: Result<Parity, serialport::Error>)
        ensures
            r == Ok::<Parity, serialport::Error>(Parity::Off),
    {
        Ok(Parity::Off)
    }

    /// The fixed number of stop bits.
    pub fn stop_bits(&self) -> (r: Result<StopBits, serialport::Error>)
        ensures
            r == Ok::<StopBits, serialport::Error>(StopBits::One),
    {
        Ok(StopBits::One)
    }

    /// The timeout that was last put on the socket, zero at first.
    pub fn timeout(&self) -> (r: Timeout)
        ensures
            r == self.timeout,
            self.wf() ==> r.wf(),
    {
        self.timeout
    }

    /// Accepts any baud rate and changes nothing.
    pub fn set_baud_rate(&mut self, _baud_rate: u32) -> (r: Result<(), serialport::Error>)
        ensures
            r == Ok::<(), serialport::Error>(()),
            *final(self) == *old(self),
    {
        Ok(())
    }

    /// Accepts any character size and changes nothing.
    pub fn set_data_bits(&mut self, _data_bits: DataBits) -> (r: Result<(), serialport::Error>)
        ensures
            r == Ok::<(), serialport::Error>(()),
            *final(self) == *old(self),
    {
        Ok(())
    }

    /// Accepts any flow control mode and changes nothing.
    pub fn set_flow_control(&mut self, _flow_control: FlowControl) -> (r: Result<
        (),
        serialport::Error,
    >)
        ensures
            r == Ok::<(), serialport::Error>(()),
            *final(self) == *old(self),
    {
        Ok(())
    }

    /// Accepts any parity mode and changes nothing.
    pub fn set_parity(&mut self, _parity: Parity) -> (r: Result<(), serialport::Error>)
        ensures
            r == Ok::<(), serialport::Error>(()),
            *final(self) == *old(self),
    {
        Ok(())
    }

    /// Accepts any number of stop bits and changes nothing.
    pub fn set_stop_bits(&mut self, _stop_bits: StopBits) -> (r: Result<(), serialport::Error>)
        ensures
            r == Ok::<(), serialport::Error>(()),
            *final(self) == *old(self),
    {
        Ok(())
    }

    /// Begins to put `timeout` on the socket. The port is unchanged until
    /// [`TcpSerialPort::socket_set`] learns that the last change was made.
    pub fn set_timeout(&self, timeout: Timeout) -> (r: TimeoutStep)
        ensures
            r == TimeoutStep::Socket(
                SocketSetting { timeout, op: crate::timeout::first_op(timeout) },
            ),
            timeout.wf() ==> r->Socket_0.wf(),
            r matches TimeoutStep::Socket(setting) && setting.timeout == timeout && setting.op
                == SocketOp::Nonblocking(timeout.secs == 0 && timeout.nanos == 0),
    {
        let op: SocketOp = SocketOp::Nonblocking(timeout.is_zero());
        TimeoutStep::Socket(SocketSetting { timeout, op })
    }

    /// Goes on once the change `setting` has been tried. A failure ends the
    /// whole, its error converted. The last success puts the timeout on
    /// record.
    pub fn socket_set(
        &mut self,
        setting: SocketSetting,
        outcome: Result<(), std::io::Error>,
    ) -> (r: TimeoutStep)
        ensures
            match outcome {
                Ok(()) => r == (match crate::timeout::next_op(setting.op, setting.timeout) {
                    Some(op) => TimeoutStep::Socket(
                        SocketSetting { timeout: setting.timeout, op },
                    ),
                    None => TimeoutStep::Done(Ok(())),
                }),
                Err(io_error) => r matches TimeoutStep::Done(Err(error))
                    && crate::outside::converted(io_error, error),
            },
            *final(self) == (TcpSerialPort {
                timeout: crate::timeout::recorded_after(
                    old(self).timeout,
                    setting.op,
                    setting.timeout,
                    outcome is Ok,
                ),
                ..*old(self)
            }),
            setting.wf() && r is Socket ==> r->Socket_0.wf(),
            setting.wf() && old(self).wf() ==> final(self).wf(),
            final(self).stream == old(self).stream,
            final(self).host == old(self).host,
            outcome is Err ==> final(self).timeout == old(self).timeout && r is Done,
            outcome is Ok ==> match setting.op {
                SocketOp::Nonblocking(true) | SocketOp::WriteTimeout(_) => {
                    &&& r == TimeoutStep::Done(Ok(()))
                    &&& final(self).timeout == setting.timeout
                },
                SocketOp::Nonblocking(false) => {
                    &&& r matches TimeoutStep::Socket(next)
                    &&& next.timeout == setting.timeout
                    &&& next.op == SocketOp::ReadTimeout(setting.timeout)
                    &&& final(self).timeout == old(self).timeout
                },
                SocketOp::ReadTimeout(_) => {
                    &&& r matches TimeoutStep::Socket(next)
                    &&& next.timeout == setting.timeout
                    &&& next.op == SocketOp::WriteTimeout(setting.timeout)
                    &&& final(self).timeout == old(self).timeout
                },
            },
    {
        match outcome {
            Ok(()) => match setting.next() {
                Some(next) => TimeoutStep::Socket(next),
                None => {
                    self.timeout = setting.timeout;
                    TimeoutStep::Done(Ok(()))
                },
            },
            Err(io_error) => TimeoutStep::Done(Err(port_error(io_error))),
        }
    }

    /// Accepts any level and changes nothing.
    pub fn write_request_to_send(&mut self, _level: bool) -> (r: Result<(), serialport::Error>)
        ensures
            r == Ok::<(), serialport::Error>(()),
            *final(self) == *old(self),
    {
        Ok(())
    }

    /// Accepts any level and changes nothing.
    pub fn write_data_terminal_ready(&mut self, _level: bool) -> (r: Result<(), serialport::Error>)
        ensures
            r == Ok::<(), serialport::Error>(()),
            *final(self) == *old(self),
    {
        Ok(())
    }

    /// Reports the line as set.
    pub fn read_clear_to_send(&mut self) -> (r: Result<bool, serialport::Error>)
        ensures
            r == Ok::<bool, serialport::Error>(true),
            *final(self) == *old(self),
    {
        Ok(true)
    }

    /// Reports the line as set.
    pub fn read_data_set_ready(&mut self) -> (r: Result<bool, serialport::Error>)
        ensures
            r == Ok::<bool, serialport::Error>(true),
            *final(self) == *old(self),
    {
        Ok(true)
    }

    /// Reports the line as not set.
    pub fn read_ring_indicator(&mut self) -> (r: Result<bool, serialport::Error>)
        ensures
            r == Ok::<bool, serialport::Error>(false),
            *final(self) == *old(self),
    {
        Ok(false)
    }

    /// Reports the line as set.
    pub fn read_carrier_detect(&mut self) -> (r: Result<bool, serialport::Error>)
        ensures
            r == Ok::<bool, serialport::Error>(true),
            *final(self) == *old(self),
    {
        Ok(true)
    }

    /// The number of bytes that wait in the receive buffer, by the answer of
    /// the operating system: the depth as an unsigned number, or the error on
    /// record, converted, where the request failed.
    pub fn bytes_to_read(&self, answer: DepthAnswer) -> (r: Result<u32, serialport::Error>)
        ensures
            if answer.status == 0 {
                r == Ok::<u32, serialport::Error>(depth_as_count(answer.depth))
            } else {
                r matches Err(error) && crate::outside::converted(answer.os_error, error)
            },
            r is Ok <==> answer.status == 0,
            answer.status == 0 && answer.depth >= 0 ==> r->Ok_0 as int == answer.depth as int,
            answer.status == 0 && answer.depth < 0 ==> r->Ok_0 as int == answer.depth
                + 0x1_0000_0000,
    {
        if answer.status != 0 {
            return Err(port_error(answer.os_error));
        }
        let depth: i32 = answer.depth;
        assert(depth >= 0 ==> depth as u32 == depth) by (bit_vector);
        assert(depth < 0 ==> depth as u32 == depth + 0x1_0000_0000) by (bit_vector);
        Ok(#[verifier::truncate] (depth as u32))
    }

    /// Nothing waits to be written.
    pub fn bytes_to_write(&self) -> (r: Result<u32, serialport::Error>)
        ensures
            r == Ok::<u32, serialport::Error>(0u32),
    {
        Ok(0)
    }

    /// Begins to clear `buffer_to_clear`.
    pub fn clear(&self, buffer_to_clear: ClearBuffer) -> (r: ClearStep)
        ensures
            r == crate::clear::clear_start(buffer_to_clear),
            r is Query <==> buffer_to_clear != ClearBuffer::Output,
            buffer_to_clear == ClearBuffer::Output ==> r == ClearStep::Done(Ok(())),
    {
        start(buffer_to_clear)
    }

    /// Another port to the same bridge, on a second handle to the socket. Its
    /// timeout is on record as zero. Where there is no second handle, the
    /// error is converted.
    pub fn try_clone(&self, stream: Result<S, std::io::Error>) -> (r: Result<
        TcpSerialPort<S>,
        serialport::Error,
    >)
        ensures
            match stream {
                Ok(stream) => r == Ok::<TcpSerialPort<S>, serialport::Error>(
                    TcpSerialPort { stream, host: self.host, timeout: Timeout::spec_zero() },
                ),
                Err(io_error) => r matches Err(error) && crate::outside::converted(
                    io_error,
                    error,
                ),
            },
            r matches Ok(clone) ==> clone.wf(),
            r is Ok <==> stream is Ok,
            r matches Ok(clone) ==> {
                &&& clone.stream == stream->Ok_0
                &&& clone.host@ == self.host@
                &&& clone.timeout.secs == 0
                &&& clone.timeout.nanos == 0
            },
    {
        match stream {
            Ok(stream) => Ok(TcpSerialPort::new(stream, self.host.clone())),
            Err(io_error) => Err(port_error(io_error)),
        }
    }

    /// Does nothing.
    pub fn set_break(&self) -> (r: Result<(), serialport::Error>)
        ensures
            r == Ok::<(), serialport::Error>(()),
    {
        Ok(())
    }

    /// Does nothing.
    pub fn clear_break(&self) -> (r: Result<(), serialport::Error>)
        ensures
            r == Ok::<(), serialport::Error>(()),
    {
        Ok(())
    }
}

/// A depth as an unsigned number of the same width: a negative depth wraps.
pub open spec fn depth_as_count(depth: i32) -> u32 {
    if depth >= 0 {
        depth as u32
    } else {
        (depth + 0x1_0000_0000) as u32
    }
}

/// A depth that is not negative counts as it is, to the last byte. A negative
/// one counts as far beyond, by the width of the number.
pub proof fn law_depth_counts_every_byte(depth: i32)
    ensures
        depth >= 0 ==> depth_as_count(depth) as int == depth as int,
        depth < 0 ==> depth_as_count(depth) as int == depth + 0x1_0000_0000,
{
}

/// The number of bytes reported to wait is the depth that the system answered.
/// Two answers with different depths are reported as different numbers.
pub proof fn law_bytes_to_read_is_the_depth<S>(
    port: &TcpSerialPort<S>,
    answer: DepthAnswer,
    other: DepthAnswer,
    r: Result<u32, serialport::Error>,
    other_r: Result<u32, serialport::Error>,
)
    requires
        call_ensures(TcpSerialPort::<S>::bytes_to_read, (port, answer), r),
        call_ensures(TcpSerialPort::<S>::bytes_to_read, (port, other), other_r),
    ensures
        r is Ok <==> answer.status == 0,
        answer.status == 0 && answer.depth >= 0 ==> r->Ok_0 as int == answer.depth as int,
        r is Ok && other_r is Ok ==> (r->Ok_0 == other_r->Ok_0 <==> answer.depth == other.depth),
        r matches Err(error) ==> call_ensures(
            <serialport::Error as From<std::io::Error>>::from,
            (answer.os_error,),
            error,
        ),
{
}

/// Clearing the input drops as many bytes as the system answered are there.
/// Clearing the output alone asks for nothing and drops nothing.
pub proof fn law_clearing_drops_the_depth<S>(
    port: &TcpSerialPort<S>,
    buffer: ClearBuffer,
    step: ClearStep,
    answer: DepthAnswer,
    waiting: Result<u32, serialport::Error>,
    next: ClearStep,
)
    requires
        call_ensures(TcpSerialPort::<S>::clear, (port, buffer), step),
        call_ensures(TcpSerialPort::<S>::bytes_to_read, (port, answer), waiting),
        step matches ClearStep::Query(query) ==> call_ensures(
            crate::clear::InputQuery::answered,
            (query, waiting),
            next,
        ),
    ensures
        buffer == ClearBuffer::Output ==> step == ClearStep::Done(Ok(())),
        buffer != ClearBuffer::Output ==> step is Query,
        buffer != ClearBuffer::Output && answer.status == 0 && answer.depth == 0 ==> next
            == ClearStep::Done(Ok(())),
        buffer != ClearBuffer::Output && answer.status == 0 && answer.depth > 0 ==> (
        next matches ClearStep::Discard(discard) && discard.len as int == answer.depth as int),
        buffer != ClearBuffer::Output && answer.status != 0 ==> (next matches ClearStep::Done(end)
            && end is Err),
{
}

/// A read reports the bytes that came, and no error where none came in time.
/// Every other error is reported as it is.
pub proof fn law_read_reports_what_came<S>(
    port: &TcpSerialPort<S>,
    received: Result<usize, ReadFault>,
    r: Result<usize, std::io::Error>,
)
    requires
        call_ensures(TcpSerialPort::<S>::read, (port, received), r),
    ensures
        received matches Ok(count) ==> r is Ok && r->Ok_0 == count,
        received matches Err(fault) ==> {
            &&& r is Err <==> fault.kind == ErrorKind::Other
            &&& r is Ok ==> r->Ok_0 == 0
            &&& r is Err ==> r->Err_0 == fault.error
        },
{
}

/// What comes of a write or a flush is reported as it is, errors among it.
pub proof fn law_write_reports_what_came<S>(
    port: &TcpSerialPort<S>,
    written: Result<usize, std::io::Error>,
    flushed: Result<(), std::io::Error>,
    write_r: Result<usize, std::io::Error>,
    flush_r: Result<(), std::io::Error>,
)
    requires
        call_ensures(TcpSerialPort::<S>::write, (port, written), write_r),
        call_ensures(TcpSerialPort::<S>::flush, (port, flushed), flush_r),
    ensures
        write_r is Ok <==> written is Ok,
        write_r is Ok ==> write_r->Ok_0 == written->Ok_0,
        write_r is Err ==> write_r->Err_0 == written->Err_0,
        flush_r is Ok <==> flushed is Ok,
        flush_r is Err ==> flush_r->Err_0 == flushed->Err_0,
{
}

/// The name of a port, handed to [`crate::address::target_host`], gives back
/// the host that the port was made with.
pub proof fn law_port_name_selects_its_bridge<S>(
    stream: S,
    host: String,
    port: TcpSerialPort<S>,
    name: Option<String>,
    text: &str,
    found: Option<&str>,
)
    requires
        call_ensures(TcpSerialPort::<S>::new, (stream, host), port),
        call_ensures(TcpSerialPort::<S>::name, (&port,), name),
        name is Some ==> text@ == name->0@,
        call_ensures(crate::address::target_host, (text,), found),
    ensures
        name is Some,
        name->0@ == "bridge://"@ + host@,
        found matches Some(h) && h@ == host@,
{
    crate::address::law_target_host_is_what_follows_the_prefix(text, host@, found);
}

/// A new port has its socket and host and no timeout, and so has a clone, which
/// keeps the host and takes the second handle.
pub proof fn law_clone_is_a_new_port_to_the_same_host<S>(
    stream: S,
    host: String,
    port: TcpSerialPort<S>,
    handle: Result<S, std::io::Error>,
    r: Result<TcpSerialPort<S>, serialport::Error>,
)
    requires
        call_ensures(TcpSerialPort::<S>::new, (stream, host), port),
        call_ensures(TcpSerialPort::<S>::try_clone, (&port, handle), r),
    ensures
        port.stream == stream,
        port.host@ == host@,
        port.timeout.secs == 0 && port.timeout.nanos == 0,
        r is Ok <==> handle is Ok,
        r matches Ok(clone) ==> clone.stream == handle->Ok_0 && clone.host@ == host@
            && clone.timeout.secs == 0 && clone.timeout.nanos == 0,
        r matches Err(error) ==> call_ensures(
            <serialport::Error as From<std::io::Error>>::from,
            (handle->Err_0,),
            error,
        ),
{
}

/// Putting a timeout on the socket begins with its blocking mode: a zero
/// timeout asks for no blocking, any other one for blocking.
pub proof fn law_set_timeout_begins_with_the_mode<S>(
    port: &TcpSerialPort<S>,
    timeout: Timeout,
    r: TimeoutStep,
)
    requires
        call_ensures(TcpSerialPort::<S>::set_timeout, (port, timeout), r),
    ensures
        r matches TimeoutStep::Socket(setting) && setting.timeout == timeout && (setting.op
            == SocketOp::Nonblocking(true) <==> timeout.secs == 0 && timeout.nanos == 0) && (
        setting.op == SocketOp::Nonblocking(false) <==> timeout.secs > 0 || timeout.nanos > 0),
{
}

/// The line settings that a port reports are fixed.
pub proof fn law_line_settings_are_fixed<S>(
    port: &TcpSerialPort<S>,
    baud: Result<u32, serialport::Error>,
    data: Result<DataBits, serialport::Error>,
    flow: Result<FlowControl, serialport::Error>,
    parity: Result<Parity, serialport::Error>,
    stop: Result<StopBits, serialport::Error>,
    unsent: Result<u32, serialport::Error>,
)
    requires
        call_ensures(TcpSerialPort::<S>::baud_rate, (port,), baud),
        call_ensures(TcpSerialPort::<S>::data_bits, (port,), data),
        call_ensures(TcpSerialPort::<S>::flow_control, (port,), flow),
        call_ensures(TcpSerialPort::<S>::parity, (port,), parity),
        call_ensures(TcpSerialPort::<S>::stop_bits, (port,), stop),
        call_ensures(TcpSerialPort::<S>::bytes_to_write, (port,), unsent),
    ensures
        baud is Ok && baud->Ok_0 == 115_200,
        data is Ok && data->Ok_0 == DataBits::Eight,
        flow is Ok && flow->Ok_0 == FlowControl::Off,
        parity is Ok && parity->Ok_0 == Parity::Off,
        stop is Ok && stop->Ok_0 == StopBits::One,
        unsent is Ok && unsent->Ok_0 == 0,
{
}

/// A port takes a timeout on record only once the last change for it was made:
/// non-blocking mode, or the deadline on writes after that on reads. A change
/// that fails ends the whole and leaves the timeout as it was. The socket and
/// the host of the port never change.
pub proof fn law_socket_changes_lead_to_the_timeout<S>(
    port: &mut TcpSerialPort<S>,
    setting: SocketSetting,
    outcome: Result<(), std::io::Error>,
    r: TimeoutStep,
)
    requires
        call_ensures(TcpSerialPort::<S>::socket_set, (old(port), setting, outcome), r),
    ensures
        final(port).stream == old(port).stream,
        final(port).host == old(port).host,
        outcome matches Err(io_error) ==> {
            &&& final(port).timeout == old(port).timeout
            &&& r matches TimeoutStep::Done(Err(error))
            &&& call_ensures(
                <serialport::Error as From<std::io::Error>>::from,
                (io_error,),
                error,
            )
        },
        outcome is Ok ==> (r == TimeoutStep::Done(Ok(())) <==> setting.op == SocketOp::Nonblocking(
            true,
        ) || setting.op is WriteTimeout),
        outcome is Ok && r is Done ==> final(port).timeout == setting.timeout,
        r is Socket ==> final(port).timeout == old(port).timeout,
        r matches TimeoutStep::Socket(next) ==> {
            &&& next.timeout == setting.timeout
            &&& setting.op == SocketOp::Nonblocking(false) ==> next.op == SocketOp::ReadTimeout(
                setting.timeout,
            )
            &&& setting.op is ReadTimeout ==> next.op == SocketOp::WriteTimeout(setting.timeout)
        },
{
}

/// A port reports the timeout that its last change put on record.
pub proof fn law_timeout_is_reported<S>(
    port: &mut TcpSerialPort<S>,
    setting: SocketSetting,
    r: TimeoutStep,
    after: &TcpSerialPort<S>,
    reported: Timeout,
)
    requires
        call_ensures(TcpSerialPort::<S>::socket_set, (old(port), setting, Ok(())), r),
        *after == *final(port),
        call_ensures(TcpSerialPort::<S>::timeout, (after,), reported),
    ensures
        r is Done ==> reported == setting.timeout,
        r is Socket ==> reported == old(port).timeout,
{
}

/// The control lines that a port reports are fixed, and asking for them changes
/// nothing.
pub proof fn law_control_lines_are_fixed<S>(
    port: &mut TcpSerialPort<S>,
    clear_to_send: Result<bool, serialport::Error>,
    data_set_ready: Result<bool, serialport::Error>,
    ring: Result<bool, serialport::Error>,
    carrier: Result<bool, serialport::Error>,
)
    requires
        call_ensures(TcpSerialPort::<S>::read_clear_to_send, (old(port),), clear_to_send),
        call_ensures(TcpSerialPort::<S>::read_data_set_ready, (old(port),), data_set_ready),
        call_ensures(TcpSerialPort::<S>::read_ring_indicator, (old(port),), ring),
        call_ensures(TcpSerialPort::<S>::read_carrier_detect, (old(port),), carrier),
    ensures
        clear_to_send is Ok && clear_to_send->Ok_0,
        data_set_ready is Ok && data_set_ready->Ok_0,
        ring is Ok && !ring->Ok_0,
        carrier is Ok && carrier->Ok_0,
        *final(port) == *old(port),
{
}

/// Setting a line or a line setting succeeds and changes nothing of the port,
/// whatever is asked for.
pub proof fn law_setting_a_line_changes_nothing<S>(
    port: &mut TcpSerialPort<S>,
    baud_rate: u32,
    data_bits: DataBits,
    flow_control: FlowControl,
    parity: Parity,
    stop_bits: StopBits,
    level: bool,
    results: Seq<Result<(), serialport::Error>>,
    index: int,
)
    requires
        results.len() == 7,
        0 <= index < 7,
        call_ensures(TcpSerialPort::<S>::set_baud_rate, (old(port), baud_rate), results[0]),
        call_ensures(TcpSerialPort::<S>::set_data_bits, (old(port), data_bits), results[1]),
        call_ensures(TcpSerialPort::<S>::set_flow_control, (old(port), flow_control), results[2]),
        call_ensures(TcpSerialPort::<S>::set_parity, (old(port), parity), results[3]),
        call_ensures(TcpSerialPort::<S>::set_stop_bits, (old(port), stop_bits), results[4]),
        call_ensures(TcpSerialPort::<S>::write_request_to_send, (old(port), level), results[5]),
        call_ensures(
            TcpSerialPort::<S>::write_data_terminal_ready,
            (old(port), level),
            results[6],
        ),
    ensures
        results[index] is Ok,
        *final(port) == *old(port),
{
}

} // verus!
