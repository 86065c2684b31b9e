//! Connecting to a target through a bridge.
use crate::http::{
    http_post, PostError, PostQuery, PostQueryView, PostRequest, ENTER_BOOTLOADER_PATH,
};
use crate::port::{TcpSerialPort, BAUD};
use crate::ports::{flash_port, PortQuery, PortQueryView};
use crate::timeout::Timeout;
use vstd::prelude::*;

verus! {

/// What is done to a target before it is talked to.
#[derive(Debug, Clone, Copy, PartialEq, Eq, Structural)]
pub enum ResetBeforeOperation {
    /// Reset the target into its bootloader.
    DefaultReset,
    /// Do not reset the target, but synchronise with it.
    NoReset,
    /// Neither reset the target nor synchronise with it.
    NoResetNoSync,
    /// Reset the target by way of its USB peripheral.
    UsbReset,
}

/// What is done to a target when it is no longer talked to.
#[derive(Debug, Clone, Copy, PartialEq, Eq, Structural)]
pub enum ResetAfterOperation {
    /// Reboot the target.
    HardReset,
    /// Leave the target in its bootloader.
    NoReset,
    /// Leave the target in the stub loader.
    NoResetNoStub,
    /// Reboot the target by way of its watchdog.
    WatchdogReset,
}

/// What is known of the USB device behind a port.
#[derive(Debug)]
pub struct UsbPortInfo {
    pub vid: u16,
    pub pid: u16,
    pub serial_number: Option<String>,
    pub manufacturer: Option<String>,
    pub product: Option<String>,
}

impl UsbPortInfo {
    /// The information where no USB device is behind a port.
    pub open spec fn spec_absent() -> UsbPortInfo {
        UsbPortInfo { vid: 0, pid: 0, serial_number: None, manufacturer: None, product: None }
    }

    /// The information where no USB device is behind a port.
    pub fn absent() -> (r: UsbPortInfo)
        ensures
            r == UsbPortInfo::spec_absent(),
            r.vid == 0,
            r.pid == 0,
            r.serial_number is None,
            r.manufacturer is None,
            r.product is None,
    {
        UsbPortInfo { vid: 0, pid: 0, serial_number: None, manufacturer: None, product: None }
    }
}

/// A connection to a target.
#[derive(Debug)]
pub struct Connection<S> {
    /// The port that the target is talked to on.
    pub serial: TcpSerialPort<S>,
    pub usb_info: UsbPortInfo,
    /// What is done to the target at the end.
    pub after_operation: ResetAfterOperation,
    /// What this connection still has to do to the target at the start.
    pub before_operation: ResetBeforeOperation,
    pub baud: u32,
    /// The bridge that the target is reset through.
    pub bridge_host: Option<String>,
}

/// What is asked of [`connect`].
#[derive(Debug)]
pub struct Target {
    pub host: String,
    pub before: ResetBeforeOperation,
    pub after: ResetAfterOperation,
}

/// Why a connection could not be made.
#[derive(Debug)]
pub enum ConnectError {
    /// The bridge did not put the target into its bootloader.
    EnterBootloader(PostError),
    /// The bridge's flashing socket could not be opened.
    OpenSocket(std::io::Error),
}

/// A question for the HTTP port, before the target is put into its bootloader.
#[derive(Debug)]
pub struct HttpPortQuery {
    pub target: Target,
    pub post: PostQuery,
}

/// A request to put the target into its bootloader.
#[derive(Debug)]
pub struct BootloaderEntry {
    pub target: Target,
    pub request: PostRequest,
}

/// A question for the flashing port, before the socket is opened.
#[derive(Debug)]
pub struct FlashPortQuery {
    pub target: Target,
    pub port: PortQuery,
}

/// A request to open a TCP socket to `port` of the target's host.
#[derive(Debug)]
pub struct SocketRequest {
    pub target: Target,
    pub port: u16,
}

/// A step in connecting to a target.
#[derive(Debug)]
pub enum ConnectStep<S> {
    /// Read the variable of `post.port`, and hand its value to
    /// [`HttpPortQuery::answered`].
    HttpPort(HttpPortQuery),
    /// Send the request, and hand its outcome to [`BootloaderEntry::sent`].
    EnterBootloader(BootloaderEntry),
    /// Read the variable of `port`, and hand its value to
    /// [`FlashPortQuery::answered`].
    FlashPort(FlashPortQuery),
    /// Open the socket, and hand the outcome to [`SocketRequest::opened`].
    OpenSocket(SocketRequest),
    /// Nothing is left to do, and this is what came of it.
    Done(Result<Connection<S>, ConnectError>),
}

/// The bridge in use, for those who reset a target without a [`Connection`] at
/// hand.
#[derive(Debug)]
pub struct ActiveBridge {
    /// The host of the last bridge that a connection was made to.
    pub host: Option<String>,
}

/// A [`Target`], seen as plain values.
pub struct TargetView {
    pub host: Seq<char>,
    pub before: ResetBeforeOperation,
    pub after: ResetAfterOperation,
}

impl View for Target {
    type V = TargetView;

    open spec fn view(&self) -> TargetView {
        TargetView { host: self.host@, before: self.before, after: self.after }
    }
}

/// The view of an optional string.
pub open spec fn string_view(text: Option<String>) -> Option<Seq<char>> {
    match text {
        Some(t) => Some(t@),
        None => None,
    }
}

impl View for ActiveBridge {
    type V = Option<Seq<char>>;

    open spec fn view(&self) -> Option<Seq<char>> {
        string_view(self.host)
    }
}

/// A [`Connection`], seen as plain values.
pub struct ConnectionView<S> {
    pub stream: S,
    pub port_host: Seq<char>,
    pub timeout: Timeout,
    pub usb_info: UsbPortInfo,
    pub after_operation: ResetAfterOperation,
    pub before_operation: ResetBeforeOperation,
    pub baud: u32,
    pub bridge_host: Option<Seq<char>>,
}

impl<S> View for Connection<S> {
    type V = ConnectionView<S>;

    open spec fn view(&self) -> ConnectionView<S> {
        ConnectionView {
            stream: self.serial.stream,
            port_host: self.serial.host@,
            timeout: self.serial.timeout,
            usb_info: self.usb_info,
            after_operation: self.after_operation,
            before_operation: self.before_operation,
            baud: self.baud,
            bridge_host: string_view(self.bridge_host),
        }
    }
}

/// A [`ConnectStep`], seen as plain values.
pub enum StepView<S> {
    HttpPort(TargetView, PostQueryView),
    EnterBootloader(TargetView, Seq<char>),
    FlashPort(TargetView, PortQueryView),
    OpenSocket(TargetView, u16),
    Connected(ConnectionView<S>),
    BootloaderFailed(Seq<char>, ureq::Error),
    SocketFailed(std::io::Error),
}

impl<S> View for ConnectStep<S> {
    type V = StepView<S>;

    open spec fn view(&self) -> StepView<S> {
        match *self {
            ConnectStep::HttpPort(query) => StepView::HttpPort(query.target@, query.post@),
            ConnectStep::EnterBootloader(entry) => StepView::EnterBootloader(
                entry.target@,
                entry.request.url@,
            ),
            ConnectStep::FlashPort(query) => StepView::FlashPort(query.target@, query.port@),
            ConnectStep::OpenSocket(request) => StepView::OpenSocket(request.target@, request.port),
            ConnectStep::Done(Ok(connection)) => StepView::Connected(connection@),
            ConnectStep::Done(Err(ConnectError::EnterBootloader(error))) => {
                StepView::BootloaderFailed(error.url@, error.cause)
            },
            ConnectStep::Done(Err(ConnectError::OpenSocket(cause))) => StepView::SocketFailed(
                cause,
            ),
        }
    }
}

/// What a connection through a bridge still has to do to the target at the
/// start: a reset has taken place by then, and there are no control lines to
/// drive, but whether to synchronise is still open.
pub open spec fn connection_before(before: ResetBeforeOperation) -> ResetBeforeOperation {
    match before {
        ResetBeforeOperation::NoResetNoSync => ResetBeforeOperation::NoResetNoSync,
        _ => ResetBeforeOperation::NoReset,
    }
}

/// The connection to a target on the socket `stream`.
pub open spec fn connection_to<S>(target: TargetView, stream: S) -> ConnectionView<S> {
    ConnectionView {
        stream,
        port_host: target.host,
        timeout: Timeout::spec_zero(),
        usb_info: UsbPortInfo::spec_absent(),
        after_operation: target.after,
        before_operation: connection_before(target.before),
        baud: BAUD,
        bridge_host: Some(target.host),
    }
}

/// The question for the HTTP port before a target is put into its bootloader.
pub open spec fn bootloader_query(target: TargetView) -> PostQueryView {
    crate::http::post_query(target.host, ENTER_BOOTLOADER_PATH@)
}

/// The step that asks for the flashing port.
pub open spec fn flash_port_step<S>(target: TargetView) -> StepView<S> {
    StepView::FlashPort(target, crate::ports::flash_port_query())
}

/// The first step in connecting to a target. The target is left as it is only
/// where it is neither to be reset nor to be synchronised with.
pub open spec fn connect_start<S>(target: TargetView) -> StepView<S> {
    if target.before == ResetBeforeOperation::NoResetNoSync {
        flash_port_step(target)
    } else {
        StepView::HttpPort(target, bootloader_query(target))
    }
}

/// The step once the bootloader request to `url` has been sent.
pub open spec fn after_bootloader<S>(
    target: TargetView,
    url: Seq<char>,
    failure: Option<ureq::Error>,
) -> StepView<S> {
    match failure {
        None => flash_port_step(target),
        Some(cause) => StepView::BootloaderFailed(url, cause),
    }
}

/// The step once opening the socket has been tried.
pub open spec fn after_socket<S>(
    target: TargetView,
    outcome: Result<S, std::io::Error>,
) -> StepView<S> {
    match outcome {
        Ok(stream) => StepView::Connected(connection_to(target, stream)),
        Err(cause) => StepView::SocketFailed(cause),
    }
}

/// How an outcome failed, if it did.
pub open spec fn failure<R, E>(outcome: Result<R, E>) -> Option<E> {
    match outcome {
        Ok(_) => None,
        Err(cause) => Some(cause),
    }
}

/// The active bridge after `step`, where `active` was the one before.
pub open spec fn active_after<S>(active: Option<Seq<char>>, step: StepView<S>) -> Option<
    Seq<char>,
> {
    match step {
        StepView::Connected(connection) => connection.bridge_host,
        _ => active,
    }
}

/// The host of the active bridge, if there is one.
pub fn active_host(active: &ActiveBridge) -> (r: Option<String>)
    ensures
        r == active.host,
{
    match &active.host {
        Some(host) => Some(host.clone()),
        None => None,
    }
}

/// Begins to connect to a target through the bridge at `host`.
///
/// The target is put into its bootloader by a request to the bridge, before
/// the socket is opened, unless `before` asks for neither a reset nor a
/// synchronisation. What `after` asks for is kept for the end of the
/// connection.
pub fn connect<S>(
    host: &str,
    before: ResetBeforeOperation,
    after: ResetAfterOperation,
) -> (r: ConnectStep<S>)
    ensures
        r@ == connect_start::<S>(TargetView { host: host@, before, after }),
        before != ResetBeforeOperation::NoResetNoSync ==> {
            &&& r matches ConnectStep::HttpPort(query)
            &&& query.target.host@ == host@
            &&& query.target.before == before
            &&& query.target.after == after
            &&& query.post.host@ == host@
            &&& query.post.path@ == "/enter-bootloader"@
            &&& query.post.port.variable@ == "ESPBRIDGE_HTTP_PORT"@
            &&& query.post.port.default == 80
        },
        before == ResetBeforeOperation::NoResetNoSync ==> {
            &&& r matches ConnectStep::FlashPort(query)
            &&& query.target.host@ == host@
            &&& query.target.before == before
            &&& query.target.after == after
            &&& query.port.variable@ == "ESPBRIDGE_FLASH_PORT"@
            &&& query.port.default == 3333
        },
{
    let target: Target = Target { host: host.to_owned(), before, after };
    if before != ResetBeforeOperation::NoResetNoSync {
        let post: PostQuery = http_post(host, ENTER_BOOTLOADER_PATH);
        ConnectStep::HttpPort(HttpPortQuery { target, post })
    } else {
        ConnectStep::FlashPort(FlashPortQuery { target, port: flash_port() })
    }
}

impl HttpPortQuery {
    /// Goes on with the value of the variable.
    pub fn answered<S>(self, setting: Option<&str>) -> (r: ConnectStep<S>)
        ensures
            r@ == StepView::<S>::EnterBootloader(
                self.target@,
                self.post@.url(crate::ports::text_view(setting)),
            ),
            r matches ConnectStep::EnterBootloader(entry) && entry.target == self.target && ({
                let port = match setting {
                    Some(text) => match crate::ports::port_value(text@) {
                        Some(port) => port,
                        None => self.post.port.default,
                    },
                    None => self.post.port.default,
                };
                entry.request.url@ == "http://"@ + self.post.host@ + ":"@ + crate::ports::decimal(
                    port as nat,
                ) + self.post.path@
            }),
    {
        let request: PostRequest = self.post.answered(setting);
        ConnectStep::EnterBootloader(BootloaderEntry { target: self.target, request })
    }
}

impl BootloaderEntry {
    /// Goes on once the request has been sent. Any response will do.
    pub fn sent<R, S>(self, outcome: Result<R, ureq::Error>) -> (r: ConnectStep<S>)
        ensures
            r@ == after_bootloader::<S>(self.target@, self.request.url@, failure(outcome)),
            match outcome {
                Ok(_) => {
                    &&& r matches ConnectStep::FlashPort(query)
                    &&& query.target == self.target
                    &&& query.port.variable@ == "ESPBRIDGE_FLASH_PORT"@
                    &&& query.port.default == 3333
                },
                Err(cause) => r == ConnectStep::<S>::Done(
                    Err(
                        ConnectError::EnterBootloader(PostError { url: self.request.url, cause }),
                    ),
                ),
            },
    {
        match self.request.sent(outcome) {
            Ok(()) => ConnectStep::FlashPort(
                FlashPortQuery { target: self.target, port: flash_port() },
            ),
            Err(error) => ConnectStep::Done(Err(ConnectError::EnterBootloader(error))),
        }
    }
}

impl FlashPortQuery {
    /// Goes on with the value of the variable.
    pub fn answered<S>(self, setting: Option<&str>) -> (r: ConnectStep<S>)
        ensures
            r@ == StepView::<S>::OpenSocket(
                self.target@,
                self.port@.port(crate::ports::text_view(setting)),
            ),
            r matches ConnectStep::OpenSocket(request) && request.target == self.target
                && request.port == (match setting {
                Some(text) => match crate::ports::port_value(text@) {
                    Some(port) => port,
                    None => self.port.default,
                },
                None => self.port.default,
            }),
    {
        let port: u16 = self.port.answered(setting);
        ConnectStep::OpenSocket(SocketRequest { target: self.target, port })
    }
}

impl SocketRequest {
    /// Ends with the connection on the socket, whose bridge becomes the active
    /// one. Where there is no socket, the active bridge stays.
    pub fn opened<S>(self, outcome: Result<S, std::io::Error>, active: &mut ActiveBridge) -> (r:
        ConnectStep<S>)
        ensures
            r@ == after_socket(self.target@, outcome),
            final(active)@ == active_after(old(active)@, r@),
            r@ !is Connected ==> *final(active) == *old(active),
            match outcome {
                Ok(stream) => {
                    &&& r matches ConnectStep::Done(Ok(connection))
                    &&& connection.serial.stream == stream
                    &&& connection.serial.host@ == self.target.host@
                    &&& connection.serial.timeout.secs == 0
                    &&& connection.serial.timeout.nanos == 0
                    &&& connection.usb_info.vid == 0
                    &&& connection.usb_info.pid == 0
                    &&& connection.usb_info.serial_number is None
                    &&& connection.usb_info.manufacturer is None
                    &&& connection.usb_info.product is None
                    &&& connection.after_operation == self.target.after
                    &&& connection.before_operation == (if self.target.before
                        == ResetBeforeOperation::NoResetNoSync {
                        ResetBeforeOperation::NoResetNoSync
                    } else {
                        ResetBeforeOperation::NoReset
                    })
                    &&& connection.baud == 115_200
                    &&& connection.bridge_host is Some
                    &&& connection.bridge_host->0@ == self.target.host@
                    &&& final(active).host is Some
                    &&& final(active).host->0@ == self.target.host@
                },
                Err(cause) => {
                    &&& r == ConnectStep::<S>::Done(Err(ConnectError::OpenSocket(cause)))
                    &&& *final(active) == *old(active)
                },
            },
    {
        match outcome {
            Ok(stream) => {
                let target: Target = self.target;
                let before_operation: ResetBeforeOperation = match target.before {
                    ResetBeforeOperation::NoResetNoSync => ResetBeforeOperation::NoResetNoSync,
                    _ => ResetBeforeOperation::NoReset,
                };
                let connection: Connection<S> = Connection {
                    serial: TcpSerialPort::new(stream, target.host.clone()),
                    usb_info: UsbPortInfo::absent(),
                    after_operation: target.after,
                    before_operation,
                    baud: BAUD,
                    bridge_host: Some(target.host.clone()),
                };
                active.host = Some(target.host);
                ConnectStep::Done(Ok(connection))
            },
            Err(cause) => ConnectStep::Done(Err(ConnectError::OpenSocket(cause))),
        }
    }
}

impl ConnectError {
    /// The message of a failed connection.
    pub open spec fn text(self) -> Seq<char> {
        match self {
            ConnectError::EnterBootloader(_) => {
                "failed to put target into bootloader mode via bridge"@
            },
            ConnectError::OpenSocket(_) => "failed to connect to bridge flashing socket"@,
        }
    }

    /// The message of a failed connection, which says how far it came.
    pub fn message(&self) -> (r: String)
        ensures
            r@ == self.text(),
            self is EnterBootloader ==> r@
                == "failed to put target into bootloader mode via bridge"@,
            self is OpenSocket ==> r@ == "failed to connect to bridge flashing socket"@,
    {
        match self {
            ConnectError::EnterBootloader(_) => {
                "failed to put target into bootloader mode via bridge".to_owned()
            },
            ConnectError::OpenSocket(_) => {
                "failed to connect to bridge flashing socket".to_owned()
            },
        }
    }
}

/// Unless neither a reset nor a synchronisation is asked for, connecting begins
/// with the bootloader request, whatever the host. Only where neither is asked
/// for does it begin with the flashing port.
pub proof fn law_connect_begins_with_the_bootloader<S>(
    host: &str,
    before: ResetBeforeOperation,
    after: ResetAfterOperation,
    r: ConnectStep<S>,
)
    requires
        call_ensures(connect::<S>, (host, before, after), r),
    ensures
        r is HttpPort <==> before != ResetBeforeOperation::NoResetNoSync,
        r is FlashPort <==> before == ResetBeforeOperation::NoResetNoSync,
        r matches ConnectStep::HttpPort(query) ==> {
            &&& query.target.host@ == host@
            &&& query.target.before == before
            &&& query.target.after == after
            &&& query.post.host@ == host@
            &&& query.post.path@ == "/enter-bootloader"@
            &&& query.post.port.variable@ == "ESPBRIDGE_HTTP_PORT"@
            &&& query.post.port.default == 80
        },
        r matches ConnectStep::FlashPort(query) ==> {
            &&& query.target.host@ == host@
            &&& query.target.before == before
            &&& query.target.after == after
            &&& query.port.variable@ == "ESPBRIDGE_FLASH_PORT"@
            &&& query.port.default == 3333
        },
{
}

/// The bootloader request of a connection goes to the whole host: to port 80
/// where the variable has no value, and to the port written in it where it
/// holds the decimal text of one.
pub proof fn law_bootloader_request_goes_to_its_endpoint<S>(
    host: &str,
    before: ResetBeforeOperation,
    after: ResetAfterOperation,
    query: HttpPortQuery,
    text: &str,
    port: u16,
    unset: ConnectStep<S>,
    set: ConnectStep<S>,
)
    requires
        call_ensures(connect::<S>, (host, before, after), ConnectStep::HttpPort(query)),
        call_ensures(HttpPortQuery::answered::<S>, (query, None), unset),
        text@ == crate::ports::decimal(port as nat),
        call_ensures(HttpPortQuery::answered::<S>, (query, Some(text)), set),
    ensures
        unset matches ConnectStep::EnterBootloader(entry) && entry.request.url@ == "http://"@
            + host@ + ":80/enter-bootloader"@ && entry.target.host@ == host@,
        set matches ConnectStep::EnterBootloader(entry) && entry.request.url@ == "http://"@ + host@
            + ":"@ + text@ + "/enter-bootloader"@ && entry.target.host@ == host@,
{
    crate::ports::law_port_text_reads_back(port, 80);
    reveal_strlit(":");
    reveal_strlit("/enter-bootloader");
    reveal_strlit(":80/enter-bootloader");
    reveal_with_fuel(crate::ports::decimal, 2);
    assert(crate::ports::decimal(80) == seq!['8', '0']);
    assert(unset->EnterBootloader_0.request.url@ == "http://"@ + host@ + ":80/enter-bootloader"@);
}

/// The flashing socket is asked for only once the bootloader request has been
/// answered. A request that failed ends the attempt with its URL and cause.
pub proof fn law_socket_follows_the_bootloader<R, S>(
    entry: BootloaderEntry,
    outcome: Result<R, ureq::Error>,
    r: ConnectStep<S>,
)
    requires
        call_ensures(BootloaderEntry::sent::<R, S>, (entry, outcome), r),
    ensures
        r is FlashPort <==> outcome is Ok,
        r is Done <==> outcome is Err,
        r matches ConnectStep::FlashPort(query) ==> query.target == entry.target
            && query.port.variable@ == "ESPBRIDGE_FLASH_PORT"@ && query.port.default == 3333,
        r matches ConnectStep::Done(end) ==> {
            &&& end matches Err(ConnectError::EnterBootloader(error))
            &&& error.url == entry.request.url
            &&& outcome == Err::<R, ureq::Error>(error.cause)
        },
{
}

/// The socket is opened to the target that was asked for, on the port that
/// answers the question.
pub proof fn law_socket_goes_to_the_flashing_port<S>(
    query: FlashPortQuery,
    setting: Option<&str>,
    port: u16,
    r: ConnectStep<S>,
)
    requires
        call_ensures(FlashPortQuery::answered::<S>, (query, setting), r),
        call_ensures(PortQuery::answered, (&query.port, setting), port),
    ensures
        r matches ConnectStep::OpenSocket(request) && request.target == query.target && request.port
            == port,
{
}

/// Whatever is asked for before, the socket is opened to the host that was
/// named, on port 3333 where the variable has no value, and what is to be done
/// before and after is kept.
pub proof fn law_every_way_leads_to_the_named_host<R, S>(
    host: &str,
    before: ResetBeforeOperation,
    after: ResetAfterOperation,
    http: HttpPortQuery,
    http_setting: Option<&str>,
    entry: BootloaderEntry,
    response: R,
    flash: FlashPortQuery,
    flash_setting: Option<&str>,
    request: SocketRequest,
)
    requires
        before != ResetBeforeOperation::NoResetNoSync ==> {
            &&& call_ensures(connect::<S>, (host, before, after), ConnectStep::HttpPort(http))
            &&& call_ensures(
                HttpPortQuery::answered::<S>,
                (http, http_setting),
                ConnectStep::EnterBootloader(entry),
            )
            &&& call_ensures(
                BootloaderEntry::sent::<R, S>,
                (entry, Ok(response)),
                ConnectStep::FlashPort(flash),
            )
        },
        before == ResetBeforeOperation::NoResetNoSync ==> call_ensures(
            connect::<S>,
            (host, before, after),
            ConnectStep::FlashPort(flash),
        ),
        call_ensures(
            FlashPortQuery::answered::<S>,
            (flash, flash_setting),
            ConnectStep::OpenSocket(request),
        ),
    ensures
        request.target.host@ == host@,
        request.target.before == before,
        request.target.after == after,
        flash_setting is None ==> request.port == 3333,
{
}

/// A connection on an opened socket is to the target: its host, its socket, its
/// reset at the end, no reset at the start, and a synchronisation unless that
/// was to be left out. No USB device is behind it and it has no timeout yet.
pub proof fn law_connection_is_to_the_target<S>(
    target: TargetView,
    outcome: Result<S, std::io::Error>,
)
    ensures
        after_socket(target, outcome) is Connected <==> outcome is Ok,
        after_socket(target, outcome) matches StepView::SocketFailed(cause) ==> outcome == Err::<
            S,
            std::io::Error,
        >(cause),
        after_socket(target, outcome) matches StepView::Connected(connection) ==> {
            &&& outcome == Ok::<S, std::io::Error>(connection.stream)
            &&& connection.port_host == target.host
            &&& connection.bridge_host == Some(target.host)
            &&& connection.after_operation == target.after
            &&& connection.before_operation == ResetBeforeOperation::NoResetNoSync <==> target.before
                == ResetBeforeOperation::NoResetNoSync
            &&& connection.before_operation == ResetBeforeOperation::NoReset <==> target.before
                != ResetBeforeOperation::NoResetNoSync
            &&& connection.baud == 115_200
            &&& connection.timeout.secs == 0
            &&& connection.timeout.nanos == 0
            &&& connection.usb_info.vid == 0
            &&& connection.usb_info.pid == 0
            &&& connection.usb_info.serial_number is None
            &&& connection.usb_info.manufacturer is None
            &&& connection.usb_info.product is None
        },
{
}

/// The active bridge is what [`active_host`] reports, whole.
pub proof fn law_active_host_is_the_one_on_record(active: &ActiveBridge, r: Option<String>)
    requires
        call_ensures(active_host, (active,), r),
    ensures
        r is Some <==> active.host is Some,
        r matches Some(host) ==> host@ == active.host->0@,
{
}

/// An opened socket ends an attempt with a connection to the target that was
/// named, and makes its host, whole, the active bridge. A socket that did not
/// open ends it with its cause, and the active bridge stays.
pub proof fn law_opened_socket_is_the_connection<S>(
    request: SocketRequest,
    outcome: Result<S, std::io::Error>,
    active: &mut ActiveBridge,
    r: ConnectStep<S>,
)
    requires
        call_ensures(SocketRequest::opened::<S>, (request, outcome, old(active)), r),
    ensures
        r is Done,
        r->Done_0 is Ok <==> outcome is Ok,
        r matches ConnectStep::Done(Ok(connection)) ==> {
            &&& outcome == Ok::<S, std::io::Error>(connection.serial.stream)
            &&& connection.serial.host@ == request.target.host@
            &&& connection.bridge_host is Some
            &&& connection.bridge_host->0@ == request.target.host@
            &&& final(active).host is Some
            &&& final(active).host->0@ == request.target.host@
            &&& connection.after_operation == request.target.after
            &&& connection.before_operation == ResetBeforeOperation::NoResetNoSync
                <==> request.target.before == ResetBeforeOperation::NoResetNoSync
            &&& connection.before_operation == ResetBeforeOperation::NoReset
                <==> request.target.before != ResetBeforeOperation::NoResetNoSync
            &&& connection.baud == 115_200
            &&& connection.serial.timeout.secs == 0
            &&& connection.serial.timeout.nanos == 0
            &&& connection.usb_info.vid == 0
            &&& connection.usb_info.pid == 0
            &&& connection.usb_info.serial_number is None
            &&& connection.usb_info.manufacturer is None
            &&& connection.usb_info.product is None
        },
        r matches ConnectStep::Done(Err(error)) ==> {
            &&& error matches ConnectError::OpenSocket(cause)
            &&& outcome == Err::<S, std::io::Error>(cause)
            &&& *final(active) == *old(active)
        },
{
}

/// The message of a failed connection says whether the bootloader or the socket
/// was in the way.
pub proof fn law_message_says_how_far_it_came(error: &ConnectError, r: String)
    requires
        call_ensures(ConnectError::message, (error,), r),
    ensures
        error is EnterBootloader ==> r@ == "failed to put target into bootloader mode via bridge"@,
        error is OpenSocket ==> r@ == "failed to connect to bridge flashing socket"@,
{
}

} // verus!
