//! Enumeration of the Human Interface Devices of a Windows host, written as
//! a protocol engine: the library decides which system call comes next and
//! what its reply means, the caller performs the call.

pub mod error;
pub mod hidsdi;
pub mod protocol;
pub mod setupapi;
pub mod util;

use crate::error::{
    describe_failure,
    failure_text,
    Failure,
    HidError,
    HidErrorView,
    Outcome,
    Query,
};
use crate::hidsdi::{
    attributes_outcome,
    get_attributes,
    get_manufacturer,
    get_product,
    get_serial_number,
    string_outcome,
    Attributes,
    ERROR_INVALID_PARAMETER,
    STRING_BUFFER_LEN,
};
use crate::protocol::{
    Action,
    ActionView,
    Reply,
    Request,
    RequestView,
    Step,
    StepView,
    NO_ACCESS,
};
use crate::setupapi::device_interface_detail_buffer::{
    allocation,
    DetailBufferView,
    DeviceInterfaceDetailBuffer,
    HEADER_SIZE,
};
use crate::setupapi::{
    detail_outcome,
    device_set_outcome,
    get_device_info_set,
    get_device_interface,
    get_device_interface_detail,
    get_device_interface_detail_size,
    get_pdo_name,
    interface_outcome,
    pdo_name_outcome,
    size_outcome,
    PDO_NAME_BUFFER_LEN,
};
use crate::util::{format_result, format_winapi_error, wide_text};
use vstd::prelude::*;

verus! {

/// An optional text as a sequence of characters.
pub open spec fn text_view(text: Option<String>) -> Option<Seq<char>> {
    match text {
        Some(text) => Some(text@),
        None => None,
    }
}

/// A device of the enumeration: its path, its identifiers, and the
/// strings and device-node data that could be had of it.
#[derive(Debug)]
pub struct HidDevice {
    pub path: String,
    pub product_id: u16,
    pub vendor_id: u16,
    pub version_number: u16,
    pub manufacturer: Option<String>,
    pub product: Option<String>,
    pub serial_number: Option<String>,
    pub dev_inst: Option<u32>,
    pub pdo_name: Option<String>,
}

/// What a device record holds.
pub struct HidDeviceView {
    pub path: Seq<char>,
    pub product_id: u16,
    pub vendor_id: u16,
    pub version_number: u16,
    pub manufacturer: Option<Seq<char>>,
    pub product: Option<Seq<char>>,
    pub serial_number: Option<Seq<char>>,
    pub dev_inst: Option<u32>,
    pub pdo_name: Option<Seq<char>>,
}

impl View for HidDevice {
    type V = HidDeviceView;

    open spec fn view(&self) -> HidDeviceView {
        HidDeviceView {
            path: self.path@,
            product_id: self.product_id,
            vendor_id: self.vendor_id,
            version_number: self.version_number,
            manufacturer: text_view(self.manufacturer),
            product: text_view(self.product),
            serial_number: text_view(self.serial_number),
            dev_inst: self.dev_inst,
            pdo_name: text_view(self.pdo_name),
        }
    }
}

/// Where an enumeration stands between two calls of `next`.
#[derive(Clone, Copy, Debug, PartialEq, Eq, Structural)]
pub enum Stage {
    /// Nothing was asked of the system yet.
    Unopened,
    /// The set is open and no device is under way.
    Idle,
    /// The reply to this question is awaited.
    Awaiting(Query),
    /// The reply to the opening of the device is awaited.
    Opening,
    /// The system's text for this failure is awaited.
    Describing(Failure),
    /// The enumeration has ended.
    Exhausted,
}

/// What is known of the device under way.
pub struct PendingView {
    pub required_size: u32,
    pub path: Seq<char>,
    pub dev_inst: u32,
    pub pdo_name: Option<Seq<char>>,
    pub attributes: Attributes,
    pub manufacturer: Option<Seq<char>>,
    pub product: Option<Seq<char>>,
}

impl PendingView {
    /// Nothing is known.
    pub open spec fn empty() -> PendingView {
        PendingView {
            required_size: 0,
            path: Seq::empty(),
            dev_inst: 0,
            pdo_name: None,
            attributes: Attributes { product_id: 0, vendor_id: 0, version_number: 0 },
            manufacturer: None,
            product: None,
        }
    }
}

/// The state of an enumeration.
pub struct IteratorView {
    /// The index in the set of the device under way, or of the next one.
    pub device_index: u32,
    pub stage: Stage,
    pub pending: PendingView,
}

/// A step that writes nothing to the log.
pub open spec fn quiet(action: ActionView) -> StepView {
    StepView { log: None, action }
}

/// The enumeration ends with `error`.
pub open spec fn fail(state: IteratorView, log: Option<Seq<char>>, error: HidErrorView) -> (
    IteratorView,
    StepView,
) {
    (IteratorView { stage: Stage::Exhausted, ..state }, StepView { log, action: ActionView::Fatal(error) })
}

/// The reply does not answer what was asked.
pub open spec fn unexpected(state: IteratorView) -> (IteratorView, StepView) {
    fail(state, None, HidErrorView::UnexpectedReply)
}

/// The next question is put to the system.
pub open spec fn ask(
    state: IteratorView,
    log: Option<Seq<char>>,
    query: Query,
    request: RequestView,
) -> (IteratorView, StepView) {
    (
        IteratorView { stage: Stage::Awaiting(query), ..state },
        StepView { log, action: ActionView::Perform(request) },
    )
}

/// A device is begun: the interface record at the current index is asked
/// for.
pub open spec fn begin(state: IteratorView) -> (IteratorView, StepView) {
    ask(state, None, Query::Interface, RequestView::EnumInterface { index: state.device_index })
}

/// A failure is to be reported: the system's text for its code is asked
/// for.
pub open spec fn describe(state: IteratorView, failure: Failure) -> (IteratorView, StepView) {
    (
        IteratorView { stage: Stage::Describing(failure), ..state },
        quiet(ActionView::Perform(RequestView::FormatMessage { error_code: failure.error_code })),
    )
}

/// The size is known: the buffer is allocated and the detail asked for.
pub open spec fn allocate(state: IteratorView, log: Option<Seq<char>>) -> (IteratorView, StepView) {
    match allocation(state.pending.required_size as usize) {
        Ok(buffer) => ask(state, log, Query::Detail, RequestView::FetchDetail { buffer }),
        Err(error) => fail(state, log, error),
    }
}

/// The device-node data is complete: the device is opened by its path.
pub open spec fn open_device(state: IteratorView, log: Option<Seq<char>>) -> (
    IteratorView,
    StepView,
) {
    (
        IteratorView { stage: Stage::Opening, ..state },
        StepView {
            log,
            action: ActionView::Perform(
                RequestView::Open { path: state.pending.path, access_mode: NO_ACCESS },
            ),
        },
    )
}

/// The manufacturer is settled: the product string is asked for.
pub open spec fn ask_product(state: IteratorView, log: Option<Seq<char>>) -> (
    IteratorView,
    StepView,
) {
    ask(state, log, Query::Product, RequestView::GetProduct { buffer_len: STRING_BUFFER_LEN })
}

/// The product is settled: the serial number is asked for.
pub open spec fn ask_serial_number(state: IteratorView, log: Option<Seq<char>>) -> (
    IteratorView,
    StepView,
) {
    ask(
        state,
        log,
        Query::SerialNumber,
        RequestView::GetSerialNumber { buffer_len: STRING_BUFFER_LEN },
    )
}

/// The record that is made of what is known of the device under way.
pub open spec fn assemble(pending: PendingView, serial_number: Option<Seq<char>>) -> HidDeviceView {
    HidDeviceView {
        path: pending.path,
        product_id: pending.attributes.product_id,
        vendor_id: pending.attributes.vendor_id,
        version_number: pending.attributes.version_number,
        manufacturer: pending.manufacturer,
        product: pending.product,
        serial_number,
        dev_inst: Some(pending.dev_inst),
        pdo_name: pending.pdo_name,
    }
}

/// The device is complete: it is handed out, and the index moves on by
/// one. Behind the last index that there is, the enumeration has ended.
pub open spec fn yield_device(
    state: IteratorView,
    serial_number: Option<Seq<char>>,
    log: Option<Seq<char>>,
) -> (IteratorView, StepView) {
    (
        if state.device_index < u32::MAX {
            IteratorView {
                device_index: (state.device_index + 1) as u32,
                stage: Stage::Idle,
                pending: PendingView::empty(),
            }
        } else {
            IteratorView {
                device_index: state.device_index,
                stage: Stage::Exhausted,
                pending: PendingView::empty(),
            }
        },
        StepView { log, action: ActionView::Yield(assemble(state.pending, serial_number)) },
    )
}

/// The enumeration goes on behind a failure that `log` reports: the
/// property that was asked for is absent.
pub open spec fn resume(state: IteratorView, query: Query, log: Option<Seq<char>>) -> (
    IteratorView,
    StepView,
) {
    match query {
        Query::DetailSize => allocate(state, log),
        Query::PdoName => open_device(
            IteratorView { pending: PendingView { pdo_name: None, ..state.pending }, ..state },
            log,
        ),
        Query::Manufacturer => ask_product(
            IteratorView { pending: PendingView { manufacturer: None, ..state.pending }, ..state },
            log,
        ),
        Query::Product => ask_serial_number(
            IteratorView { pending: PendingView { product: None, ..state.pending }, ..state },
            log,
        ),
        Query::SerialNumber => yield_device(state, None, log),
        _ => unexpected(state),
    }
}

/// The text for a failure has come, or not. Without a text the
/// enumeration ends; so it does where the question that failed is one
/// that it cannot go on without. Else the failure is reported and the
/// enumeration goes on.
pub open spec fn report(state: IteratorView, failure: Failure, reply: Result<Vec<u16>, u32>) -> (
    IteratorView,
    StepView,
) {
    match format_result(failure.error_code, reply) {
        Err(error) => fail(state, None, error),
        Ok(message) => if failure.query.is_fatal() {
            fail(
                state,
                None,
                HidErrorView::Api {
                    query: failure.query,
                    error_code: failure.error_code,
                    message,
                },
            )
        } else {
            resume(
                state,
                failure.query,
                Some(failure_text(failure.query, message, failure.error_code)),
            )
        },
    }
}

/// What the reply to a question comes to.
pub open spec fn answer(state: IteratorView, query: Query, reply: Reply) -> (IteratorView, StepView) {
    match (query, reply) {
        (Query::DeviceSet, Reply::DeviceSet(opened)) => match device_set_outcome(opened) {
            Outcome::Settled(_) => begin(state),
            Outcome::Failed(failure) => describe(state, failure),
        },
        (Query::Interface, Reply::Interface(written)) => match interface_outcome(written) {
            Outcome::Settled(true) => ask(
                state,
                None,
                Query::DetailSize,
                RequestView::ProbeDetailSize,
            ),
            Outcome::Settled(false) => (
                IteratorView { stage: Stage::Exhausted, ..state },
                quiet(ActionView::Finished),
            ),
            Outcome::Failed(failure) => describe(state, failure),
        },
        (Query::DetailSize, Reply::DetailSize { status, required_size }) => {
            let sized = IteratorView {
                pending: PendingView { required_size, ..state.pending },
                ..state
            };
            match size_outcome(status) {
                Outcome::Settled(log) => allocate(sized, log),
                Outcome::Failed(failure) => describe(sized, failure),
            }
        },
        (Query::Detail, Reply::Detail { dev_inst, buffer }) => match detail_outcome(
            dev_inst,
            buffer@,
        ) {
            Outcome::Settled(detail) => ask(
                IteratorView {
                    pending: PendingView {
                        path: detail.path,
                        dev_inst: detail.dev_inst,
                        ..state.pending
                    },
                    ..state
                },
                None,
                Query::PdoName,
                RequestView::FetchPdoName {
                    dev_inst: detail.dev_inst,
                    buffer_len: PDO_NAME_BUFFER_LEN,
                },
            ),
            Outcome::Failed(failure) => describe(state, failure),
        },
        (Query::PdoName, Reply::PdoName(name)) => match pdo_name_outcome(name) {
            Outcome::Settled(pdo_name) => open_device(
                IteratorView { pending: PendingView { pdo_name, ..state.pending }, ..state },
                None,
            ),
            Outcome::Failed(failure) => describe(state, failure),
        },
        (Query::Attributes, Reply::Attributes(written)) => match attributes_outcome(written) {
            Outcome::Settled(attributes) => ask(
                IteratorView { pending: PendingView { attributes, ..state.pending }, ..state },
                None,
                Query::Manufacturer,
                RequestView::GetManufacturer { buffer_len: STRING_BUFFER_LEN },
            ),
            Outcome::Failed(failure) => describe(state, failure),
        },
        (Query::Manufacturer, Reply::Text(text)) => match string_outcome(query, text) {
            Outcome::Settled(manufacturer) => ask_product(
                IteratorView { pending: PendingView { manufacturer, ..state.pending }, ..state },
                None,
            ),
            Outcome::Failed(failure) => describe(state, failure),
        },
        (Query::Product, Reply::Text(text)) => match string_outcome(query, text) {
            Outcome::Settled(product) => ask_serial_number(
                IteratorView { pending: PendingView { product, ..state.pending }, ..state },
                None,
            ),
            Outcome::Failed(failure) => describe(state, failure),
        },
        (Query::SerialNumber, Reply::Text(text)) => match string_outcome(query, text) {
            Outcome::Settled(serial_number) => yield_device(state, serial_number, None),
            Outcome::Failed(failure) => describe(state, failure),
        },
        _ => unexpected(state),
    }
}

/// One step of the enumeration: from its state and the reply that the
/// caller hands in, to its next state and what the caller is to do.
pub open spec fn transition(state: IteratorView, reply: Reply) -> (IteratorView, StepView) {
    match state.stage {
        Stage::Exhausted => (state, quiet(ActionView::Finished)),
        Stage::Unopened => match reply {
            Reply::Ready => ask(state, None, Query::DeviceSet, RequestView::OpenDeviceSet),
            _ => unexpected(state),
        },
        Stage::Idle => match reply {
            Reply::Ready => begin(state),
            _ => unexpected(state),
        },
        Stage::Awaiting(query) => answer(state, query, reply),
        Stage::Opening => match reply {
            Reply::Opened(true) => ask(state, None, Query::Attributes, RequestView::GetAttributes),
            Reply::Opened(false) => fail(
                state,
                None,
                HidErrorView::Open { path: state.pending.path },
            ),
            _ => unexpected(state),
        },
        Stage::Describing(failure) => match reply {
            Reply::Message(message) => report(state, failure, message),
            _ => unexpected(state),
        },
    }
}

/// The state after the replies of `replies`, handed in one after another.
pub open spec fn after(state: IteratorView, replies: Seq<Reply>) -> IteratorView
    decreases replies.len(),
{
    if replies.len() == 0 {
        state
    } else {
        after(transition(state, replies[0]).0, replies.skip(1))
    }
}

/// An enumeration that has ended stays as it is, and answers whatever is
/// handed to it with `Finished`.
pub proof fn lemma_exhaustion_is_final(state: IteratorView, replies: Seq<Reply>, reply: Reply)
    requires
        state.stage == Stage::Exhausted,
    ensures
        after(state, replies) == state,
        transition(after(state, replies), reply) == (state, quiet(ActionView::Finished)),
    decreases replies.len(),
{
    if replies.len() > 0 {
        lemma_exhaustion_is_final(state, replies.skip(1), reply);
    }
}

/// An enumeration has ended when it says `Finished` and when it fails.
pub proof fn lemma_end_is_exhaustion(state: IteratorView, reply: Reply)
    ensures
        transition(state, reply).1.action is Finished ==> transition(state, reply).0.stage
            == Stage::Exhausted,
        transition(state, reply).1.action is Fatal ==> transition(state, reply).0.stage
            == Stage::Exhausted,
{
}

/// Once an enumeration has said `Finished`, or has failed, every later
/// step says `Finished`, whatever is handed to it.
pub proof fn lemma_finished_stays_finished(
    state: IteratorView,
    reply: Reply,
    later: Seq<Reply>,
    last: Reply,
)
    requires
        transition(state, reply).1.action is Finished || transition(state, reply).1.action is Fatal,
    ensures
        transition(after(transition(state, reply).0, later), last).1 == quiet(ActionView::Finished),
{
    lemma_end_is_exhaustion(state, reply);
    lemma_exhaustion_is_final(transition(state, reply).0, later, last);
}

/// The set is opened once: the request to open it is the first of an
/// enumeration, and no step leads back to where it is made.
pub proof fn lemma_set_is_opened_once(state: IteratorView, reply: Reply)
    ensures
        transition(initial(), Reply::Ready).1 == quiet(
            ActionView::Perform(RequestView::OpenDeviceSet),
        ),
        transition(state, reply).1.action == ActionView::Perform(RequestView::OpenDeviceSet)
            ==> state.stage == Stage::Unopened,
        transition(state, reply).0.stage != Stage::Unopened,
{
}

/// The buffer of every detail query is tagged with the size of the fixed
/// part, whatever size was probed, and has the size that was probed.
pub proof fn lemma_detail_buffer_is_tagged(state: IteratorView, reply: Reply)
    ensures
        transition(state, reply).1.action matches ActionView::Perform(
            RequestView::FetchDetail { buffer },
        ) ==> {
            &&& buffer.well_formed()
            &&& buffer.size_tag == HEADER_SIZE
            &&& buffer.required_size == transition(state, reply).0.pending.required_size
            &&& buffer == DetailBufferView::allocated(buffer.required_size)
        },
{
}

/// The index moves on by one with each device that is handed out, and
/// with nothing else; the interface record that is asked for is the one at
/// the index.
pub proof fn lemma_index_counts_devices(state: IteratorView, reply: Reply)
    ensures
        transition(state, reply).1.action is Yield ==> {
            ||| transition(state, reply).0.device_index == state.device_index + 1
            ||| state.device_index == u32::MAX && transition(state, reply).0.stage
                == Stage::Exhausted
        },
        !(transition(state, reply).1.action is Yield) ==> transition(state, reply).0.device_index
            == state.device_index,
        transition(state, reply).1.action matches ActionView::Perform(
            RequestView::EnumInterface { index },
        ) ==> index == state.device_index,
{
}

/// A serial number that is absent with the code `ERROR_INVALID_PARAMETER`
/// is not reported: the device is handed out at once, without a line for
/// the log. With any other code the text for the code is asked for, and
/// the device is handed out with the line that reports the failure.
pub proof fn lemma_serial_number_absence(
    state: IteratorView,
    error_code: u32,
    message: Vec<u16>,
)
    requires
        state.stage == Stage::Awaiting(Query::SerialNumber),
    ensures
        error_code == ERROR_INVALID_PARAMETER ==> transition(
            state,
            Reply::Text(Err(error_code)),
        ).1 == quiet(ActionView::Yield(assemble(state.pending, None))),
        error_code != ERROR_INVALID_PARAMETER ==> {
            &&& transition(state, Reply::Text(Err(error_code))).1 == quiet(
                ActionView::Perform(RequestView::FormatMessage { error_code }),
            )
            &&& transition(
                transition(state, Reply::Text(Err(error_code))).0,
                Reply::Message(Ok(message)),
            ).1 == (StepView {
                log: Some(failure_text(Query::SerialNumber, wide_text(message@), error_code)),
                action: ActionView::Yield(assemble(state.pending, None)),
            })
        },
{
}

/// Whether `query` asks an open device for one of its strings.
pub open spec fn asks_string(query: Query) -> bool {
    query == Query::Manufacturer || query == Query::Product || query == Query::SerialNumber
}

/// A string query that fails does not end the enumeration. But for the
/// serial number that a device does not have, the text for the error
/// code is asked for; when it has come, the failure is reported by a line
/// for the log, the string is absent, and the enumeration goes on with
/// what it knew of the device: to the next string, or to the record.
pub proof fn lemma_string_failure_is_reported(
    state: IteratorView,
    query: Query,
    error_code: u32,
    message: Vec<u16>,
)
    requires
        state.stage == Stage::Awaiting(query),
        asks_string(query),
        !(query == Query::SerialNumber && error_code == ERROR_INVALID_PARAMETER),
    ensures
        ({
            let (asked, first) = transition(state, Reply::Text(Err(error_code)));
            let (next, second) = transition(asked, Reply::Message(Ok(message)));
            &&& first == quiet(ActionView::Perform(RequestView::FormatMessage { error_code }))
            &&& asked.pending == state.pending
            &&& second.log == Some(failure_text(query, wide_text(message@), error_code))
            &&& match query {
                Query::Manufacturer => {
                    &&& second.action == ActionView::Perform(
                        RequestView::GetProduct { buffer_len: STRING_BUFFER_LEN },
                    )
                    &&& next.pending == (PendingView { manufacturer: None, ..state.pending })
                },
                Query::Product => {
                    &&& second.action == ActionView::Perform(
                        RequestView::GetSerialNumber { buffer_len: STRING_BUFFER_LEN },
                    )
                    &&& next.pending == (PendingView { product: None, ..state.pending })
                },
                _ => second.action == ActionView::Yield(assemble(state.pending, None)),
            }
        }),
{
}

/// Whether `query` is put to a device that was opened.
pub open spec fn after_opening(query: Query) -> bool {
    query == Query::Attributes || query == Query::Manufacturer || query == Query::Product || query
        == Query::SerialNumber
}

/// Whether the device under way was opened.
pub open spec fn is_open(stage: Stage) -> bool {
    match stage {
        Stage::Awaiting(query) => after_opening(query),
        Stage::Describing(failure) => after_opening(failure.query),
        _ => false,
    }
}

/// Whether the path of the device under way was handed out to be opened.
pub open spec fn has_path(stage: Stage) -> bool {
    stage == Stage::Opening || is_open(stage)
}

/// The path under which a device is opened is the path of the record that
/// is handed out for it. From the request to open it, the path of the
/// device under way does not change; the device counts as open only when
/// the caller says that it was opened; and only a device that is open is
/// handed out.
pub proof fn lemma_path_is_kept(state: IteratorView, reply: Reply)
    ensures
        transition(state, reply).1.action matches ActionView::Perform(
            RequestView::Open { path, access_mode },
        ) ==> {
            &&& transition(state, reply).0.stage == Stage::Opening
            &&& transition(state, reply).0.pending.path == path
            &&& access_mode == NO_ACCESS
        },
        has_path(state.stage) && has_path(transition(state, reply).0.stage) ==> transition(
            state,
            reply,
        ).0.pending.path == state.pending.path,
        !is_open(state.stage) && is_open(transition(state, reply).0.stage) ==> state.stage
            == Stage::Opening && reply == Reply::Opened(true),
        transition(state, reply).1.action matches ActionView::Yield(device) ==> is_open(
            state.stage,
        ) && device.path == state.pending.path,
{
}

/// What is known of the device under way.
#[derive(Debug)]
struct Pending {
    required_size: u32,
    path: String,
    dev_inst: u32,
    pdo_name: Option<String>,
    attributes: Attributes,
    manufacturer: Option<String>,
    product: Option<String>,
}

impl View for Pending {
    type V = PendingView;

    closed spec fn view(&self) -> PendingView {
        PendingView {
            required_size: self.required_size,
            path: self.path@,
            dev_inst: self.dev_inst,
            pdo_name: text_view(self.pdo_name),
            attributes: self.attributes,
            manufacturer: text_view(self.manufacturer),
            product: text_view(self.product),
        }
    }
}

impl Pending {
    fn new() -> (pending: Pending)
        ensures
            pending@ == PendingView::empty(),
    {
        Pending {
            required_size: 0,
            path: String::new(),
            dev_inst: 0,
            pdo_name: None,
            attributes: Attributes { product_id: 0, vendor_id: 0, version_number: 0 },
            manufacturer: None,
            product: None,
        }
    }
}

/// An enumeration of the HID interfaces that are present. It is walked
/// once, in the order of the indices of the device-information set, and
/// does not start again when it has ended.
#[derive(Debug)]
pub struct HidDeviceIterator {
    device_index: u32,
    stage: Stage,
    pending: Pending,
}

impl View for HidDeviceIterator {
    type V = IteratorView;

    closed spec fn view(&self) -> IteratorView {
        IteratorView {
            device_index: self.device_index,
            stage: self.stage,
            pending: self.pending@,
        }
    }
}

/// The state in which an enumeration is made: nothing was asked of the
/// system, and the first device has the index 0.
pub open spec fn initial() -> IteratorView {
    IteratorView { device_index: 0, stage: Stage::Unopened, pending: PendingView::empty() }
}

/// A new enumeration. Its first request opens the device-information set.
pub fn hid_devices() -> (devices: HidDeviceIterator)
    ensures
        devices@ == initial(),
{
    HidDeviceIterator { device_index: 0, stage: Stage::Unopened, pending: Pending::new() }
}

impl HidDeviceIterator {
    /// The index in the set of the device under way, or of the next one.
    pub fn device_index(&self) -> (index: u32)
        ensures
            index == self@.device_index,
    {
        self.device_index
    }

    /// Where the enumeration stands.
    pub fn stage(&self) -> (stage: Stage)
        ensures
            stage == self@.stage,
    {
        self.stage
    }

    fn fail(&mut self, log: Option<String>, error: HidError) -> (step: Step)
        ensures
            (final(self)@, step@) == fail(old(self)@, text_view(log), error@),
    {
        self.stage = Stage::Exhausted;
        Step { log, action: Action::Fatal(error) }
    }

    fn unexpected(&mut self) -> (step: Step)
        ensures
            (final(self)@, step@) == unexpected(old(self)@),
    {
        self.fail(None, HidError::UnexpectedReply)
    }

    fn ask(&mut self, log: Option<String>, query: Query, request: Request) -> (step: Step)
        ensures
            (final(self)@, step@) == ask(old(self)@, text_view(log), query, request@),
    {
        self.stage = Stage::Awaiting(query);
        Step { log, action: Action::Perform(request) }
    }

    fn begin(&mut self) -> (step: Step)
        ensures
            (final(self)@, step@) == begin(old(self)@),
    {
        let index: u32 = self.device_index;
        self.ask(None, Query::Interface, Request::EnumInterface { index })
    }

    fn describe(&mut self, failure: Failure) -> (step: Step)
        ensures
            (final(self)@, step@) == describe(old(self)@, failure),
    {
        self.stage = Stage::Describing(failure);
        Step {
            log: None,
            action: Action::Perform(Request::FormatMessage { error_code: failure.error_code }),
        }
    }

    fn allocate(&mut self, log: Option<String>) -> (step: Step)
        ensures
            (final(self)@, step@) == allocate(old(self)@, text_view(log)),
    {
        match DeviceInterfaceDetailBuffer::new(self.pending.required_size as usize) {
            Ok(buffer) => self.ask(log, Query::Detail, Request::FetchDetail { buffer }),
            Err(error) => self.fail(log, error),
        }
    }

    fn open_device(&mut self, log: Option<String>) -> (step: Step)
        ensures
            (final(self)@, step@) == open_device(old(self)@, text_view(log)),
    {
        self.stage = Stage::Opening;
        Step {
            log,
            action: Action::Perform(
                Request::Open { path: self.pending.path.clone(), access_mode: NO_ACCESS },
            ),
        }
    }

    fn ask_product(&mut self, log: Option<String>) -> (step: Step)
        ensures
            (final(self)@, step@) == ask_product(old(self)@, text_view(log)),
    {
        self.ask(log, Query::Product, Request::GetProduct { buffer_len: STRING_BUFFER_LEN })
    }

    fn ask_serial_number(&mut self, log: Option<String>) -> (step: Step)
        ensures
            (final(self)@, step@) == ask_serial_number(old(self)@, text_view(log)),
    {
        self.ask(
            log,
            Query::SerialNumber,
            Request::GetSerialNumber { buffer_len: STRING_BUFFER_LEN },
        )
    }

    fn yield_device(&mut self, serial_number: Option<String>, log: Option<String>) -> (step: Step)
        ensures
            (final(self)@, step@) == yield_device(
                old(self)@,
                text_view(serial_number),
                text_view(log),
            ),
    {
        let mut pending = Pending::new();
        core::mem::swap(&mut pending, &mut self.pending);
        let device = HidDevice {
            path: pending.path,
            product_id: pending.attributes.product_id,
            vendor_id: pending.attributes.vendor_id,
            version_number: pending.attributes.version_number,
            manufacturer: pending.manufacturer,
            product: pending.product,
            serial_number,
            dev_inst: Some(pending.dev_inst),
            pdo_name: pending.pdo_name,
        };
        if self.device_index < u32::MAX {
            self.device_index = self.device_index + 1;
            self.stage = Stage::Idle;
        } else {
            self.stage = Stage::Exhausted;
        }
        Step { log, action: Action::Yield(device) }
    }

    fn resume(&mut self, query: Query, log: Option<String>) -> (step: Step)
        ensures
            (final(self)@, step@) == resume(old(self)@, query, text_view(log)),
    {
        match query {
            Query::DetailSize => self.allocate(log),
            Query::PdoName => {
                self.pending.pdo_name = None;
                self.open_device(log)
            },
            Query::Manufacturer => {
                self.pending.manufacturer = None;
                self.ask_product(log)
            },
            Query::Product => {
                self.pending.product = None;
                self.ask_serial_number(log)
            },
            Query::SerialNumber => self.yield_device(None, log),
            _ => self.unexpected(),
        }
    }

    fn report(&mut self, failure: Failure, reply: Result<Vec<u16>, u32>) -> (step: Step)
        ensures
            (final(self)@, step@) == report(old(self)@, failure, reply),
    {
        match format_winapi_error(failure.error_code, &reply) {
            Err(error) => self.fail(None, error),
            Ok(message) => {
                if failure.query.fatal() {
                    self.fail(
                        None,
                        HidError::Api {
                            query: failure.query,
                            error_code: failure.error_code,
                            message,
                        },
                    )
                } else {
                    let line = describe_failure(
                        failure.query,
                        message.as_str(),
                        failure.error_code,
                    );
                    self.resume(failure.query, Some(line))
                }
            },
        }
    }

    fn answer(&mut self, query: Query, reply: Reply) -> (step: Step)
        ensures
            (final(self)@, step@) == answer(old(self)@, query, reply),
    {
        match (query, reply) {
            (Query::DeviceSet, Reply::DeviceSet(opened)) => match get_device_info_set(opened) {
                Outcome::Settled(_) => self.begin(),
                Outcome::Failed(failure) => self.describe(failure),
            },
            (Query::Interface, Reply::Interface(written)) => match get_device_interface(written) {
                Outcome::Settled(true) => self.ask(
                    None,
                    Query::DetailSize,
                    Request::ProbeDetailSize,
                ),
                Outcome::Settled(false) => {
                    self.stage = Stage::Exhausted;
                    Step { log: None, action: Action::Finished }
                },
                Outcome::Failed(failure) => self.describe(failure),
            },
            (Query::DetailSize, Reply::DetailSize { status, required_size }) => {
                self.pending.required_size = required_size;
                match get_device_interface_detail_size(status) {
                    Outcome::Settled(log) => self.allocate(log),
                    Outcome::Failed(failure) => self.describe(failure),
                }
            },
            (Query::Detail, Reply::Detail { dev_inst, buffer }) => {
                match get_device_interface_detail(dev_inst, &buffer) {
                    Outcome::Settled(detail) => {
                        self.pending.path = detail.path;
                        self.pending.dev_inst = detail.dev_inst;
                        self.ask(
                            None,
                            Query::PdoName,
                            Request::FetchPdoName {
                                dev_inst: detail.dev_inst,
                                buffer_len: PDO_NAME_BUFFER_LEN,
                            },
                        )
                    },
                    Outcome::Failed(failure) => self.describe(failure),
                }
            },
            (Query::PdoName, Reply::PdoName(name)) => match get_pdo_name(&name) {
                Outcome::Settled(pdo_name) => {
                    self.pending.pdo_name = pdo_name;
                    self.open_device(None)
                },
                Outcome::Failed(failure) => self.describe(failure),
            },
            (Query::Attributes, Reply::Attributes(written)) => match get_attributes(written) {
                Outcome::Settled(attributes) => {
                    self.pending.attributes = attributes;
                    self.ask(
                        None,
                        Query::Manufacturer,
                        Request::GetManufacturer { buffer_len: STRING_BUFFER_LEN },
                    )
                },
                Outcome::Failed(failure) => self.describe(failure),
            },
            (Query::Manufacturer, Reply::Text(text)) => match get_manufacturer(&text) {
                Outcome::Settled(manufacturer) => {
                    self.pending.manufacturer = manufacturer;
                    self.ask_product(None)
                },
                Outcome::Failed(failure) => self.describe(failure),
            },
            (Query::Product, Reply::Text(text)) => match get_product(&text) {
                Outcome::Settled(product) => {
                    self.pending.product = product;
                    self.ask_serial_number(None)
                },
                Outcome::Failed(failure) => self.describe(failure),
            },
            (Query::SerialNumber, Reply::Text(text)) => match get_serial_number(&text) {
                Outcome::Settled(serial_number) => self.yield_device(serial_number, None),
                Outcome::Failed(failure) => self.describe(failure),
            },
            _ => self.unexpected(),
        }
    }

    /// One step of the enumeration. `reply` is `Reply::Ready` where the
    /// step before handed out a device or was the making of the
    /// enumeration, and else the reply to the request of the step before.
    /// The caller goes on as the action says: it performs the request and
    /// calls `next` with its reply, takes the device, or stops. A line for
    /// the log may come with any of these.
    pub fn next(&mut self, reply: Reply) -> (step: Step)
        ensures
            (final(self)@, step@) == transition(old(self)@, reply),
    {
        match self.stage {
            Stage::Exhausted => Step { log: None, action: Action::Finished },
            Stage::Unopened => match reply {
                Reply::Ready => self.ask(None, Query::DeviceSet, Request::OpenDeviceSet),
                _ => self.unexpected(),
            },
            Stage::Idle => match reply {
                Reply::Ready => self.begin(),
                _ => self.unexpected(),
            },
            Stage::Awaiting(query) => self.answer(query, reply),
            Stage::Opening => match reply {
                Reply::Opened(true) => self.ask(None, Query::Attributes, Request::GetAttributes),
                Reply::Opened(false) => {
                    let path = self.pending.path.clone();
                    self.fail(None, HidError::Open { path })
                },
                _ => self.unexpected(),
            },
            Stage::Describing(failure) => match reply {
                Reply::Message(message) => self.report(failure, message),
                _ => self.unexpected(),
            },
        }
    }
}

} // verus!
