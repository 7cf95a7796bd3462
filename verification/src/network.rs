//! Best-effort operating-system metered-network detection.
//!
//! Detection is deliberately tri-state. Callers may defer automatic network work when
//! [`MeteredNetworkState::Metered`] is reported, but must not treat an unknown result as
//! proof that the current network is unmetered.

use vstd::prelude::*;
use vstd::string::*;
use vstd::utf8::*;

use crate::text::{
    chars_of, decimal, find_char, is_digit, is_white_space, law_decimal_round_trip, lemma_decimal,
    parse_unsigned, position_of, same_text,
    text_of, trim, trim_start, trimmed, unsigned_value,
};
use crate::wire::{to_vec, utf8_text};

verus! {

/// Whether the operating system reports the current active network as metered.
#[derive(Clone, Copy, Debug, PartialEq, Eq, Structural)]
pub enum MeteredNetworkState {
    /// Every relevant active connection reports a metered cost.
    Metered,
    /// Every relevant active connection reports an unmetered cost.
    Unmetered,
    /// No reliable single cost could be determined.
    Unknown,
}

/// How a metered-network probe reached its result.
#[derive(Clone, Copy, Debug, PartialEq, Eq, Structural)]
pub enum MeteredNetworkProbeOutcome {
    /// The operating system reported one consistent cost for active connections.
    Reported,
    /// The operating system could not determine the cost or no connection was active.
    Indeterminate,
    /// Relevant active connections had conflicting or partially unknown costs.
    Ambiguous,
    /// This target has no implemented reliable detection mechanism.
    Unsupported,
    /// The operating-system query utility was not available.
    CommandUnavailable,
    /// The operating-system query exceeded its execution deadline.
    TimedOut,
    /// The operating-system query could not start, run, or exit successfully.
    CommandFailed,
    /// The query produced malformed, non-UTF-8, or excessive output.
    InvalidOutput,
}

/// Fail-visible result of a metered-network probe.
#[derive(Clone, Copy, Debug, PartialEq, Eq, Structural)]
pub struct MeteredNetworkStatus {
    /// Policy-facing tri-state network cost.
    pub state: MeteredNetworkState,
    /// Probe outcome that explains whether `state` is authoritative.
    pub outcome: MeteredNetworkProbeOutcome,
}

/// A status without a cost.
pub open spec fn unknown_status(outcome: MeteredNetworkProbeOutcome) -> MeteredNetworkStatus {
    MeteredNetworkStatus { state: MeteredNetworkState::Unknown, outcome }
}

/// A status with a cost.
pub open spec fn reported_status(state: MeteredNetworkState) -> MeteredNetworkStatus {
    MeteredNetworkStatus { state, outcome: MeteredNetworkProbeOutcome::Reported }
}

impl MeteredNetworkStatus {
    /// A status without a cost.
    pub fn unknown(outcome: MeteredNetworkProbeOutcome) -> (status: Self)
        ensures
            status == unknown_status(outcome),
    {
        MeteredNetworkStatus { state: MeteredNetworkState::Unknown, outcome }
    }
}

/// The cost that one device reports.
#[derive(Clone, Copy, Debug, PartialEq, Eq, Structural)]
pub enum ReportedCost {
    Metered,
    Unmetered,
    Unknown,
}

/// What was read of one device.
#[derive(Clone, Copy, Debug, PartialEq, Eq, Structural)]
pub struct DeviceReport {
    pub state: Option<u32>,
    pub cost: Option<ReportedCost>,
}

/// A connected device has this state.
pub const CONNECTED_STATE: u32 = 100;

/// Largest accepted output of the query utility in bytes.
pub const MAX_OUTPUT_BYTES: usize = 65_536;

pub open spec fn no_report() -> DeviceReport {
    DeviceReport { state: None, cost: None }
}

/// Devices read so far and the one being read.
pub struct ReportView {
    pub devices: Seq<DeviceReport>,
    pub device: DeviceReport,
    pub has_fields: bool,
}

/// The first line of a text, without its line ending.
pub open spec fn first_line(text: Seq<char>) -> Seq<char> {
    let end = position_of(text, '\n');
    if end < text.len() && end > 0 && text[end - 1] == '\r' {
        text.take(end - 1)
    } else {
        text.take(end)
    }
}

/// What follows the first line of a text.
pub open spec fn after_first_line(text: Seq<char>) -> Seq<char> {
    let end = position_of(text, '\n');
    if end < text.len() {
        text.skip(end + 1)
    } else {
        Seq::empty()
    }
}

/// The number of digits at the front of a text.
pub open spec fn digit_run(text: Seq<char>) -> int
    decreases text.len(),
{
    if text.len() > 0 && is_digit(text[0]) {
        1 + digit_run(text.drop_first())
    } else {
        0
    }
}

/// The number at the front of a state value, after white space.
pub open spec fn state_number(value: Seq<char>) -> Option<u32> {
    let text = trim_start(value);
    match unsigned_value(text.take(digit_run(text)), u32::MAX as nat) {
        Some(number) => Some(number as u32),
        None => None,
    }
}

/// The cost that a value names.
pub open spec fn named_cost(value: Seq<char>) -> Option<ReportedCost> {
    let name = trimmed(value);
    if name == "yes"@ || name == "guess-yes"@ {
        Some(ReportedCost::Metered)
    } else if name == "no"@ || name == "guess-no"@ {
        Some(ReportedCost::Unmetered)
    } else if name == "unknown"@ {
        Some(ReportedCost::Unknown)
    } else {
        None
    }
}

/// The report after one line; `None` where the line has no place in it.
pub open spec fn report_line(report: ReportView, line: Seq<char>) -> Option<ReportView> {
    let colon = position_of(line, ':');
    let field = line.take(colon);
    let value = line.skip(colon + 1);
    if line.len() == 0 {
        if report.has_fields {
            Some(
                ReportView {
                    devices: report.devices.push(report.device),
                    device: no_report(),
                    has_fields: false,
                },
            )
        } else {
            Some(report)
        }
    } else if colon >= line.len() {
        None
    } else if field == "GENERAL.STATE"@ {
        let begun = if report.device.state is Some {
            ReportView {
                devices: if report.has_fields {
                    report.devices.push(report.device)
                } else {
                    report.devices
                },
                device: no_report(),
                ..report
            }
        } else {
            report
        };
        match state_number(value) {
            None => None,
            Some(number) => Some(
                ReportView {
                    device: DeviceReport { state: Some(number), ..begun.device },
                    has_fields: true,
                    ..begun
                },
            ),
        }
    } else if field == "GENERAL.METERED"@ {
        if report.device.cost is Some {
            None
        } else {
            match named_cost(value) {
                None => None,
                Some(cost) => Some(
                    ReportView {
                        device: DeviceReport { cost: Some(cost), ..report.device },
                        has_fields: true,
                        ..report
                    },
                ),
            }
        }
    } else {
        None
    }
}

/// The report after every line of a text.
pub open spec fn report_text(report: ReportView, text: Seq<char>) -> Option<ReportView>
    decreases text.len(),
{
    if text.len() == 0 {
        Some(report)
    } else {
        match report_line(report, first_line(text)) {
            None => None,
            Some(next) => if after_first_line(text).len() < text.len() {
                report_text(next, after_first_line(text))
            } else {
                None
            },
        }
    }
}

/// The devices of a report, with the one being read.
pub open spec fn reported_devices(report: ReportView) -> Seq<DeviceReport> {
    if report.has_fields {
        report.devices.push(report.device)
    } else {
        report.devices
    }
}

/// The devices that a query output describes.
pub open spec fn output_devices(output: Seq<char>) -> Option<Seq<DeviceReport>> {
    match report_text(
        ReportView { devices: Seq::empty(), device: no_report(), has_fields: false },
        output,
    ) {
        Some(report) => Some(reported_devices(report)),
        None => None,
    }
}

/// Every device reports both its state and its cost.
pub open spec fn complete(devices: Seq<DeviceReport>) -> bool {
    forall|i: int|
        0 <= i < devices.len() ==> (#[trigger] devices[i]).state is Some && devices[i].cost is Some
}

/// Some connected device reports this cost.
pub open spec fn active_cost(devices: Seq<DeviceReport>, cost: ReportedCost) -> bool {
    exists|i: int|
        0 <= i < devices.len() && (#[trigger] devices[i]).state == Some(CONNECTED_STATE)
            && devices[i].cost == Some(cost)
}

/// The status that a list of devices amounts to.
pub open spec fn devices_status(devices: Seq<DeviceReport>) -> MeteredNetworkStatus {
    let metered = active_cost(devices, ReportedCost::Metered);
    let unmetered = active_cost(devices, ReportedCost::Unmetered);
    if !metered && !unmetered {
        unknown_status(MeteredNetworkProbeOutcome::Indeterminate)
    } else if active_cost(devices, ReportedCost::Unknown) || (metered && unmetered) {
        unknown_status(MeteredNetworkProbeOutcome::Ambiguous)
    } else if metered {
        reported_status(MeteredNetworkState::Metered)
    } else {
        reported_status(MeteredNetworkState::Unmetered)
    }
}

/// The status that a query output describes; `None` where it is malformed.
pub open spec fn output_status(output: Seq<char>) -> Option<MeteredNetworkStatus> {
    match output_devices(output) {
        Some(devices) => if complete(devices) {
            Some(devices_status(devices))
        } else {
            None
        },
        None => None,
    }
}

struct Report {
    devices: Vec<DeviceReport>,
    device: DeviceReport,
    has_fields: bool,
}

impl View for Report {
    type V = ReportView;

    closed spec fn view(&self) -> ReportView {
        ReportView {
            devices: self.devices@,
            device: self.device,
            has_fields: self.has_fields,
        }
    }
}

fn read_state(v: &Vec<char>, from: usize, to: usize) -> (r: Option<u32>)
    requires
        from <= to <= v@.len(),
    ensures
        r == state_number(v@.subrange(from as int, to as int)),
{
    let mut start: usize = from;
    while start < to && is_white_space(v[start])
        invariant
            from <= start <= to <= v@.len(),
            trim_start(v@.subrange(from as int, to as int)) == trim_start(
                v@.subrange(start as int, to as int),
            ),
        decreases to - start,
    {
        proof {
            let rest = v@.subrange(start as int, to as int);
            assert(rest.drop_first() =~= v@.subrange(start + 1, to as int));
        }
        start = start + 1;
    }
    let ghost text = v@.subrange(start as int, to as int);
    assert(trim_start(v@.subrange(from as int, to as int)) == text);
    let mut end: usize = start;
    while end < to && '0' <= v[end] && v[end] <= '9'
        invariant
            start <= end <= to <= v@.len(),
            text == v@.subrange(start as int, to as int),
            digit_run(text) == end - start + digit_run(v@.subrange(end as int, to as int)),
        decreases to - end,
    {
        proof {
            let rest = v@.subrange(end as int, to as int);
            assert(rest.drop_first() =~= v@.subrange(end + 1, to as int));
        }
        end = end + 1;
    }
    proof {
        assert(text.take(end - start) =~= v@.subrange(start as int, end as int));
    }
    match parse_unsigned(text_of(v, start, end).as_str(), u32::MAX as u64) {
        Some(number) => Some(number as u32),
        None => None,
    }
}

fn read_cost(value: &str) -> (r: Option<ReportedCost>)
    ensures
        r == named_cost(value@),
{
    let name = trim(value);
    if same_text(name.as_str(), "yes") || same_text(name.as_str(), "guess-yes") {
        Some(ReportedCost::Metered)
    } else if same_text(name.as_str(), "no") || same_text(name.as_str(), "guess-no") {
        Some(ReportedCost::Unmetered)
    } else if same_text(name.as_str(), "unknown") {
        Some(ReportedCost::Unknown)
    } else {
        None
    }
}

impl Report {
    /// Reads the line `from..to`; tells whether it has a place in the report.
    fn line(&mut self, v: &Vec<char>, from: usize, to: usize) -> (accepted: bool)
        requires
            from <= to <= v@.len(),
        ensures
            match report_line(old(self)@, v@.subrange(from as int, to as int)) {
                Some(next) => accepted && final(self)@ == next,
                None => !accepted,
            },
    {
        let ghost line = v@.subrange(from as int, to as int);
        if from == to {
            if self.has_fields {
                self.devices.push(self.device);
                self.device = DeviceReport { state: None, cost: None };
                self.has_fields = false;
            }
            return true;
        }
        let colon: usize = find_char(v, from, to, ':');
        if colon == to {
            return false;
        }
        let field = text_of(v, from, colon);
        proof {
            assert(line.take(colon - from) =~= v@.subrange(from as int, colon as int));
            assert(line.skip(colon - from + 1) =~= v@.subrange(colon + 1, to as int));
        }
        if same_text(field.as_str(), "GENERAL.STATE") {
            if self.device.state.is_some() {
                if self.has_fields {
                    self.devices.push(self.device);
                }
                self.device = DeviceReport { state: None, cost: None };
            }
            match read_state(v, colon + 1, to) {
                None => false,
                Some(number) => {
                    self.device = DeviceReport { state: Some(number), cost: self.device.cost };
                    self.has_fields = true;
                    true
                },
            }
        } else if same_text(field.as_str(), "GENERAL.METERED") {
            if self.device.cost.is_some() {
                return false;
            }
            match read_cost(text_of(v, colon + 1, to).as_str()) {
                None => false,
                Some(cost) => {
                    self.device = DeviceReport { state: self.device.state, cost: Some(cost) };
                    self.has_fields = true;
                    true
                },
            }
        } else {
            false
        }
    }
}

/// Reads the devices that a query output describes.
fn read_devices(output: &str) -> (r: Option<Vec<DeviceReport>>)
    ensures
        match r {
            Some(devices) => output_devices(output@) == Some(devices@),
            None => output_devices(output@) is None,
        },
{
    let v = chars_of(output);
    let mut report = Report {
        devices: Vec::new(),
        device: DeviceReport { state: None, cost: None },
        has_fields: false,
    };
    let ghost start = report@;
    let mut from: usize = 0;
    let total: usize = v.len();
    proof {
        assert(start.devices =~= Seq::empty());
        assert(v@.subrange(0, total as int) =~= output@);
    }
    while from < total
        invariant
            from <= total,
            total == v@.len(),
            v@ == output@,
            start == (ReportView {
                devices: Seq::empty(),
                device: no_report(),
                has_fields: false,
            }),
            report_text(start, output@) == report_text(
                report@,
                v@.subrange(from as int, total as int),
            ),
        decreases total - from,
    {
        let ghost rest = v@.subrange(from as int, total as int);
        let end: usize = find_char(&v, from, total, '\n');
        let line_end: usize = if end < total && end > from && v[end - 1] == '\r' {
            end - 1
        } else {
            end
        };
        proof {
            assert(first_line(rest) =~= v@.subrange(from as int, line_end as int));
        }
        if !report.line(&v, from, line_end) {
            return None;
        }
        if end < total {
            proof {
                assert(after_first_line(rest) =~= v@.subrange(end + 1, total as int));
            }
            from = end + 1;
        } else {
            proof {
                assert(after_first_line(rest) =~= v@.subrange(total as int, total as int));
            }
            from = total;
        }
    }
    if report.has_fields {
        report.devices.push(report.device);
    }
    Some(report.devices)
}

fn has_active_cost(devices: &Vec<DeviceReport>, cost: ReportedCost) -> (b: bool)
    ensures
        b == active_cost(devices@, cost),
{
    let mut i: usize = 0;
    while i < devices.len()
        invariant
            i <= devices@.len(),
            forall|k: int|
                0 <= k < i ==> !((#[trigger] devices@[k]).state == Some(CONNECTED_STATE)
                    && devices@[k].cost == Some(cost)),
        decreases devices@.len() - i,
    {
        let device = devices[i];
        if let (Some(state), Some(reported)) = (device.state, device.cost) {
            if state == CONNECTED_STATE && reported == cost {
                assert(devices@[i as int].state == Some(CONNECTED_STATE));
                return true;
            }
        }
        i = i + 1;
    }
    false
}

fn is_complete(devices: &Vec<DeviceReport>) -> (b: bool)
    ensures
        b == complete(devices@),
{
    let mut i: usize = 0;
    while i < devices.len()
        invariant
            i <= devices@.len(),
            forall|k: int|
                0 <= k < i ==> (#[trigger] devices@[k]).state is Some && devices@[k].cost is Some,
        decreases devices@.len() - i,
    {
        if devices[i].state.is_none() || devices[i].cost.is_none() {
            return false;
        }
        i = i + 1;
    }
    true
}

/// Reads the cost of the active connections from a query output.
pub fn parse_nmcli_output(output: &str) -> (r: Option<MeteredNetworkStatus>)
    ensures
        r == output_status(output@),
{
    let devices = match read_devices(output) {
        Some(devices) => devices,
        None => return None,
    };
    if !is_complete(&devices) {
        return None;
    }
    let metered: bool = has_active_cost(&devices, ReportedCost::Metered);
    let unmetered: bool = has_active_cost(&devices, ReportedCost::Unmetered);
    Some(
        if !metered && !unmetered {
            MeteredNetworkStatus::unknown(MeteredNetworkProbeOutcome::Indeterminate)
        } else if has_active_cost(&devices, ReportedCost::Unknown) || (metered && unmetered) {
            MeteredNetworkStatus::unknown(MeteredNetworkProbeOutcome::Ambiguous)
        } else if metered {
            MeteredNetworkStatus {
                state: MeteredNetworkState::Metered,
                outcome: MeteredNetworkProbeOutcome::Reported,
            }
        } else {
            MeteredNetworkStatus {
                state: MeteredNetworkState::Unmetered,
                outcome: MeteredNetworkProbeOutcome::Reported,
            }
        },
    )
}

/// The status after the query utility has ended.
pub open spec fn interpretation(success: bool, output: Seq<u8>) -> MeteredNetworkStatus {
    if !success {
        unknown_status(MeteredNetworkProbeOutcome::CommandFailed)
    } else if output.len() > MAX_OUTPUT_BYTES || !valid_utf8(output) {
        unknown_status(MeteredNetworkProbeOutcome::InvalidOutput)
    } else {
        match output_status(decode_utf8(output)) {
            Some(status) => status,
            None => unknown_status(MeteredNetworkProbeOutcome::InvalidOutput),
        }
    }
}

/// Interprets how the query utility ended and what it wrote.
pub fn interpret(success: bool, output: &[u8]) -> (status: MeteredNetworkStatus)
    ensures
        status == interpretation(success, output@),
{
    if !success {
        return MeteredNetworkStatus::unknown(MeteredNetworkProbeOutcome::CommandFailed);
    }
    if output.len() > MAX_OUTPUT_BYTES {
        return MeteredNetworkStatus::unknown(MeteredNetworkProbeOutcome::InvalidOutput);
    }
    match utf8_text(to_vec(output)) {
        Err(_) => MeteredNetworkStatus::unknown(MeteredNetworkProbeOutcome::InvalidOutput),
        Ok(text) => match parse_nmcli_output(text.as_str()) {
            Some(status) => status,
            None => MeteredNetworkStatus::unknown(MeteredNetworkProbeOutcome::InvalidOutput),
        },
    }
}

/// How far the bounded query of the operating system came.
#[derive(Clone, Debug, PartialEq, Eq)]
pub enum NetworkProbe {
    /// This target has no query.
    Unsupported,
    /// The query utility is not installed.
    CommandUnavailable,
    /// The query could not be started, waited for or read.
    CommandFailed,
    /// The query did not end in time.
    TimedOut,
    /// The query ended.
    Finished { success: bool, output: Vec<u8> },
}

/// The status that a probe amounts to.
pub open spec fn probe_status(probe: NetworkProbe) -> MeteredNetworkStatus {
    match probe {
        NetworkProbe::Unsupported => unknown_status(MeteredNetworkProbeOutcome::Unsupported),
        NetworkProbe::CommandUnavailable => unknown_status(
            MeteredNetworkProbeOutcome::CommandUnavailable,
        ),
        NetworkProbe::CommandFailed => unknown_status(MeteredNetworkProbeOutcome::CommandFailed),
        NetworkProbe::TimedOut => unknown_status(MeteredNetworkProbeOutcome::TimedOut),
        NetworkProbe::Finished { success, output } => interpretation(success, output@),
    }
}

/// Tells whether the current network is metered, from a probe that does not contact the
/// network.
///
/// Targets without a query give [`MeteredNetworkState::Unknown`] rather than a guess.
/// Failures are represented by [`MeteredNetworkStatus::outcome`] and do not themselves
/// imply that synchronization must be blocked.
pub fn detect_metered_network(probe: &NetworkProbe) -> (status: MeteredNetworkStatus)
    ensures
        status == probe_status(*probe),
{
    match probe {
        NetworkProbe::Unsupported => MeteredNetworkStatus::unknown(
            MeteredNetworkProbeOutcome::Unsupported,
        ),
        NetworkProbe::CommandUnavailable => MeteredNetworkStatus::unknown(
            MeteredNetworkProbeOutcome::CommandUnavailable,
        ),
        NetworkProbe::CommandFailed => MeteredNetworkStatus::unknown(
            MeteredNetworkProbeOutcome::CommandFailed,
        ),
        NetworkProbe::TimedOut => MeteredNetworkStatus::unknown(
            MeteredNetworkProbeOutcome::TimedOut,
        ),
        NetworkProbe::Finished { success, output } => interpret(*success, output.as_slice()),
    }
}

/// A cost is given exactly when it was reported; every other outcome is visible as unknown.
pub proof fn law_unreported_cost_is_unknown(probe: NetworkProbe)
    ensures
        probe_status(probe).outcome is Reported <==> !(probe_status(probe).state is Unknown),
{
}

/// A reported cost is the cost of every connected device.
pub proof fn law_reported_cost_is_shared_by_active_devices(devices: Seq<DeviceReport>)
    requires
        complete(devices),
    ensures
        devices_status(devices).state is Metered ==> forall|i: int|
            0 <= i < devices.len() && (#[trigger] devices[i]).state == Some(CONNECTED_STATE)
                ==> devices[i].cost == Some(ReportedCost::Metered),
        devices_status(devices).state is Unmetered ==> forall|i: int|
            0 <= i < devices.len() && (#[trigger] devices[i]).state == Some(CONNECTED_STATE)
                ==> devices[i].cost == Some(ReportedCost::Unmetered),
{
    assert forall|i: int| 0 <= i < devices.len() && (#[trigger] devices[i]).state == Some(
        CONNECTED_STATE,
    ) implies active_cost(devices, devices[i].cost->0) by {
        assert(devices[i].cost == Some(devices[i].cost->0));
    }
    assert forall|i: int|
        devices_status(devices).state is Metered && 0 <= i < devices.len() && (
        #[trigger] devices[i]).state == Some(CONNECTED_STATE) implies devices[i].cost == Some(
        ReportedCost::Metered,
    ) by {
        assert(active_cost(devices, devices[i].cost->0));
    }
    assert forall|i: int|
        devices_status(devices).state is Unmetered && 0 <= i < devices.len() && (
        #[trigger] devices[i]).state == Some(CONNECTED_STATE) implies devices[i].cost == Some(
        ReportedCost::Unmetered,
    ) by {
        assert(active_cost(devices, devices[i].cost->0));
    }
}

/// Devices that are not connected do not change the status.
pub proof fn law_inactive_devices_do_not_matter(devices: Seq<DeviceReport>, inactive: DeviceReport)
    requires
        inactive.state != Some(CONNECTED_STATE),
    ensures
        devices_status(devices.push(inactive)) == devices_status(devices),
{
    let longer = devices.push(inactive);
    assert forall|cost: ReportedCost| active_cost(longer, cost) == active_cost(devices, cost) by {
        if active_cost(devices, cost) {
            let i = choose|i: int|
                0 <= i < devices.len() && (#[trigger] devices[i]).state == Some(CONNECTED_STATE)
                    && devices[i].cost == Some(cost);
            assert(longer[i] == devices[i]);
        }
        if active_cost(longer, cost) {
            let i = choose|i: int|
                0 <= i < longer.len() && (#[trigger] longer[i]).state == Some(CONNECTED_STATE)
                    && longer[i].cost == Some(cost);
            assert(devices[i] == longer[i]);
        }
    }
}

/// A network counts as metered, or as unmetered, exactly when some device is connected and
/// every connected device says so. Connected devices that disagree, or one of which does not
/// know, make it ambiguous; without any that knows it is indeterminate.
pub proof fn law_network_cost_is_what_every_connected_device_says(devices: Seq<DeviceReport>)
    requires
        complete(devices),
    ensures
        ({
            let status = devices_status(devices);
            let said = |cost: ReportedCost|
                exists|i: int|
                    0 <= i < devices.len() && (#[trigger] devices[i]).state == Some(100u32)
                        && devices[i].cost == Some(cost);
            let only = |cost: ReportedCost|
                forall|i: int|
                    0 <= i < devices.len() && (#[trigger] devices[i]).state == Some(100u32)
                        ==> devices[i].cost == Some(cost);
            &&& status.state is Metered <==> said(ReportedCost::Metered) && only(
                ReportedCost::Metered,
            )
            &&& status.state is Unmetered <==> said(ReportedCost::Unmetered) && only(
                ReportedCost::Unmetered,
            )
            &&& status.outcome is Indeterminate <==> !said(ReportedCost::Metered) && !said(
                ReportedCost::Unmetered,
            )
            &&& status.outcome is Reported || status.outcome is Indeterminate || status.outcome
                is Ambiguous
            &&& status.outcome is Reported <==> !(status.state is Unknown)
        }),
{
    law_reported_cost_is_shared_by_active_devices(devices);
    if active_cost(devices, ReportedCost::Unknown) {
        let i = choose|i: int|
            0 <= i < devices.len() && (#[trigger] devices[i]).state == Some(CONNECTED_STATE)
                && devices[i].cost == Some(ReportedCost::Unknown);
        assert(devices[i].state == Some(100u32));
    }
    if active_cost(devices, ReportedCost::Metered) {
        let i = choose|i: int|
            0 <= i < devices.len() && (#[trigger] devices[i]).state == Some(CONNECTED_STATE)
                && devices[i].cost == Some(ReportedCost::Metered);
        assert(devices[i].state == Some(100u32));
    }
    if active_cost(devices, ReportedCost::Unmetered) {
        let i = choose|i: int|
            0 <= i < devices.len() && (#[trigger] devices[i]).state == Some(CONNECTED_STATE)
                && devices[i].cost == Some(ReportedCost::Unmetered);
        assert(devices[i].state == Some(100u32));
    }
}

/// A query that did not run, did not end in time or failed tells nothing of the cost but why;
/// only a successful one of bounded, readable output tells it.
pub proof fn law_only_a_finished_query_tells_a_cost(
    probe: NetworkProbe,
    status: MeteredNetworkStatus,
)
    requires
        call_ensures(detect_metered_network, (&probe,), status),
    ensures
        probe is Unsupported ==> status.outcome is Unsupported,
        probe is CommandUnavailable ==> status.outcome is CommandUnavailable,
        probe is CommandFailed ==> status.outcome is CommandFailed,
        probe is TimedOut ==> status.outcome is TimedOut,
        probe matches NetworkProbe::Finished { success, output } ==> {
            &&& !success ==> status.outcome is CommandFailed
            &&& success && (output@.len() > 65_536 || !valid_utf8(output@)) ==> status.outcome
                is InvalidOutput
        },
        !(status.state is Unknown) ==> (probe matches NetworkProbe::Finished { success, output }
            && success && output@.len() <= 65_536 && valid_utf8(output@)),
{
}

/// The names of costs: a guess counts like a certain answer, and any other name is refused.
pub proof fn law_costs_have_names(value: Seq<char>)
    ensures
        trimmed(value) == "yes"@ || trimmed(value) == "guess-yes"@ ==> named_cost(value) == Some(
            ReportedCost::Metered,
        ),
        trimmed(value) == "no"@ || trimmed(value) == "guess-no"@ ==> named_cost(value) == Some(
            ReportedCost::Unmetered,
        ),
        trimmed(value) == "unknown"@ ==> named_cost(value) == Some(ReportedCost::Unknown),
        named_cost(value) is Some ==> trimmed(value) == "yes"@ || trimmed(value) == "guess-yes"@
            || trimmed(value) == "no"@ || trimmed(value) == "guess-no"@ || trimmed(value)
            == "unknown"@,
{
    reveal_strlit("yes");
    reveal_strlit("guess-yes");
    reveal_strlit("no");
    reveal_strlit("guess-no");
    reveal_strlit("unknown");
    assert("unknown"@[0] == 'u');
    assert("yes"@[0] == 'y');
    assert("no"@[0] == 'n');
    assert("guess-yes"@.len() == 9);
    assert("guess-no"@.len() == 8);
}

/// The number that a connection state begins with is the whole run of its digits.
pub proof fn law_state_is_read_from_its_digits(n: u32, after: Seq<char>)
    requires
        after.len() > 0 ==> !is_digit(after[0]),
    ensures
        state_number(decimal(n as nat) + after) == Some(n),
{
    let digits = decimal(n as nat);
    lemma_decimal(n as nat);
    assert(is_digit(digits[0]));
    assert(trim_start(digits + after) == digits + after);
    lemma_digit_run(digits, after);
    assert((digits + after).take(digits.len() as int) =~= digits);
    law_decimal_round_trip(n as nat, u32::MAX as nat);
}

proof fn lemma_digit_run(digits: Seq<char>, after: Seq<char>)
    requires
        forall|i: int| 0 <= i < digits.len() ==> is_digit(#[trigger] digits[i]),
        after.len() > 0 ==> !is_digit(after[0]),
    ensures
        digit_run(digits + after) == digits.len(),
    decreases digits.len(),
{
    if digits.len() > 0 {
        assert((digits + after).drop_first() =~= digits.drop_first() + after);
        assert(is_digit(digits[0]));
        lemma_digit_run(digits.drop_first(), after);
    } else {
        assert(digits + after =~= after);
    }
}

/// A line tells a state or a cost, each once for a device; a second state begins the next device
/// and an empty line ends one. Anything else is refused.
pub proof fn law_lines_tell_states_and_costs(report: ReportView, field: Seq<char>, value: Seq<char>)
    requires
        forall|i: int| 0 <= i < field.len() ==> #[trigger] field[i] != ':',
    ensures
        ({
            let next = report_line(report, field + seq![':'] + value);
            &&& next is Some ==> field == "GENERAL.STATE"@ || field == "GENERAL.METERED"@
            &&& field == "GENERAL.STATE"@ ==> {
                &&& next is Some <==> state_number(value) is Some
                &&& next is Some ==> next->0.device.state == state_number(value)
                    && next->0.has_fields
                &&& next is Some && report.device.state is Some && report.has_fields
                    ==> next->0.devices == report.devices.push(report.device)
                    && next->0.device.cost is None
                &&& next is Some && report.device.state is None ==> next->0.devices
                    == report.devices && next->0.device.cost == report.device.cost
            }
            &&& field == "GENERAL.METERED"@ ==> {
                &&& next is Some <==> report.device.cost is None && named_cost(value) is Some
                &&& next is Some ==> next->0.device.cost == named_cost(value)
                    && next->0.device.state == report.device.state && next->0.devices
                    == report.devices && next->0.has_fields
            }
        }),
{
    let line = field + seq![':'] + value;
    lemma_first(field, ':', value);
    assert(line.take(field.len() as int) =~= field);
    assert(line.skip(field.len() as int + 1) =~= value);
    reveal_strlit("GENERAL.STATE");
    reveal_strlit("GENERAL.METERED");
    assert("GENERAL.STATE"@.len() == 13 && "GENERAL.METERED"@.len() == 15);
}

proof fn lemma_first(field: Seq<char>, c: char, value: Seq<char>)
    requires
        forall|i: int| 0 <= i < field.len() ==> #[trigger] field[i] != c,
    ensures
        position_of(field + seq![c] + value, c) == field.len(),
    decreases field.len(),
{
    let line = field + seq![c] + value;
    if field.len() > 0 {
        assert(line[0] == field[0]);
        assert(line.drop_first() =~= field.drop_first() + seq![c] + value);
        assert forall|i: int| 0 <= i < field.drop_first().len() implies #[trigger]
            field.drop_first()[i] != c by {
            assert(field.drop_first()[i] == field[i + 1]);
        }
        lemma_first(field.drop_first(), c, value);
    } else {
        assert(line[0] == c);
    }
}

/// Output is read line by line, each line after the ones before it; a carriage return before the
/// line feed belongs to the line ending.
pub proof fn law_lines_are_read_in_order(report: ReportView, line: Seq<char>, rest: Seq<char>)
    requires
        forall|i: int| 0 <= i < line.len() ==> #[trigger] line[i] != '\n',
    ensures
        ({
            let text = line + seq!['\n'] + rest;
            let plain = if line.len() > 0 && line.last() == '\r' {
                line.drop_last()
            } else {
                line
            };
            report_text(report, text) == match report_line(report, plain) {
                Some(next) => report_text(next, rest),
                None => None,
            }
        }),
        report_text(report, Seq::empty()) == Some(report),
{
    let text = line + seq!['\n'] + rest;
    lemma_first(line, '\n', rest);
    assert(text.skip(line.len() as int + 1) =~= rest);
    assert(text.take(line.len() as int) =~= line);
    if line.len() > 0 {
        assert(text.take(line.len() - 1) =~= line.drop_last());
    }
}

/// An empty line ends the device of the lines before it, once, and a device whose lines are the
/// last ones counts too.
pub proof fn law_empty_lines_end_devices(report: ReportView)
    ensures
        ({
            let next = report_line(report, Seq::empty());
            &&& next is Some
            &&& !next->0.has_fields
            &&& next->0.devices == reported_devices(report)
            &&& report.has_fields ==> next->0.device.state is None && next->0.device.cost is None
            &&& !report.has_fields ==> next->0.device == report.device
        }),
        report.has_fields ==> reported_devices(report) == report.devices.push(report.device),
        !report.has_fields ==> reported_devices(report) == report.devices,
{
}

/// A cost is only told by output in which every device has both its state and its cost.
pub proof fn law_incomplete_output_tells_no_cost(
    output: &str,
    r: Option<MeteredNetworkStatus>,
)
    requires
        call_ensures(parse_nmcli_output, (output,), r),
    ensures
        r is Some <==> (output_devices(output@) matches Some(devices) && forall|i: int|
            0 <= i < devices.len() ==> (#[trigger] devices[i]).state is Some && devices[i].cost
                is Some),
        r matches Some(status) ==> status == devices_status(output_devices(output@)->0),
        output@.len() == 0 ==> (r matches Some(status) && status.outcome is Indeterminate),
{
    if output@.len() == 0 {
        let devices = output_devices(output@)->0;
        assert(devices.len() == 0);
    }
}

} // verus!
