//! Gate transport decision logic.
//!
//! A gate-open invocation discovers serial ports, then tries them one at
//! a time in discovery order, writing the command to each; every port is
//! tried whatever the earlier outcomes were, and the first port that
//! accepts the write is reported. The serial I/O itself happens outside
//! the library; this module decides what to try next and what to report,
//! and those decisions are verified.

use vstd::prelude::*;

use crate::receipt::opt_view;
use crate::transport::TransportError;

verus! {

/// One discovered serial port: its name and its connection class label.
#[derive(Debug, Clone)]
pub struct PortInfo {
    /// The OS name of the port.
    pub port_name: String,
    /// The connection class label: USB, PCI, Bluetooth or Unknown.
    pub port_type: String,
}

/// The result of one gate-open invocation.
#[derive(Debug, Clone)]
pub struct GateResponse {
    /// Whether at least one port accepted the command.
    pub success: bool,
    /// Human-readable outcome message.
    pub message: String,
    /// Every port that was attempted, in discovery order.
    pub ports_tried: Vec<String>,
    /// The first port on which the write succeeded, if any.
    pub successful_port: Option<String>,
}

/// The connection class a discovered port reports.
#[derive(Clone, Copy, Debug, PartialEq, Eq, Structural)]
pub enum PortClass {
    /// A USB serial device.
    Usb,
    /// A PCI serial device.
    Pci,
    /// A Bluetooth serial device.
    Bluetooth,
    /// Anything the OS does not classify.
    Unknown,
}

impl PortClass {
    /// The label printed for this class.
    pub open spec fn spec_label(self) -> Seq<char> {
        match self {
            PortClass::Usb => "USB"@,
            PortClass::Pci => "PCI"@,
            PortClass::Bluetooth => "Bluetooth"@,
            PortClass::Unknown => "Unknown"@,
        }
    }

    /// Render the class label.
    pub fn label(&self) -> (r: String)
        ensures
            r@ == self.spec_label(),
    {
        match self {
            PortClass::Usb => String::from_str("USB"),
            PortClass::Pci => String::from_str("PCI"),
            PortClass::Bluetooth => String::from_str("Bluetooth"),
            PortClass::Unknown => String::from_str("Unknown"),
        }
    }
}

/// Build the port descriptor reported for one discovered port.
pub fn describe_port(name: String, class: PortClass) -> (p: PortInfo)
    ensures
        p.port_name == name,
        p.port_type@ == class.spec_label(),
{
    PortInfo { port_name: name, port_type: class.label() }
}

/// The name views of a port list.
pub open spec fn names(v: Seq<String>) -> Seq<Seq<char>> {
    v.map_values(|s: String| s@)
}

/// The bytes written to a port for one command: the command text followed
/// by a carriage-return/line-feed terminator.
pub open spec fn spec_framed_command(cmd: Seq<char>) -> Seq<u8> {
    vstd::utf8::encode_utf8(cmd) + seq![13u8, 10u8]
}

/// Frame a gate command for the wire.
pub fn frame_command(cmd: &str) -> (r: Vec<u8>)
    ensures
        r@ == spec_framed_command(cmd@),
{
    let mut out: Vec<u8> = Vec::new();
    out.extend_from_slice(cmd.as_bytes());
    out.push(13);
    out.push(10);
    proof {
        assert(out@ =~= spec_framed_command(cmd@));
    }
    out
}

/// The attempted ports joined with commas, in order.
pub open spec fn join_comma(items: Seq<Seq<char>>) -> Seq<char>
    decreases items.len(),
{
    if items.len() == 0 {
        Seq::empty()
    } else if items.len() == 1 {
        items[0]
    } else {
        join_comma(items.drop_last()) + ", "@ + items.last()
    }
}

/// Join port names with commas.
fn join_comma_exec(items: &Vec<String>) -> (r: String)
    ensures
        r@ == join_comma(names(items@)),
{
    let mut out = String::new();
    let mut i: usize = 0;
    proof {
        assert(names(items@).take(0) =~= Seq::<Seq<char>>::empty());
    }
    while i < items.len()
        invariant
            0 <= i <= items@.len(),
            out@ == join_comma(names(items@).take(i as int)),
        decreases items@.len() - i,
    {
        if i > 0 {
            out.append(", ");
        }
        out.append(items[i].as_str());
        proof {
            assert(names(items@).take(i + 1).drop_last() =~= names(items@).take(i as int));
            assert(names(items@).take(i + 1).last() == items@[i as int]@);
        }
        i += 1;
    }
    proof {
        assert(names(items@).take(items@.len() as int) =~= names(items@));
    }
    out
}

/// The message reported when at least one port accepted the command.
pub open spec fn success_message(cmd: Seq<char>) -> Seq<char> {
    "Gate command '"@ + cmd + "' sent successfully"@
}

/// The mathematical state of one fan-out dispatch.
#[verifier::ext_equal]
pub struct FanoutState {
    /// The discovered port names, in discovery order.
    pub ports: Seq<Seq<char>>,
    /// How many ports have been attempted so far.
    pub next: int,
    /// The ports attempted so far, in order.
    pub tried: Seq<Seq<char>>,
    /// The first port that accepted the write, if any yet.
    pub success: Option<Seq<char>>,
}

/// The state a dispatch starts in.
pub open spec fn initial_fanout(ports: Seq<Seq<char>>) -> FanoutState {
    FanoutState { ports, next: 0, tried: Seq::empty(), success: None }
}

/// One attempt: the next port in discovery order is recorded as tried,
/// and becomes the reported port when it is the first to succeed.
pub open spec fn fanout_step(s: FanoutState, ok: bool) -> FanoutState {
    FanoutState {
        ports: s.ports,
        next: s.next + 1,
        tried: s.tried.push(s.ports[s.next]),
        success: if s.success is Some {
            s.success
        } else if ok {
            Some(s.ports[s.next])
        } else {
            None
        },
    }
}

/// The state after a run of attempts with the given outcomes.
pub open spec fn fanout_run(s: FanoutState, outcomes: Seq<bool>) -> FanoutState
    decreases outcomes.len(),
{
    if outcomes.len() == 0 {
        s
    } else {
        fanout_run(fanout_step(s, outcomes[0]), outcomes.drop_first())
    }
}

/// The first port whose outcome is a success, pairing ports and outcomes
/// positionally.
pub open spec fn first_success(ports: Seq<Seq<char>>, outcomes: Seq<bool>) -> Option<Seq<char>>
    decreases outcomes.len(),
{
    if outcomes.len() == 0 || ports.len() == 0 {
        None
    } else if outcomes[0] {
        Some(ports[0])
    } else {
        first_success(ports.drop_first(), outcomes.drop_first())
    }
}

proof fn lemma_fanout_run_general(s: FanoutState, outcomes: Seq<bool>)
    requires
        0 <= s.next,
        s.tried == s.ports.take(s.next),
        s.next + outcomes.len() == s.ports.len(),
    ensures
        fanout_run(s, outcomes).ports == s.ports,
        fanout_run(s, outcomes).next == s.ports.len(),
        fanout_run(s, outcomes).tried == s.ports,
        fanout_run(s, outcomes).success == if s.success is Some {
            s.success
        } else {
            first_success(s.ports.skip(s.next), outcomes)
        },
    decreases outcomes.len(),
{
    if outcomes.len() == 0 {
        assert(s.ports.take(s.next) =~= s.ports);
    } else {
        let s2 = fanout_step(s, outcomes[0]);
        assert(s2.tried =~= s.ports.take(s.next + 1));
        lemma_fanout_run_general(s2, outcomes.drop_first());
        assert(s.ports.skip(s.next).len() > 0);
        assert(s.ports.skip(s.next)[0] == s.ports[s.next]);
        assert(s.ports.skip(s.next).drop_first() =~= s.ports.skip(s.next + 1));
    }
}

/// Fan-out dispatch law: running one attempt per discovered port tries
/// every port, in discovery order, and reports the first port whose
/// outcome was a success — ports after a success are still tried.
pub proof fn lemma_fanout_reports_first_success(ports: Seq<Seq<char>>, outcomes: Seq<bool>)
    requires
        outcomes.len() == ports.len(),
    ensures
        fanout_run(initial_fanout(ports), outcomes).tried == ports,
        fanout_run(initial_fanout(ports), outcomes).next == ports.len(),
        fanout_run(initial_fanout(ports), outcomes).success == first_success(ports, outcomes),
{
    let s = initial_fanout(ports);
    assert(s.tried =~= s.ports.take(0));
    lemma_fanout_run_general(s, outcomes);
    assert(ports.skip(0) =~= ports);
}

/// One fan-out dispatch in progress: the discovered ports, the attempts
/// made so far, and the first success. The caller performs the serial
/// I/O for one port at a time and records each outcome here.
pub struct GateFanout {
    ports: Vec<String>,
    next: usize,
    ports_tried: Vec<String>,
    successful_port: Option<String>,
}

impl View for GateFanout {
    type V = FanoutState;

    closed spec fn view(&self) -> FanoutState {
        FanoutState {
            ports: names(self.ports@),
            next: self.next as int,
            tried: names(self.ports_tried@),
            success: opt_view(self.successful_port),
        }
    }
}

impl GateFanout {
    /// Structural soundness of a dispatch in progress.
    pub open spec fn wf(&self) -> bool {
        &&& 0 <= self@.next <= self@.ports.len()
        &&& self@.tried == self@.ports.take(self@.next)
    }

    /// Start a dispatch over the discovered ports. Fails with
    /// NoDevicesFound, before any I/O is attempted, exactly when
    /// discovery yielded zero ports.
    pub fn begin_dispatch(ports: Vec<String>) -> (r: Result<GateFanout, TransportError>)
        ensures
            match r {
                Ok(gf) => {
                    &&& ports@.len() > 0
                    &&& gf.wf()
                    &&& gf@ == initial_fanout(names(ports@))
                },
                Err(e) => {
                    &&& ports@.len() == 0
                    &&& e == TransportError::NoDevicesFound
                },
            },
    {
        if ports.len() == 0 {
            Err(TransportError::NoDevicesFound)
        } else {
            let gf = GateFanout { ports, next: 0, ports_tried: Vec::new(), successful_port: None };
            proof {
                assert(gf@.tried =~= gf@.ports.take(0));
                assert(gf@ =~= initial_fanout(gf@.ports));
            }
            Ok(gf)
        }
    }

    /// Whether every discovered port has been attempted.
    pub fn done(&self) -> (r: bool)
        ensures
            r == (self@.next == self@.ports.len()),
    {
        self.next == self.ports.len()
    }

    /// The port to attempt next.
    pub fn current_port(&self) -> (r: &String)
        requires
            self@.next < self@.ports.len(),
        ensures
            r@ == self@.ports[self@.next],
    {
        &self.ports[self.next]
    }

    /// Record the outcome of the attempt on the current port and move to
    /// the next one. Failure does not abort the dispatch: every
    /// discovered port gets its attempt.
    pub fn record_attempt(&mut self, ok: bool)
        requires
            old(self).wf(),
            old(self)@.next < old(self)@.ports.len(),
        ensures
            final(self).wf(),
            final(self)@ == fanout_step(old(self)@, ok),
    {
        let total = self.ports.len();
        let name = self.ports[self.next].clone();
        self.ports_tried.push(name);
        if ok && self.successful_port.is_none() {
            let winner = self.ports[self.next].clone();
            self.successful_port = Some(winner);
        }
        self.next = self.next + 1;
        proof {
            assert(self@.tried =~= fanout_step(old(self)@, ok).tried);
            assert(self@.tried =~= self@.ports.take(self@.next));
            assert(self@ =~= fanout_step(old(self)@, ok));
        }
    }

    /// Close the dispatch once every port has been attempted: a response
    /// naming the first successful port, or, when no port accepted the
    /// command, a write failure listing every attempted port.
    pub fn finish(self, command: &str) -> (r: Result<GateResponse, TransportError>)
        requires
            self.wf(),
            self@.next == self@.ports.len(),
        ensures
            match r {
                Ok(resp) => {
                    &&& self@.success is Some
                    &&& resp.success == true
                    &&& names(resp.ports_tried@) == self@.tried
                    &&& opt_view(resp.successful_port) == self@.success
                    &&& resp.message@ == success_message(command@)
                },
                Err(e) => {
                    &&& self@.success is None
                    &&& e matches TransportError::WriteFailed(d) && d@ == "any port. Tried: "@
                        + join_comma(self@.tried)
                },
            },
    {
        if self.successful_port.is_some() {
            let mut m = String::from_str("Gate command '");
            m.append(command);
            m.append("' sent successfully");
            Ok(
                GateResponse {
                    success: true,
                    message: m,
                    ports_tried: self.ports_tried,
                    successful_port: self.successful_port,
                },
            )
        } else {
            let joined = join_comma_exec(&self.ports_tried);
            let mut d = String::from_str("any port. Tried: ");
            d.append(joined.as_str());
            Err(TransportError::WriteFailed(d))
        }
    }
}

/// Where a single-port attempt ended.
#[derive(Clone, Copy, Debug, PartialEq, Eq, Structural)]
pub enum PortAttemptOutcome {
    /// Open, write and flush all succeeded.
    Success,
    /// The port could not be opened.
    OpenRefused,
    /// The write failed.
    WriteRefused,
    /// The final flush failed.
    FlushRefused,
}

/// The report for a gate-open against one caller-named port: success
/// yields a single-entry response naming that port; any failure is
/// surfaced at once as an error naming the stage and the port.
pub fn specific_port_report(port_name: &str, outcome: PortAttemptOutcome) -> (r: Result<
    GateResponse,
    TransportError,
>)
    ensures
        match outcome {
            PortAttemptOutcome::Success => r matches Ok(resp) && {
                &&& resp.success == true
                &&& resp.message@ == "Gate opened via "@ + port_name@
                &&& names(resp.ports_tried@) == seq![port_name@]
                &&& opt_view(resp.successful_port) == Some(port_name@)
            },
            PortAttemptOutcome::OpenRefused => r matches Err(e) && e matches
                TransportError::OpenFailed(p) && p@ == port_name@,
            PortAttemptOutcome::WriteRefused => r matches Err(e) && e matches
                TransportError::WriteFailed(p) && p@ == port_name@,
            PortAttemptOutcome::FlushRefused => r matches Err(e) && e matches
                TransportError::WriteFailed(p) && p@ == port_name@ + " (flush)"@,
        },
{
    match outcome {
        PortAttemptOutcome::Success => {
            let mut m = String::from_str("Gate opened via ");
            m.append(port_name);
            let mut tried: Vec<String> = Vec::new();
            tried.push(port_name.to_owned());
            proof {
                assert(names(tried@) =~= seq![port_name@]);
            }
            Ok(
                GateResponse {
                    success: true,
                    message: m,
                    ports_tried: tried,
                    successful_port: Some(port_name.to_owned()),
                },
            )
        },
        PortAttemptOutcome::OpenRefused => Err(TransportError::OpenFailed(port_name.to_owned())),
        PortAttemptOutcome::WriteRefused => Err(TransportError::WriteFailed(port_name.to_owned())),
        PortAttemptOutcome::FlushRefused => {
            let mut p = port_name.to_owned();
            p.append(" (flush)");
            Err(TransportError::WriteFailed(p))
        },
    }
}

/// The first line that names a COM port, if any.
pub open spec fn starts_with_com(s: Seq<char>) -> bool {
    s.len() >= 3 && s[0] == 'C' && s[1] == 'O' && s[2] == 'M'
}

/// The first line starting with `COM`, scanning in order.
pub open spec fn first_com(lines: Seq<Seq<char>>) -> Option<Seq<char>>
    decreases lines.len(),
{
    if lines.len() == 0 {
        None
    } else if starts_with_com(lines[0]) {
        Some(lines[0])
    } else {
        first_com(lines.drop_first())
    }
}

/// Pick the first line that names a COM port out of a device listing
/// whose lines have already been trimmed.
pub fn first_com_port(lines: &Vec<String>) -> (r: Option<String>)
    ensures
        opt_view(r) == first_com(names(lines@)),
{
    let mut i: usize = 0;
    proof {
        assert(names(lines@).skip(0) =~= names(lines@));
    }
    while i < lines.len()
        invariant
            0 <= i <= lines@.len(),
            first_com(names(lines@)) == first_com(names(lines@).skip(i as int)),
        decreases lines@.len() - i,
    {
        let line = &lines[i];
        let len = line.as_str().unicode_len();
        let is_com = len >= 3 && line.as_str().get_char(0) == 'C' && line.as_str().get_char(1)
            == 'O' && line.as_str().get_char(2) == 'M';
        proof {
            assert(names(lines@).skip(i as int)[0] == lines@[i as int]@);
        }
        if is_com {
            return Some(line.clone());
        }
        proof {
            assert(names(lines@).skip(i as int).drop_first() =~= names(lines@).skip(i + 1));
        }
        i += 1;
    }
    None
}

/// The shell line that echoes a gate command into a port device.
pub fn shell_echo_command(cmd: &str, port: &str) -> (r: String)
    ensures
        r@ == "echo "@ + cmd@ + " > "@ + port@,
{
    let mut out = String::from_str("echo ");
    out.append(cmd);
    out.append(" > ");
    out.append(port);
    out
}

/// The report for the shell-echo gate path: a success message naming the
/// port, or a failure message naming the port and the captured error
/// detail.
pub fn shell_gate_report(port: &str, ok: bool, err_detail: &str) -> (r: Result<String, String>)
    ensures
        ok ==> (r matches Ok(m) && m@ == "Gate opened successfully on port "@ + port@),
        !ok ==> (r matches Err(m) && m@ == "Command failed on port "@ + port@ + ": "@
            + err_detail@),
{
    if ok {
        let mut m = String::from_str("Gate opened successfully on port ");
        m.append(port);
        Ok(m)
    } else {
        let mut m = String::from_str("Command failed on port ");
        m.append(port);
        m.append(": ");
        m.append(err_detail);
        Err(m)
    }
}

} // verus!
