//! What one echo request brought back, and the host that it was sent to.

use crate::text::{
    block_lines, contains, contains_text, decimal_i32, glue, signed_decimal, write_lines,
};
use vstd::prelude::*;
use vstd::utf8::{encode_utf8, valid_utf8};

verus! {

/// The line that `ping` prints when its one request was answered.
pub open spec fn success_pattern() -> Seq<char> {
    "1 packets transmitted, 1 received, 0% packet loss"@
}

/// Whether what `ping` printed says that the host answered.
pub open spec fn answered(raw_output: Seq<char>) -> bool {
    contains_text(raw_output, success_pattern())
}

/// What stands for the status of a probe that was ended by a signal and so
/// left no exit code.
pub open spec fn signal_status() -> Seq<char> {
    "Process terminated by signal"@
}

/// What every text field of a host holds until its first failed probe.
pub open spec fn placeholder() -> Seq<char> {
    "uninitialized"@
}

/// Whether what `ping` printed says that the host answered: one request
/// sent, one answer received, nothing lost.
pub fn classify(raw_output: &str) -> (ok: bool)
    ensures
        ok == answered(raw_output@),
{
    contains(raw_output, "1 packets transmitted, 1 received, 0% packet loss")
}

/// What one probe found.
#[derive(Debug, PartialEq, Eq)]
pub struct ProbeResult {
    pub success: bool,
    /// The exit code of a failed probe, in decimal; `None` after a success
    /// and where the probe was ended by a signal.
    pub exit_code: Option<String>,
    pub stdout_text: String,
    pub stderr_text: String,
}

/// A [`ProbeResult`] as plain values.
pub struct ProbeResultView {
    pub success: bool,
    pub exit_code: Option<Seq<char>>,
    pub stdout_text: Seq<char>,
    pub stderr_text: Seq<char>,
}

impl View for ProbeResult {
    type V = ProbeResultView;

    open spec fn view(&self) -> ProbeResultView {
        ProbeResultView {
            success: self.success,
            exit_code: match self.exit_code {
                Some(code) => Some(code@),
                None => None,
            },
            stdout_text: self.stdout_text@,
            stderr_text: self.stderr_text@,
        }
    }
}

impl DeepView for ProbeResult {
    type V = ProbeResultView;

    open spec fn deep_view(&self) -> ProbeResultView {
        self@
    }
}

impl ProbeResultView {
    /// The result of a probe that ended with `code`, or by a signal, and
    /// printed `stdout` and `stderr`. The host answered if the probe ended
    /// with code 0 and printed that its request was answered. Where it did
    /// not, the exit code is kept, if there is one.
    pub open spec fn of_output(
        code: Option<i32>,
        stdout: Seq<char>,
        stderr: Seq<char>,
    ) -> ProbeResultView {
        let success = code == Some(0i32) && answered(stdout);
        ProbeResultView {
            success,
            exit_code: match code {
                Some(code) if !success => Some(signed_decimal(code as int)),
                _ => None,
            },
            stdout_text: stdout,
            stderr_text: stderr,
        }
    }

    /// The status that a host shows after this result, if it is a failure.
    pub open spec fn status(self) -> Seq<char> {
        match self.exit_code {
            Some(code) => code,
            None => signal_status(),
        }
    }
}

/// The text that `String::from_utf8_lossy` makes of `bytes`.
pub uninterp spec fn lossy_text(bytes: Seq<u8>) -> Seq<char>;

/// `String::from_utf8_lossy` of std. Its result is a function of the bytes,
/// named [`lossy_text`]; bytes that are valid UTF-8 are the bytes of the
/// text that comes back, as std documents. What it puts in the place of
/// invalid bytes is not stated here.
#[verifier::external_body]
fn decode_lossy(bytes: &[u8]) -> (text: String)
    ensures
        text@ == lossy_text(bytes@),
        valid_utf8(bytes@) ==> encode_utf8(text@) == bytes@,
{
    String::from_utf8_lossy(bytes).into_owned()
}

impl ProbeResult {
    /// The result of a probe from its exit code, absent if a signal ended
    /// it, and the text that it printed.
    pub fn from_text(code: Option<i32>, stdout: String, stderr: String) -> (result: ProbeResult)
        ensures
            result@ == ProbeResultView::of_output(code, stdout@, stderr@),
    {
        match code {
            Some(0) if classify(stdout.as_str()) => ProbeResult {
                success: true,
                exit_code: None,
                stdout_text: stdout,
                stderr_text: stderr,
            },
            Some(code) => ProbeResult {
                success: false,
                exit_code: Some(decimal_i32(code)),
                stdout_text: stdout,
                stderr_text: stderr,
            },
            None => ProbeResult {
                success: false,
                exit_code: None,
                stdout_text: stdout,
                stderr_text: stderr,
            },
        }
    }

    /// The result of a probe from its exit code and the bytes that it
    /// printed. Bytes that are no UTF-8 are replaced as
    /// `String::from_utf8_lossy` replaces them.
    pub fn from_output(code: Option<i32>, stdout: &[u8], stderr: &[u8]) -> (result: ProbeResult)
        ensures
            result@ == ProbeResultView::of_output(
                code,
                lossy_text(stdout@),
                lossy_text(stderr@),
            ),
            valid_utf8(stdout@) ==> encode_utf8(result@.stdout_text) == stdout@,
            valid_utf8(stderr@) ==> encode_utf8(result@.stderr_text) == stderr@,
    {
        ProbeResult::from_text(code, decode_lossy(stdout), decode_lossy(stderr))
    }
}

/// A host that is probed, with what its last probes left behind.
///
/// `ok` is the outcome of the last probe. `status`, `stdout` and `stderr`
/// are those of the last probe that failed.
#[derive(Debug, PartialEq, Eq)]
pub struct PingEvent {
    pub url: String,
    pub status: String,
    pub stdout: String,
    pub stderr: String,
    pub ok: bool,
}

/// A [`PingEvent`] as plain values.
pub struct PingEventView {
    pub url: Seq<char>,
    pub status: Seq<char>,
    pub stdout: Seq<char>,
    pub stderr: Seq<char>,
    pub ok: bool,
}

impl View for PingEvent {
    type V = PingEventView;

    open spec fn view(&self) -> PingEventView {
        PingEventView {
            url: self.url@,
            status: self.status@,
            stdout: self.stdout@,
            stderr: self.stderr@,
            ok: self.ok,
        }
    }
}

impl DeepView for PingEvent {
    type V = PingEventView;

    open spec fn deep_view(&self) -> PingEventView {
        self@
    }
}

impl PingEventView {
    /// A host named `url` that was never probed.
    pub open spec fn fresh(url: Seq<char>) -> PingEventView {
        PingEventView {
            url,
            status: placeholder(),
            stdout: placeholder(),
            stderr: placeholder(),
            ok: true,
        }
    }

    /// The host after a probe of it that brought `result`. A success only
    /// sets the flag; a failure also replaces the diagnostics.
    pub open spec fn probed(self, result: ProbeResultView) -> PingEventView {
        if result.success {
            PingEventView { ok: true, ..self }
        } else {
            PingEventView {
                url: self.url,
                status: result.status(),
                stdout: result.stdout_text,
                stderr: result.stderr_text,
                ok: false,
            }
        }
    }

    /// The lines by which the diagnostics of this host are entered in the
    /// log. What the probe printed on its standard output is cut into its
    /// lines; what it printed on its standard error is one entry.
    pub open spec fn detail_lines(self) -> Seq<Seq<char>> {
        seq!["  url: "@ + self.url, "  status: "@ + self.status] + block_lines(
            "  stdout: "@ + self.stdout,
        ) + seq!["  stderr: "@ + self.stderr]
    }
}

impl Default for PingEvent {
    /// A host that was never probed and has no name yet.
    fn default() -> (host: PingEvent)
        ensures
            host@ == PingEventView::fresh(placeholder()),
    {
        PingEvent {
            url: "uninitialized".to_owned(),
            status: "uninitialized".to_owned(),
            stdout: "uninitialized".to_owned(),
            stderr: "uninitialized".to_owned(),
            ok: true,
        }
    }
}

impl Clone for PingEvent {
    fn clone(&self) -> (copy: PingEvent)
        ensures
            copy@ == self@,
    {
        PingEvent {
            url: self.url.clone(),
            status: self.status.clone(),
            stdout: self.stdout.clone(),
            stderr: self.stderr.clone(),
            ok: self.ok,
        }
    }
}

impl PingEvent {
    /// A host named `url` that was never probed.
    pub fn new(url: &str) -> (host: PingEvent)
        ensures
            host@ == PingEventView::fresh(url@),
    {
        PingEvent {
            url: url.to_owned(),
            status: "uninitialized".to_owned(),
            stdout: "uninitialized".to_owned(),
            stderr: "uninitialized".to_owned(),
            ok: true,
        }
    }

    /// Takes in what a probe of this host brought, and says whether the host
    /// answered.
    pub fn ping(&mut self, result: ProbeResult) -> (ok: bool)
        ensures
            final(self)@ == old(self)@.probed(result@),
            ok == result.success,
    {
        if result.success {
            self.ok = true;
        } else {
            self.status = match result.exit_code {
                Some(code) => code,
                None => "Process terminated by signal".to_owned(),
            };
            self.stdout = result.stdout_text;
            self.stderr = result.stderr_text;
            self.ok = false;
        }
        self.ok
    }

    /// The lines by which the diagnostics of this host are entered in the log.
    pub fn log_details(&self) -> (lines: Vec<String>)
        ensures
            lines.deep_view() == self@.detail_lines(),
    {
        let mut lines: Vec<String> = Vec::new();
        lines.push(glue("  url: ", self.url.as_str()));
        lines.push(glue("  status: ", self.status.as_str()));
        let ghost head = lines.deep_view();
        assert(head == seq!["  url: "@ + self@.url, "  status: "@ + self@.status]);
        let mut block = write_lines(glue("  stdout: ", self.stdout.as_str()).as_str());
        let ghost body = block.deep_view();
        lines.append(&mut block);
        assert(lines.deep_view() == head + body);
        lines.push(glue("  stderr: ", self.stderr.as_str()));
        assert(lines.deep_view() == head + body + seq!["  stderr: "@ + self@.stderr]);
        lines
    }
}

} // verus!
