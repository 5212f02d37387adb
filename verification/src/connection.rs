//! Device connection state: the status badge, the reason line, and the
//! decisions taken on the answers of the device probes (`adb get-state` for an
//! Android device, a one-frame capture for the PC client). Running the probes
//! is outside work.
use vstd::prelude::*;
use vstd::string::*;

use crate::text::{dec, is_blank, owned, push_dec, str_eq, trim_seq, trim_str};

verus! {

/// Connection state shown in the status badge.
#[derive(Debug, Clone, Copy, PartialEq, Eq)]
pub enum ConnectionState {
    /// Not checked yet.
    Unknown,
    /// A probe is running.
    Checking,
    /// Device or process found.
    Connected,
    /// Not found (with a reason).
    Disconnected,
}

/// The badge text of a state (ASCII brackets, no emoji).
pub open spec fn badge_spec(s: ConnectionState) -> Seq<char> {
    match s {
        ConnectionState::Unknown => "[?] 接続未確認"@,
        ConnectionState::Checking => "[..] 接続確認中"@,
        ConnectionState::Connected => "[OK] 接続済み"@,
        ConnectionState::Disconnected => "[NG] 未接続"@,
    }
}

impl ConnectionState {
    /// The badge text (see [`badge_spec`]).
    pub fn badge(self) -> (r: &'static str)
        ensures
            r@ == badge_spec(self),
    {
        match self {
            ConnectionState::Unknown => "[?] 接続未確認",
            ConnectionState::Checking => "[..] 接続確認中",
            ConnectionState::Connected => "[OK] 接続済み",
            ConnectionState::Disconnected => "[NG] 未接続",
        }
    }

    /// Whether the state is `Connected`.
    pub fn is_connected(self) -> (r: bool)
        ensures
            r == (self == ConnectionState::Connected),
    {
        match self {
            ConnectionState::Connected => true,
            _ => false,
        }
    }
}

/// Result of a connection check: the state and its detail or reason.
#[derive(Debug, Clone)]
pub struct ConnectionStatus {
    /// Connection state.
    pub state: ConnectionState,
    /// Detail of the check, or why it failed.
    pub detail: String,
}

impl Default for ConnectionStatus {
    fn default() -> (r: ConnectionStatus)
        ensures
            r.state == ConnectionState::Unknown,
            r.detail@ == "接続チェック未実行"@,
    {
        ConnectionStatus { state: ConnectionState::Unknown, detail: owned("接続チェック未実行") }
    }
}

/// The reason line: the detail, prefixed with `理由: ` when disconnected.
pub open spec fn reason_line_spec(state: ConnectionState, detail: Seq<char>) -> Seq<char> {
    match state {
        ConnectionState::Disconnected => "理由: "@ + detail,
        _ => detail,
    }
}

impl ConnectionStatus {
    /// The reason line (see [`reason_line_spec`]).
    pub fn reason_line(&self) -> (r: String)
        ensures
            r@ == reason_line_spec(self.state, self.detail@),
    {
        match self.state {
            ConnectionState::Disconnected => {
                let mut s = String::from_str("理由: ");
                s.append(self.detail.as_str());
                s
            },
            _ => self.detail.clone(),
        }
    }
}

fn disconnected(detail: String) -> (r: ConnectionStatus)
    ensures
        r.state == ConnectionState::Disconnected,
        r.detail@ == detail@,
{
    ConnectionStatus { state: ConnectionState::Disconnected, detail }
}

/// What `adb -s <serial> get-state` answered.
#[derive(Debug, Clone, PartialEq, Eq)]
pub enum AdbProbe {
    /// adb ran: whether it exited successfully, and its output as text.
    Ran { success: bool, stdout: String, stderr: String },
    /// adb could not be started (the error text).
    NotStarted(String),
}

/// The status when no serial was entered (blank after trimming), if so.
pub open spec fn blank_serial_spec(serial: Seq<char>) -> Option<(ConnectionState, Seq<char>)> {
    if trim_seq(serial).len() == 0 {
        Some((ConnectionState::Disconnected, "adb serial が未入力"@))
    } else {
        None
    }
}

/// The status for a blank serial (see [`blank_serial_spec`]); `None` when a
/// serial was entered and adb has to be asked with the trimmed serial.
pub fn blank_serial_status(serial: &str) -> (r: Option<ConnectionStatus>)
    ensures
        match r {
            Some(st) => blank_serial_spec(serial@) == Some((st.state, st.detail@)),
            None => blank_serial_spec(serial@) is None,
        },
{
    if is_blank(serial) {
        Some(disconnected(owned("adb serial が未入力")))
    } else {
        None
    }
}

/// The status decided from adb's answer for `serial`: connected when adb
/// succeeded and printed `device` (after trimming); otherwise disconnected
/// with the state printed, adb's error output, or why adb did not start.
pub open spec fn android_probe_spec(
    serial: Seq<char>,
    success: bool,
    stdout: Seq<char>,
    stderr: Seq<char>,
    not_started: Option<Seq<char>>,
) -> (ConnectionState, Seq<char>) {
    match not_started {
        Some(e) => (ConnectionState::Disconnected, "adb 起動失敗 (adb への PATH を確認): "@ + e),
        None => if success {
            if trim_seq(stdout) == "device"@ {
                (ConnectionState::Connected, "adb "@ + serial + ": device"@)
            } else {
                (
                    ConnectionState::Disconnected,
                    "adb "@ + serial + ": 状態が device でない ("@ + trim_seq(stdout) + ")"@,
                )
            }
        } else {
            (ConnectionState::Disconnected, "adb "@ + serial + ": get-state 失敗 ("@ + trim_seq(stderr) + ")"@)
        },
    }
}

/// The status decided from adb's answer (see [`android_probe_spec`]).
pub fn android_probe_status(serial: &str, probe: &AdbProbe) -> (r: ConnectionStatus)
    ensures
        (r.state, r.detail@) == match probe {
            AdbProbe::Ran { success, stdout, stderr } => android_probe_spec(
                serial@,
                *success,
                stdout@,
                stderr@,
                None,
            ),
            AdbProbe::NotStarted(e) => android_probe_spec(serial@, false, ""@, ""@, Some(e@)),
        },
{
    match probe {
        AdbProbe::NotStarted(e) => {
            let mut s = String::from_str("adb 起動失敗 (adb への PATH を確認): ");
            s.append(e.as_str());
            disconnected(s)
        },
        AdbProbe::Ran { success, stdout, stderr } => {
            let mut s = String::from_str("adb ");
            s.append(serial);
            if *success {
                let state = trim_str(stdout.as_str());
                if str_eq(state.as_str(), "device") {
                    s.append(": device");
                    ConnectionStatus { state: ConnectionState::Connected, detail: s }
                } else {
                    s.append(": 状態が device でない (");
                    s.append(state.as_str());
                    s.append(")");
                    disconnected(s)
                }
            } else {
                let err = trim_str(stderr.as_str());
                s.append(": get-state 失敗 (");
                s.append(err.as_str());
                s.append(")");
                disconnected(s)
            }
        },
    }
}

/// The status of the PC-client check on this build: an empty executable name
/// is reported as such; otherwise the capture backend is not available here.
pub open spec fn windows_process_spec(exe: Seq<char>) -> (ConnectionState, Seq<char>) {
    if trim_seq(exe).len() == 0 {
        (ConnectionState::Disconnected, "exe 名が未入力"@)
    } else {
        (ConnectionState::Disconnected, "Windows バックエンドはこの OS では利用不可"@)
    }
}

/// PC-client process check (see [`windows_process_spec`]).
pub fn check_windows_process(exe: &str) -> (r: ConnectionStatus)
    ensures
        (r.state, r.detail@) == windows_process_spec(exe@),
{
    if is_blank(exe) {
        disconnected(owned("exe 名が未入力"))
    } else {
        disconnected(owned("Windows バックエンドはこの OS では利用不可"))
    }
}

/// The status decided from a one-frame capture of the PC client `exe`:
/// connected with the frame size when the capture succeeded, otherwise
/// disconnected with the capture error.
pub open spec fn capture_probe_spec(exe: Seq<char>, capture: Result<(u32, u32), Seq<char>>) -> (
    ConnectionState,
    Seq<char>,
) {
    match capture {
        Ok((w, h)) => (
            ConnectionState::Connected,
            exe + ": プロセス検出済み ("@ + dec(w as nat) + "x"@ + dec(h as nat) + ")"@,
        ),
        Err(e) => (ConnectionState::Disconnected, exe + ": プロセス未検出 or キャプチャ失敗 ("@ + e + ")"@),
    }
}

/// The status decided from a one-frame capture (see [`capture_probe_spec`]).
pub fn capture_probe_status(exe: &str, capture: Result<(u32, u32), String>) -> (r: ConnectionStatus)
    ensures
        (r.state, r.detail@) == capture_probe_spec(
            exe@,
            match capture {
                Ok(wh) => Ok(wh),
                Err(e) => Err(e@),
            },
        ),
{
    let mut s = owned(exe);
    match capture {
        Ok((w, h)) => {
            s.append(": プロセス検出済み (");
            push_dec(&mut s, w as u64);
            s.append("x");
            push_dec(&mut s, h as u64);
            s.append(")");
            ConnectionStatus { state: ConnectionState::Connected, detail: s }
        },
        Err(e) => {
            s.append(": プロセス未検出 or キャプチャ失敗 (");
            s.append(e.as_str());
            s.append(")");
            disconnected(s)
        },
    }
}

} // verus!
