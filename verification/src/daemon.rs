use vstd::prelude::*;
use vstd::string::*;

use crate::response::joined;

verus! {

/// A request to the scanner daemon: the mode to enter (`enroll`, `identify` or
/// `disconnect`) and, for enrollment, the employee.
#[derive(Debug)]
pub struct ConnectionMessage {
    pub fingerprint_mode: String,
    pub emp_id: Option<String>,
}

/// The daemon's reply: `{"responseType": .., "responseMsg": ..}`. Type 0 means a
/// mode started, 1 that the client disconnected, 2 an error.
#[derive(Debug)]
pub struct ClientReply {
    pub response_type: u8,
    pub message: String,
}

/// What the daemon does besides replying.
#[derive(Debug, PartialEq, Eq, Structural)]
pub enum ClientAction {
    /// Nothing.
    Nothing,
    /// Wait for the running procedure to end, forget it, and close every open scanner.
    StopAndCloseScanners,
    /// Start identification on a thread of its own.
    StartIdentify,
}

/// The reply type, reply message and action for a request with mode `mode`
/// (with an employee or not) while a procedure holds the scanner (`busy`) or not.
/// Disconnection is always accepted; any other request is refused while a
/// procedure runs; only an idle daemon starts a mode.
pub open spec fn reply_for(mode: Seq<char>, has_emp_id: bool, busy: bool) -> (u8, Seq<char>, ClientAction) {
    if mode == "disconnect"@ {
        (1, "Disconnection successful."@, ClientAction::StopAndCloseScanners)
    } else if busy {
        (2, "Another procedure is using the scanner!"@, ClientAction::Nothing)
    } else if mode == "enroll"@ {
        if has_emp_id {
            (0, "Enrollment mode started."@, ClientAction::Nothing)
        } else {
            (2, "Employee ID not specified!"@, ClientAction::Nothing)
        }
    } else if mode == "identify"@ {
        (0, "Attendance mode started."@, ClientAction::StartIdentify)
    } else {
        (2, "Default Message"@, ClientAction::Nothing)
    }
}

/// The reply and action as a triple.
pub open spec fn outcome(res: (ClientReply, ClientAction)) -> (u8, Seq<char>, ClientAction) {
    (res.0.response_type, res.0.message@, res.1)
}

/// The daemon's answer to `msg` while a procedure holds the scanner (`busy`) or not.
pub fn handle_request(msg: &ConnectionMessage, busy: bool) -> (res: (ClientReply, ClientAction))
    ensures
        outcome(res) == reply_for(msg.fingerprint_mode@, msg.emp_id is Some, busy),
        msg.fingerprint_mode@ != "disconnect"@ && busy ==> res.0.response_type == 2
            && res.0.message@ == "Another procedure is using the scanner!"@ && res.1 == ClientAction::Nothing,
        msg.fingerprint_mode@ == "disconnect"@ ==> res.0.response_type == 1
            && res.0.message@ == "Disconnection successful."@ && res.1 == ClientAction::StopAndCloseScanners,
        !busy && msg.fingerprint_mode@ == "enroll"@ && msg.emp_id is Some ==> res.0.response_type == 0
            && res.0.message@ == "Enrollment mode started."@ && res.1 == ClientAction::Nothing,
        !busy && msg.fingerprint_mode@ == "enroll"@ && msg.emp_id is None ==> res.0.response_type == 2
            && res.0.message@ == "Employee ID not specified!"@ && res.1 == ClientAction::Nothing,
        !busy && msg.fingerprint_mode@ == "identify"@ ==> res.0.response_type == 0
            && res.0.message@ == "Attendance mode started."@ && res.1 == ClientAction::StartIdentify,
        !busy && msg.fingerprint_mode@ != "disconnect"@ && msg.fingerprint_mode@ != "enroll"@
            && msg.fingerprint_mode@ != "identify"@ ==> res.0.response_type == 2
            && res.0.message@ == "Default Message"@ && res.1 == ClientAction::Nothing,
{
    proof {
        reveal_strlit("disconnect");
        reveal_strlit("enroll");
        reveal_strlit("identify");
        assert("enroll"@[0] != "disconnect"@[0]);
        assert("identify"@[0] != "disconnect"@[0]);
        assert("identify"@[0] != "enroll"@[0]);
    }
    let disconnect = String::from_str("disconnect");
    let enroll = String::from_str("enroll");
    let identify = String::from_str("identify");
    if msg.fingerprint_mode.eq(&disconnect) {
        (
            ClientReply { response_type: 1, message: String::from_str("Disconnection successful.") },
            ClientAction::StopAndCloseScanners,
        )
    } else if busy {
        (
            ClientReply { response_type: 2, message: String::from_str("Another procedure is using the scanner!") },
            ClientAction::Nothing,
        )
    } else if msg.fingerprint_mode.eq(&enroll) {
        if msg.emp_id.is_none() {
            (
                ClientReply { response_type: 2, message: String::from_str("Employee ID not specified!") },
                ClientAction::Nothing,
            )
        } else {
            (
                ClientReply { response_type: 0, message: String::from_str("Enrollment mode started.") },
                ClientAction::Nothing,
            )
        }
    } else if msg.fingerprint_mode.eq(&identify) {
        (
            ClientReply { response_type: 0, message: String::from_str("Attendance mode started.") },
            ClientAction::StartIdentify,
        )
    } else {
        (ClientReply { response_type: 2, message: String::from_str("Default Message") }, ClientAction::Nothing)
    }
}

/// The daemon's own state: whether a procedure it started is still taking the
/// scanner. Identification marks the scanner as taken until a client disconnects.
pub struct ScannerDaemon {
    busy: bool,
}

impl ScannerDaemon {
    pub closed spec fn is_busy(self) -> bool {
        self.busy
    }

    pub fn new() -> (d: ScannerDaemon)
        ensures
            !d.is_busy(),
    {
        ScannerDaemon { busy: false }
    }

    /// Whether a procedure holds the scanner.
    pub fn busy(&self) -> (b: bool)
        ensures
            b == self.is_busy(),
    {
        self.busy
    }

    /// Answers `msg`, and notes whether a procedure now holds the scanner.
    pub fn handle(&mut self, msg: &ConnectionMessage) -> (res: (ClientReply, ClientAction))
        ensures
            outcome(res) == reply_for(msg.fingerprint_mode@, msg.emp_id is Some, old(self).is_busy()),
            msg.fingerprint_mode@ != "disconnect"@ && old(self).is_busy() ==> res.0.response_type == 2
                && res.0.message@ == "Another procedure is using the scanner!"@ && res.1 == ClientAction::Nothing,
            msg.fingerprint_mode@ == "disconnect"@ ==> res.0.response_type == 1
                && res.0.message@ == "Disconnection successful."@ && res.1 == ClientAction::StopAndCloseScanners,
            !old(self).is_busy() && msg.fingerprint_mode@ == "enroll"@ && msg.emp_id is Some ==> res.0.response_type == 0
                && res.0.message@ == "Enrollment mode started."@ && res.1 == ClientAction::Nothing,
            !old(self).is_busy() && msg.fingerprint_mode@ == "enroll"@ && msg.emp_id is None ==> res.0.response_type == 2
                && res.0.message@ == "Employee ID not specified!"@ && res.1 == ClientAction::Nothing,
            !old(self).is_busy() && msg.fingerprint_mode@ == "identify"@ ==> res.0.response_type == 0
                && res.0.message@ == "Attendance mode started."@ && res.1 == ClientAction::StartIdentify,
            !old(self).is_busy() && msg.fingerprint_mode@ != "disconnect"@ && msg.fingerprint_mode@ != "enroll"@
                && msg.fingerprint_mode@ != "identify"@ ==> res.0.response_type == 2
                && res.0.message@ == "Default Message"@ && res.1 == ClientAction::Nothing,
            res.1 == ClientAction::StopAndCloseScanners ==> !final(self).is_busy(),
            res.1 == ClientAction::StartIdentify ==> final(self).is_busy(),
            res.1 == ClientAction::Nothing ==> final(self).is_busy() == old(self).is_busy(),
    {
        let res = handle_request(msg, self.busy);
        match res.1 {
            ClientAction::StopAndCloseScanners => {
                self.busy = false;
            },
            ClientAction::StartIdentify => {
                self.busy = true;
            },
            ClientAction::Nothing => {},
        }
        res
    }
}

/// While a procedure holds the scanner, every request but disconnection is
/// refused with the same answer, whatever its mode and employee; disconnection is
/// accepted whether the scanner is held or not; an idle daemon starts enrollment
/// for a given employee, and identification.
pub proof fn daemon_answers(mode: Seq<char>, has_emp_id: bool, busy: bool)
    ensures
        mode != "disconnect"@ && busy ==> reply_for(mode, has_emp_id, busy) == (
            2u8,
            "Another procedure is using the scanner!"@,
            ClientAction::Nothing,
        ),
        mode == "disconnect"@ ==> reply_for(mode, has_emp_id, busy) == (
            1u8,
            "Disconnection successful."@,
            ClientAction::StopAndCloseScanners,
        ),
        !busy && mode == "enroll"@ ==> reply_for(mode, has_emp_id, busy) == (if has_emp_id {
            (0u8, "Enrollment mode started."@, ClientAction::Nothing)
        } else {
            (2u8, "Employee ID not specified!"@, ClientAction::Nothing)
        }),
        !busy && mode == "identify"@ ==> reply_for(mode, has_emp_id, busy) == (
            0u8,
            "Attendance mode started."@,
            ClientAction::StartIdentify,
        ),
{
    reveal_strlit("disconnect");
    reveal_strlit("enroll");
    reveal_strlit("identify");
    assert("enroll"@[0] != "disconnect"@[0]);
    assert("identify"@[0] != "disconnect"@[0]);
    assert("identify"@[0] != "enroll"@[0]);
}

/// The address the daemon listens on: `host:port`.
pub fn listen_address(host: &str, port: &str) -> (s: String)
    ensures
        s@ == host@ + ":"@ + port@,
{
    let mut s = String::from_str(host);
    s.append(":");
    s.append(port);
    s
}

} // verus!
