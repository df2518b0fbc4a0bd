//! The decisions of the process layer: which invocations may run, which
//! binaries and ports are tried and in what order, and how an exit status
//! and output become a result. Spawning, waiting and killing are left to
//! the caller; every function here is pure.

use vstd::prelude::*;

use crate::ansi::{strip_ansi, strip_spec};
use crate::text::{lower_of,
    all_digits, append_str, cat, chars_of, contains, dec, dec_string, is_digit, occurs_at_exec,
    string_of, to_lower, trim, trim_spec, seq_contains,
};
use crate::pattern::group_spec;
use crate::types::AppError;
use crate::version::parse_detailed_hw_version;

verus! {

/// The separator the tool reads between commands, and the line breaks.
pub open spec fn is_forbidden(c: char) -> bool {
    c == ';' || c == '\n' || c == '\r'
}

pub open spec fn has_forbidden(s: Seq<char>) -> bool {
    exists|i: int| 0 <= i < s.len() && is_forbidden(#[trigger] s[i])
}

pub open spec fn is_word_char(c: char) -> bool {
    is_digit(c) || ('a' <= c && c <= 'z') || ('A' <= c && c <= 'Z') || c == '_'
}

/// Serial port names: `COM<n>` with no leading zero, `/dev/ttyACM<d>` or
/// `/dev/ttyUSB<d>` with one or two digits, `/dev/tty.usbmodem<word>`.
pub open spec fn port_shape(s: Seq<char>) -> bool {
    ||| (s.len() >= 4 && s.take(3) == "COM"@ && '1' <= s[3] && s[3] <= '9' && all_digits(s.skip(4)))
    ||| ((s.len() == 12 || s.len() == 13) && (s.take(11) == "/dev/ttyACM"@ || s.take(11)
        == "/dev/ttyUSB"@) && all_digits(s.skip(11)))
    ||| (s.len() > 17 && s.take(17) == "/dev/tty.usbmodem"@ && forall|i: int|
        17 <= i < s.len() ==> is_word_char(#[trigger] s[i]))
}

/// An invocation may run: a well-formed port and a command that holds no
/// separator or line break.
pub open spec fn invocation_ok(port: Seq<char>, cmd: Seq<char>) -> bool {
    port_shape(port) && !has_forbidden(cmd) && !has_forbidden(port)
}

fn starts_with(v: &Vec<char>, p: &str) -> (r: bool)
    ensures
        r == (p@.len() <= v@.len() && v@.take(p@.len() as int) == p@),
{
    let pv = chars_of(p);
    let r = occurs_at_exec(v, &pv, 0);
    assert(r ==> v@.subrange(0, pv@.len() as int) == v@.take(pv@.len() as int));
    r
}

fn digits_from(v: &Vec<char>, k: usize) -> (r: bool)
    requires
        k <= v.len(),
    ensures
        r == all_digits(v@.skip(k as int)),
{
    let mut i: usize = k;
    while i < v.len()
        invariant
            k <= i <= v.len(),
            forall|j: int| k <= j < i ==> is_digit(#[trigger] v@[j]),
        decreases v.len() - i,
    {
        if !('0' <= v[i] && v[i] <= '9') {
            assert(v@.skip(k as int)[i - k] == v@[i as int]);
            return false;
        }
        i = i + 1;
    }
    assert forall|j: int| 0 <= j < v@.skip(k as int).len() implies is_digit(
        #[trigger] v@.skip(k as int)[j],
    ) by {
        assert(v@.skip(k as int)[j] == v@[k + j]);
    }
    true
}

/// Whether `port` names a serial port in one of the accepted shapes.
pub fn is_valid_port(port: &str) -> (r: bool)
    ensures
        r == port_shape(port@),
{
    let v = chars_of(port);
    proof {
        reveal_strlit("COM");
        reveal_strlit("/dev/ttyACM");
        reveal_strlit("/dev/ttyUSB");
        reveal_strlit("/dev/tty.usbmodem");
    }
    if v.len() >= 4 && starts_with(&v, "COM") && '1' <= v[3] && v[3] <= '9' && digits_from(&v, 4) {
        return true;
    }
    if (v.len() == 12 || v.len() == 13) && (starts_with(&v, "/dev/ttyACM") || starts_with(
        &v,
        "/dev/ttyUSB",
    )) && digits_from(&v, 11) {
        return true;
    }
    if v.len() > 17 && starts_with(&v, "/dev/tty.usbmodem") {
        assert(v@.take(17)[0] == '/');
        assert(v@.take(3)[0] == '/');
        let mut i: usize = 17;
        while i < v.len()
            invariant
                v@ == port@,
                v@.take(3)[0] == '/',
                v@.take(17) == "/dev/tty.usbmodem"@,
                17 <= i <= v.len(),
                forall|j: int| 17 <= j < i ==> is_word_char(#[trigger] v@[j]),
            decreases v.len() - i,
        {
            let c = v[i];
            if !(('0' <= c && c <= '9') || ('a' <= c && c <= 'z') || ('A' <= c && c <= 'Z') || c
                == '_') {
                assert(!is_word_char(port@[i as int]));
                proof {
                    reveal_strlit("COM");
                    assert(port@.take(3)[0] != "COM"@[0]);
                }
                return false;
            }
            i = i + 1;
        }
        assert forall|j: int| 17 <= j < port@.len() implies is_word_char(#[trigger] port@[j]) by {
            assert(v@[j] == port@[j]);
        }
        return true;
    }
    false
}

/// Whether `s` holds a separator or line break.
pub fn port_has_forbidden(s: &str) -> (r: bool)
    ensures
        r == has_forbidden(s@),
{
    let v = chars_of(s);
    let mut i: usize = 0;
    while i < v.len()
        invariant
            v@ == s@,
            i <= v.len(),
            forall|j: int| 0 <= j < i ==> !is_forbidden(#[trigger] v@[j]),
        decreases v.len() - i,
    {
        if v[i] == ';' || v[i] == '\n' || v[i] == '\r' {
            return true;
        }
        i = i + 1;
    }
    false
}

/// The one check every invocation passes before a process is spawned.
pub fn validate_invocation(port: &str, cmd: &str) -> (r: Result<(), AppError>)
    ensures
        r is Ok <==> invocation_ok(port@, cmd@),
        r is Err ==> r->Err_0 is CommandFailed,
{
    if !is_valid_port(port) {
        return Err(AppError::CommandFailed(cat("Invalid port: ", port)));
    }
    if port_has_forbidden(cmd) || port_has_forbidden(port) {
        return Err(AppError::CommandFailed(String::from_str("Invalid characters in command")));
    }
    Ok(())
}

/// A well-formed port never holds a separator or line break, so the
/// validation rejects exactly the invocations with a malformed port or with
/// a separator or line break in the command, and accepts every well-formed
/// port with a clean command.
pub proof fn lemma_port_validation(port: Seq<char>, cmd: Seq<char>)
    ensures
        port_shape(port) ==> !has_forbidden(port),
        has_forbidden(port) || has_forbidden(cmd) ==> !invocation_ok(port, cmd),
        port_shape(port) && !has_forbidden(cmd) ==> invocation_ok(port, cmd),
{
    reveal_strlit("COM");
    reveal_strlit("/dev/ttyACM");
    reveal_strlit("/dev/ttyUSB");
    reveal_strlit("/dev/tty.usbmodem");
    if port_shape(port) {
        assert forall|i: int| 0 <= i < port.len() implies !is_forbidden(#[trigger] port[i]) by {
            if port.len() >= 4 && port.take(3) == "COM"@ && '1' <= port[3] && port[3] <= '9'
                && all_digits(port.skip(4)) {
                if i < 3 {
                    assert(port.take(3)[i] == port[i]);
                } else if i >= 4 {
                    assert(port.skip(4)[i - 4] == port[i]);
                }
            } else if (port.len() == 12 || port.len() == 13) && (port.take(11) == "/dev/ttyACM"@
                || port.take(11) == "/dev/ttyUSB"@) && all_digits(port.skip(11)) {
                if i < 11 {
                    assert(port.take(11)[i] == port[i]);
                } else {
                    assert(port.skip(11)[i - 11] == port[i]);
                }
            } else {
                if i < 17 {
                    assert(port.take(17)[i] == port[i]);
                }
            }
        }
    }
}

/// Target platforms, which decide where the tool is looked for and which
/// serial ports are probed.
#[derive(Clone, Copy, Debug, PartialEq, Eq, Structural)]
pub enum Platform {
    Windows,
    MacOs,
    Linux,
}

pub open spec fn binary_names_spec(p: Platform) -> Seq<Seq<char>> {
    match p {
        Platform::Windows => seq![
            "proxmark3"@,
            "proxmark3-win-c"@,
            "proxmark3-win-progfiles"@,
        ],
        Platform::MacOs => seq!["proxmark3"@, "proxmark3-mac-local"@, "proxmark3-mac-brew"@],
        Platform::Linux => seq!["proxmark3"@, "proxmark3-linux-local"@, "proxmark3-linux-usr"@],
    }
}

/// The names under which the tool binary is tried after the bundled copy:
/// the name resolved through `PATH` first, then the platform's usual
/// install locations.
pub fn pm3_scope_names(platform: Platform) -> (r: Vec<&'static str>)
    ensures
        r@.map_values(|s: &'static str| s@) == binary_names_spec(platform),
{
    let mut names: Vec<&'static str> = Vec::new();
    names.push("proxmark3");
    match platform {
        Platform::Windows => {
            names.push("proxmark3-win-c");
            names.push("proxmark3-win-progfiles");
        },
        Platform::MacOs => {
            names.push("proxmark3-mac-local");
            names.push("proxmark3-mac-brew");
        },
        Platform::Linux => {
            names.push("proxmark3-linux-local");
            names.push("proxmark3-linux-usr");
        },
    }
    assert(names@.map_values(|s: &'static str| s@) =~= binary_names_spec(platform));
    names
}

/// Linux candidates alternate between ACM and USB devices, by index.
pub open spec fn linux_candidate(i: int) -> Seq<char> {
    (if i % 2 == 0 {
        "/dev/ttyACM"@
    } else {
        "/dev/ttyUSB"@
    }) + dec((i / 2) as nat)
}

/// The serial ports probed during discovery, in order.
pub fn build_port_candidates(platform: Platform) -> (r: Vec<String>)
    ensures
        platform is Windows ==> r@.len() == 40 && forall|i: int|
            0 <= i < 40 ==> #[trigger] r@[i]@ == "COM"@ + dec((i + 1) as nat),
        platform is Linux ==> r@.len() == 12 && forall|i: int|
            0 <= i < 12 ==> #[trigger] r@[i]@ == linux_candidate(i),
        platform is MacOs ==> r@.len() == 7,
{
    let mut ports: Vec<String> = Vec::new();
    match platform {
        Platform::Windows => {
            let mut i: u64 = 1;
            while i <= 40
                invariant
                    1 <= i <= 41,
                    ports@.len() == i - 1,
                    forall|k: int| 0 <= k < i - 1 ==> #[trigger] ports@[k]@ == "COM"@ + dec(
                        (k + 1) as nat,
                    ),
                decreases 41 - i,
            {
                ports.push(cat("COM", dec_string(i).as_str()));
                i = i + 1;
            }
        },
        Platform::MacOs => {
            ports.push(String::from_str("/dev/tty.usbmodemiceman1"));
            ports.push(String::from_str("/dev/tty.usbmodem14101"));
            ports.push(String::from_str("/dev/tty.usbmodem14201"));
            ports.push(String::from_str("/dev/tty.usbmodem14301"));
            ports.push(String::from_str("/dev/tty.usbmodem1"));
            ports.push(String::from_str("/dev/tty.usbmodem2"));
            ports.push(String::from_str("/dev/tty.usbmodem3"));
        },
        Platform::Linux => {
            let mut i: u64 = 0;
            while i <= 5
                invariant
                    i <= 6,
                    ports@.len() == 2 * i,
                    forall|k: int| 0 <= k < 2 * i ==> #[trigger] ports@[k]@ == linux_candidate(k),
                decreases 6 - i,
            {
                let d = dec_string(i);
                ports.push(cat("/dev/ttyACM", d.as_str()));
                ports.push(cat("/dev/ttyUSB", d.as_str()));
                assert((2 * i as int) % 2 == 0 && (2 * i as int) / 2 == i);
                assert((2 * i as int + 1) % 2 == 1 && (2 * i as int + 1) / 2 == i);
                i = i + 1;
            }
        },
    }
    ports
}

/// Decimal rendering of a signed exit code.
pub open spec fn signed_dec(n: int) -> Seq<char> {
    if n < 0 {
        "-"@ + dec((-n) as nat)
    } else {
        dec(n as nat)
    }
}

fn signed_dec_string(n: i32) -> (r: String)
    ensures
        r@ == signed_dec(n as int),
{
    if n < 0 {
        let m: u64 = (-(n as i64)) as u64;
        cat("-", dec_string(m).as_str())
    } else {
        dec_string(n as u64)
    }
}

/// Exit codes with which the tool reports its own timeout.
pub open spec fn is_tool_timeout(code: i32) -> bool {
    code == -5 || code == 251
}

/// How a finished one-shot run is reported: its stripped output on exit 0,
/// a timeout for the tool's timeout codes, else a failure carrying the exit
/// code and the stripped error output (or standard output when the error
/// output is empty). A missing code is given as -1.
pub fn classify_exit(code: i32, stdout: &str, stderr: &str, cmd: &str) -> (r: Result<
    String,
    AppError,
>)
    ensures
        code == 0 ==> r is Ok && r->Ok_0@ == strip_spec(stdout@),
        is_tool_timeout(code) ==> r is Err && r->Err_0 is Timeout && r->Err_0->Timeout_0@
            == "PM3 timed out running: "@ + cmd@,
        code != 0 && !is_tool_timeout(code) ==> r is Err && r->Err_0 is CommandFailed
            && r->Err_0->CommandFailed_0@ == "Exit code "@ + signed_dec(code as int) + ": "@ + (
        if stderr@.len() == 0 {
            strip_spec(stdout@)
        } else {
            strip_spec(stderr@)
        }),
{
    if code == 0 {
        return Ok(strip_ansi(stdout));
    }
    if code == -5 || code == 251 {
        return Err(AppError::Timeout(cat("PM3 timed out running: ", cmd)));
    }
    let detail = if stderr.unicode_len() == 0 {
        strip_ansi(stdout)
    } else {
        strip_ansi(stderr)
    };
    let mut m = String::from_str("Exit code ");
    append_str(&mut m, signed_dec_string(code).as_str());
    append_str(&mut m, ": ");
    append_str(&mut m, detail.as_str());
    Err(AppError::CommandFailed(m))
}

/// How a finished streaming run is reported, given its exit code (`None`
/// when the stream closed without one) and the accumulated output.
pub fn classify_stream_exit(exit_code: Option<i32>, accumulated: String) -> (r: Result<
    String,
    AppError,
>)
    ensures
        (exit_code is None || exit_code == Some(0i32)) ==> r is Ok && r->Ok_0 == accumulated,
        exit_code is Some && is_tool_timeout(exit_code->0) ==> r is Err && r->Err_0 is Timeout
            && r->Err_0->Timeout_0@ == "PM3 subprocess timed out"@,
        exit_code is Some && exit_code->0 != 0 && !is_tool_timeout(exit_code->0) ==> r is Err
            && r->Err_0 is CommandFailed && r->Err_0->CommandFailed_0@ == "PM3 exited with code "@
            + signed_dec(exit_code->0 as int),
{
    match exit_code {
        None => Ok(accumulated),
        Some(code) => {
            if code == 0 {
                Ok(accumulated)
            } else if code == -5 || code == 251 {
                Err(AppError::Timeout(String::from_str("PM3 subprocess timed out")))
            } else {
                Err(
                    AppError::CommandFailed(
                        cat("PM3 exited with code ", signed_dec_string(code).as_str()),
                    ),
                )
            }
        },
    }
}

/// One streamed output chunk as delivered to the per-line callback: ANSI
/// stripped and trimmed; `None` when nothing is left.
pub fn stream_line(raw: &str) -> (r: Option<String>)
    ensures
        match r {
            Some(l) => l@ == trim_spec(strip_spec(raw@)) && l@.len() > 0,
            None => trim_spec(strip_spec(raw@)).len() == 0,
        },
{
    let cleaned = strip_ansi(raw);
    let t = trim(cleaned.as_str());
    if t.unicode_len() == 0 {
        None
    } else {
        Some(t)
    }
}

/// Appends a delivered line and its terminator to the accumulated output,
/// keeping the order in which lines arrived.
pub fn accumulate_line(acc: &mut String, line: &str)
    ensures
        final(acc)@ == old(acc)@ + line@ + "\n"@,
{
    append_str(acc, line);
    append_str(acc, "\n");
}

/// The first `v` followed by an ASCII digit, at or after `i`.
pub open spec fn first_version_start(s: Seq<char>, i: int) -> Option<int>
    decreases s.len() - i,
{
    if i < 0 || i + 1 >= s.len() {
        None
    } else if s[i] == 'v' && is_digit(s[i + 1]) {
        Some(i)
    } else {
        first_version_start(s, i + 1)
    }
}

pub open spec fn is_version_char(c: char) -> bool {
    c == 'v' || is_digit(c) || c == '.'
}

/// End of the run of version characters that starts at `j`.
pub open spec fn version_end(s: Seq<char>, j: int) -> int
    decreases s.len() - j,
{
    if 0 <= j < s.len() && is_version_char(s[j]) {
        version_end(s, j + 1)
    } else {
        j
    }
}

/// The short version (`v4.20728`) inside a full version string, or the
/// whole string when it holds none.
pub open spec fn short_version_spec(s: Seq<char>) -> Seq<char> {
    match first_version_start(s, 0) {
        Some(p) => s.subrange(p, version_end(s, p)),
        None => s,
    }
}

proof fn lemma_version_end_bounds(s: Seq<char>, j: int)
    requires
        0 <= j <= s.len(),
    ensures
        j <= version_end(s, j) <= s.len(),
    decreases s.len() - j,
{
    if j < s.len() && is_version_char(s[j]) {
        lemma_version_end_bounds(s, j + 1);
    }
}

/// The short version (`v4.20728`) inside a full version string such as
/// `Iceman/master/v4.20728-358-ga2ba91043-suspect`.
pub fn extract_short_version(version_str: &str) -> (r: String)
    ensures
        r@ == short_version_spec(version_str@),
{
    let v = chars_of(version_str);
    let mut p: usize = 0;
    while p < v.len() && p + 1 < v.len() && !(v[p] == 'v' && '0' <= v[p + 1] && v[p + 1] <= '9')
        invariant
            p <= v.len(),
            first_version_start(v@, 0) == first_version_start(v@, p as int),
        decreases v.len() - p,
    {
        p = p + 1;
    }
    if p >= v.len() || p + 1 >= v.len() {
        return String::from_str(version_str);
    }
    let mut e: usize = p;
    proof {
        lemma_version_end_bounds(v@, p as int);
    }
    while e < v.len() && (v[e] == 'v' || ('0' <= v[e] && v[e] <= '9') || v[e] == '.')
        invariant
            p <= e <= v.len(),
            version_end(v@, e as int) == version_end(v@, p as int),
        decreases v.len() - e,
    {
        e = e + 1;
    }
    let mut out: Vec<char> = Vec::new();
    let mut i: usize = p;
    while i < e
        invariant
            p <= i <= e,
            e <= v.len(),
            out@ == v@.subrange(p as int, i as int),
        decreases e - i,
    {
        out.push(v[i]);
        i = i + 1;
    }
    string_of(&out)
}

/// Model and short firmware version from `hw version` output: the device
/// firmware version, else the client version; a Proxmark that reports
/// neither gives "unknown"; `None` when the output is not from a Proxmark.
pub open spec fn hw_os_spec(out: Seq<char>) -> Seq<char> {
    match group_spec(crate::version::OS_VERSION_RE@, strip_spec(out), 1) {
        Some(g) => trim_spec(g),
        None => Seq::empty(),
    }
}

pub open spec fn hw_client_spec(out: Seq<char>) -> Seq<char> {
    crate::version::first_trimmed_group(
        crate::version::CLIENT_VERSION_RE@,
        crate::version::CLIENT_SECTION_RE@,
        strip_spec(out),
    )
}

/// Whether `hw version` output identifies a device.
pub open spec fn hw_identified(out: Seq<char>) -> bool {
    hw_os_spec(out).len() > 0 || hw_client_spec(out).len() > 0 || seq_contains(
        lower_of(out),
        "proxmark"@,
    )
}

/// The short firmware version shown for the device.
pub open spec fn hw_firmware_spec(out: Seq<char>) -> Seq<char> {
    if hw_os_spec(out).len() > 0 {
        short_version_spec(hw_os_spec(out))
    } else if hw_client_spec(out).len() > 0 {
        short_version_spec(hw_client_spec(out))
    } else {
        "unknown"@
    }
}

pub fn parse_hw_version(output: &str) -> (r: Option<(String, String)>)
    ensures
        r is Some <==> hw_identified(output@),
        r is Some ==> r.unwrap().1@ == hw_firmware_spec(output@),
{
    let info = parse_detailed_hw_version(output);
    let version_str = if info.os_version.unicode_len() > 0 {
        info.os_version
    } else if info.client_version.unicode_len() > 0 {
        info.client_version
    } else {
        let low = to_lower(output);
        let lv = chars_of(low.as_str());
        if contains(&lv, "proxmark") {
            return Some((info.model, String::from_str("unknown")));
        }
        return None;
    };
    let firmware = extract_short_version(version_str.as_str());
    Some((info.model, firmware))
}

/// What discovery does after probing one port.
pub enum ProbeStep {
    /// A device answered: port, model and firmware.
    Found(String, String, String),
    /// Stop discovery with this error.
    Abort(AppError),
    /// Try the next port.
    Next,
}

/// The text of an error as the tool layer reports it to the user.
pub open spec fn error_text_spec(e: AppError) -> Seq<char> {
    match e {
        AppError::DeviceNotFound => "PM3 not found on any port"@,
        AppError::CommandFailed(m) => "PM3 command failed: "@ + m@,
        AppError::NoCardFound => "No card detected"@,
        AppError::WriteFailed(m) => "Write failed: "@ + m@,
        AppError::DatabaseError(m) => "Database error: "@ + m@,
        AppError::InvalidTransition(m) => "Invalid state transition: "@ + m@,
        AppError::Timeout(m) => "Timeout: "@ + m@,
    }
}

pub fn error_text(e: &AppError) -> (r: String)
    ensures
        r@ == error_text_spec(*e),
{
    match e {
        AppError::DeviceNotFound => String::from_str("PM3 not found on any port"),
        AppError::CommandFailed(m) => cat("PM3 command failed: ", m.as_str()),
        AppError::NoCardFound => String::from_str("No card detected"),
        AppError::WriteFailed(m) => cat("Write failed: ", m.as_str()),
        AppError::DatabaseError(m) => cat("Database error: ", m.as_str()),
        AppError::InvalidTransition(m) => cat("Invalid state transition: ", m.as_str()),
        AppError::Timeout(m) => cat("Timeout: ", m.as_str()),
    }
}

/// The discovery decision for one port, from the result of running
/// `hw version` on it. A capability mismatch is a device with mismatched
/// firmware, not a failure; a missing binary ends discovery.
pub fn probe_step(port: &str, result: Result<String, AppError>) -> (r: ProbeStep)
    ensures
        match result {
            Ok(out) => if hw_identified(out@) {
                r is Found && r->Found_0@ == port@ && r->Found_2@ == hw_firmware_spec(out@)
            } else {
                r is Next
            },
            Err(e) => if seq_contains(lower_of(error_text_spec(e)), "capabilities"@) {
                r is Found && r->Found_0@ == port@ && r->Found_1@ == "Proxmark3"@ && r->Found_2@
                    == "mismatched"@
            } else if seq_contains(error_text_spec(e), "Failed to spawn proxmark3"@) {
                r == ProbeStep::Abort(e)
            } else {
                r is Next
            },
        },
{
    match result {
        Ok(output) => match parse_hw_version(output.as_str()) {
            Some((model, firmware)) => ProbeStep::Found(String::from_str(port), model, firmware),
            None => ProbeStep::Next,
        },
        Err(e) => {
            let msg = error_text(&e);
            let low = to_lower(msg.as_str());
            let lv = chars_of(low.as_str());
            if contains(&lv, "capabilities") {
                return ProbeStep::Found(
                    String::from_str(port),
                    String::from_str("Proxmark3"),
                    String::from_str("mismatched"),
                );
            }
            let mv = chars_of(msg.as_str());
            if contains(&mv, "Failed to spawn proxmark3") {
                return ProbeStep::Abort(e);
            }
            ProbeStep::Next
        },
    }
}

/// The error recorded when discovery found no device: a missing binary is
/// told apart from a missing device; either way the user may retry.
pub fn discovery_error_action(e: &AppError) -> (r: crate::state::WizardAction)
    ensures
        r is ReportError && r->ReportError_recoverable && r->ReportError_recovery_action == Some(
            crate::types::RecoveryAction::Retry,
        ) && r->ReportError_message@ == error_text_spec(*e),
{
    let msg = error_text(e);
    let v = chars_of(msg.as_str());
    let missing_binary = contains(&v, "spawn") || contains(&v, "not found") || contains(
        &v,
        "No such file",
    ) || contains(&v, "program not found");
    let user_message = if missing_binary {
        String::from_str("Proxmark3 binary not found. Ensure proxmark3 is installed and in your PATH.")
    } else {
        String::from_str("No Proxmark3 device found. Check your USB connection.")
    };
    crate::state::WizardAction::ReportError {
        message: msg,
        user_message,
        recoverable: true,
        recovery_action: Some(crate::types::RecoveryAction::Retry),
    }
}

} // verus!
