//! The command-line client's logic: where requests go, how failures read, and
//! how machines are shown.

use crate::responses::{MachineLaunchResponse, MachineMutationResponse, MachineSummary};
use crate::text::{
    is_blank, signed_decimal, signed_decimal_string, strip_trailing,
    trim_end_char, trim_spec,
};
use vstd::prelude::*;

verus! {

/// The control plane the client talks to unless told otherwise.
pub const DEFAULT_CONTROL_PLANE_URL: &'static str = "http://127.0.0.1:3000";

/// The control plane to talk to: the one given, or the default.
pub fn control_plane_url(given: Option<String>) -> (url: String)
    ensures
        match given {
            Some(g) => url == g,
            None => url@ == DEFAULT_CONTROL_PLANE_URL@,
        },
{
    match given {
        Some(g) => g,
        None => String::from_str(DEFAULT_CONTROL_PLANE_URL),
    }
}

/// The URL of `path` on `control_plane`: the base without trailing slashes, then
/// the path with exactly the one leading slash it may lack.
pub open spec fn endpoint(control_plane: Seq<char>, path: Seq<char>) -> Seq<char> {
    strip_trailing(control_plane, '/') + if path.len() > 0 && path[0] == '/' {
        path
    } else {
        "/"@ + path
    }
}

/// Joins a control plane's address and a request path.
pub fn endpoint_url(control_plane: &str, path: &str) -> (url: String)
    ensures
        url@ == endpoint(control_plane@, path@),
{
    let base = trim_end_char(control_plane, '/');
    let mut url = String::from_str(base);
    if path.unicode_len() > 0 && path.get_char(0) == '/' {
        url.append(path);
    } else {
        url.append("/");
        url.append(path);
    }
    url
}

/// What a failed request reports: the response body, or the status when the body
/// is blank.
pub fn failure_message(status: &str, body: String) -> (m: String)
    ensures
        trim_spec(body@).len() == 0 ==> m@ == "control plane returned "@ + status@,
        trim_spec(body@).len() != 0 ==> m == body,
{
    if is_blank(body.as_str()) {
        let mut m = String::from_str("control plane returned ");
        m.append(status);
        m
    } else {
        body
    }
}

/// The first listed machine with identifier `machine_id`.
pub fn find_machine(machines: &Vec<MachineSummary>, machine_id: &str) -> (r: Option<usize>)
    ensures
        match r {
            Some(i) => i < machines@.len() && machines@[i as int].machine_id@ == machine_id@
                && forall|j: int| 0 <= j < i ==> (#[trigger] machines@[j]).machine_id@ != machine_id@,
            None => forall|j: int|
                0 <= j < machines@.len() ==> (#[trigger] machines@[j]).machine_id@ != machine_id@,
        },
{
    let target = String::from_str(machine_id);
    let mut i: usize = 0;
    while i < machines.len()
        invariant
            i <= machines@.len(),
            target@ == machine_id@,
            forall|j: int| 0 <= j < i ==> (#[trigger] machines@[j]).machine_id@ != machine_id@,
        decreases machines@.len() - i,
    {
        if machines[i].machine_id == target {
            return Some(i);
        }
        i = i + 1;
    }
    None
}

/// `n` spaces.
pub open spec fn spaces(n: nat) -> Seq<char>
    decreases n,
{
    if n == 0 {
        Seq::empty()
    } else {
        spaces((n - 1) as nat) + " "@
    }
}

/// `s` padded with spaces on the right to `width` characters, as `{:<width}` pads.
pub open spec fn pad_right(s: Seq<char>, width: nat) -> Seq<char> {
    if s.len() < width {
        s + spaces((width - s.len()) as nat)
    } else {
        s
    }
}

/// Appends `s` padded to `width` characters.
fn append_padded(out: &mut String, s: &str, width: usize)
    ensures
        final(out)@ == old(out)@ + pad_right(s@, width as nat),
{
    out.append(s);
    let len = s.unicode_len();
    if len < width {
        let mut k: usize = len;
        while k < width
            invariant
                len <= k <= width,
                len == s@.len(),
                out@ == old(out)@ + s@ + spaces((k - len) as nat),
            decreases width - k,
        {
            out.append(" ");
            k = k + 1;
            assert(spaces((k - len) as nat) == spaces((k - 1 - len) as nat) + " "@);
        }
    }
}

/// An exit code as the client shows it: the number, or `-` when there is none.
pub open spec fn exit_text(code: Option<i32>) -> Seq<char> {
    match code {
        Some(c) => signed_decimal(c as int),
        None => "-"@,
    }
}

fn exit_string(code: Option<i32>) -> (s: String)
    ensures
        s@ == exit_text(code),
{
    match code {
        Some(c) => signed_decimal_string(c as i64),
        None => String::from_str("-"),
    }
}

/// The header of the machine table.
pub open spec fn table_header() -> Seq<char> {
    pad_right("id"@, 36) + "  "@ + pad_right("name"@, 20) + "  "@ + pad_right("node"@, 20) + "  "@
        + pad_right("state"@, 10) + "  exit"@
}

/// One machine's row in the machine table.
pub open spec fn table_row(m: MachineSummary) -> Seq<char> {
    pad_right(m.machine_id@, 36) + "  "@ + pad_right(m.machine_name@, 20) + "  "@ + pad_right(
        m.node_id@,
        20,
    ) + "  "@ + pad_right(m.state.name_text(), 10) + "  "@ + exit_text(m.exit_code)
}

/// The lines of the machine table: a notice when there are no machines, else a
/// header and one row per machine.
pub fn machine_table_lines(machines: &Vec<MachineSummary>) -> (lines: Vec<String>)
    ensures
        machines@.len() == 0 ==> lines@.len() == 1 && lines@[0]@ == "No machines stored"@,
        machines@.len() > 0 ==> {
            &&& lines@.len() == machines@.len() + 1
            &&& lines@[0]@ == table_header()
            &&& forall|k: int| 0 <= k < machines@.len() ==> #[trigger] lines@[k + 1]@ == table_row(machines@[k])
        },
{
    let mut lines: Vec<String> = Vec::new();
    if machines.len() == 0 {
        lines.push(String::from_str("No machines stored"));
        return lines;
    }
    let mut header = String::new();
    append_padded(&mut header, "id", 36);
    header.append("  ");
    append_padded(&mut header, "name", 20);
    header.append("  ");
    append_padded(&mut header, "node", 20);
    header.append("  ");
    append_padded(&mut header, "state", 10);
    header.append("  exit");
    assert(header@ =~= table_header());
    lines.push(header);
    let mut i: usize = 0;
    while i < machines.len()
        invariant
            i <= machines@.len(),
            lines@.len() == i + 1,
            lines@[0]@ == table_header(),
            forall|k: int| 0 <= k < i ==> #[trigger] lines@[k + 1]@ == table_row(machines@[k]),
        decreases machines@.len() - i,
    {
        let m = &machines[i];
        let mut row = String::new();
        append_padded(&mut row, m.machine_id.as_str(), 36);
        row.append("  ");
        append_padded(&mut row, m.machine_name.as_str(), 20);
        row.append("  ");
        append_padded(&mut row, m.node_id.as_str(), 20);
        row.append("  ");
        append_padded(&mut row, m.state.name(), 10);
        row.append("  ");
        row.append(exit_string(m.exit_code).as_str());
        assert(row@ =~= table_row(*m));
        lines.push(row);
        i = i + 1;
    }
    lines
}

/// The lines describing one machine in detail.
pub open spec fn detail_lines(m: MachineSummary) -> Seq<Seq<char>> {
    seq![
        "id:      "@ + m.machine_id@,
        "name:    "@ + m.machine_name@,
        "node:    "@ + m.node_id@,
        "state:   "@ + m.state.name_text(),
        "command: "@ + m.command@,
        "exit:    "@ + exit_text(m.exit_code),
        Seq::empty(),
        "stdout:"@,
        m.stdout@,
        Seq::empty(),
        "stderr:"@,
        m.stderr@,
    ]
}

/// Describes one machine in detail, line by line.
pub fn machine_detail_lines(m: &MachineSummary) -> (lines: Vec<String>)
    ensures
        lines@.len() == 12,
        forall|k: int| 0 <= k < 12 ==> #[trigger] lines@[k]@ == detail_lines(*m)[k],
{
    let mut lines: Vec<String> = Vec::new();
    let mut l0 = String::from_str("id:      ");
    l0.append(m.machine_id.as_str());
    lines.push(l0);
    let mut l1 = String::from_str("name:    ");
    l1.append(m.machine_name.as_str());
    lines.push(l1);
    let mut l2 = String::from_str("node:    ");
    l2.append(m.node_id.as_str());
    lines.push(l2);
    let mut l3 = String::from_str("state:   ");
    l3.append(m.state.name());
    lines.push(l3);
    let mut l4 = String::from_str("command: ");
    l4.append(m.command.as_str());
    lines.push(l4);
    let mut l5 = String::from_str("exit:    ");
    l5.append(exit_string(m.exit_code).as_str());
    lines.push(l5);
    lines.push(String::new());
    lines.push(String::from_str("stdout:"));
    lines.push(m.stdout.clone());
    lines.push(String::new());
    lines.push(String::from_str("stderr:"));
    lines.push(m.stderr.clone());
    lines
}

/// The error the client reports when no listed machine has identifier `machine_id`.
pub fn missing_machine_message(machine_id: &str) -> (m: String)
    ensures
        m@ == "No machine found with id="@ + machine_id@,
{
    let mut m = String::from_str("No machine found with id=");
    m.append(machine_id);
    m
}

/// What the client prints after queueing a machine.
pub fn launch_report_lines(r: &MachineLaunchResponse) -> (lines: Vec<String>)
    ensures
        lines@.len() == 6,
        lines@[0]@ == "queued machine"@,
        lines@[1]@ == "  id:      "@ + r.machine_id@,
        lines@[2]@ == "  name:    "@ + r.machine_name@,
        lines@[3]@ == "  node:    "@ + r.node_id@,
        lines@[4]@ == "  state:   "@ + r.state.name_text(),
        lines@[5]@ == "  command: "@ + r.command@,
{
    let mut lines: Vec<String> = Vec::new();
    lines.push(String::from_str("queued machine"));
    let mut l1 = String::from_str("  id:      ");
    l1.append(r.machine_id.as_str());
    lines.push(l1);
    let mut l2 = String::from_str("  name:    ");
    l2.append(r.machine_name.as_str());
    lines.push(l2);
    let mut l3 = String::from_str("  node:    ");
    l3.append(r.node_id.as_str());
    lines.push(l3);
    let mut l4 = String::from_str("  state:   ");
    l4.append(r.state.name());
    lines.push(l4);
    let mut l5 = String::from_str("  command: ");
    l5.append(r.command.as_str());
    lines.push(l5);
    lines
}

/// What the client prints after removing a machine.
pub fn stop_report_lines(r: &MachineMutationResponse) -> (lines: Vec<String>)
    ensures
        lines@.len() == 2,
        lines@[0] == r.message,
        lines@[1]@ == "machine_id: "@ + r.machine_id@,
{
    let mut lines: Vec<String> = Vec::new();
    lines.push(r.message.clone());
    let mut l1 = String::from_str("machine_id: ");
    l1.append(r.machine_id.as_str());
    lines.push(l1);
    lines
}

} // verus!
