//! Rendering of one value change as a line of text.

use vstd::prelude::*;
use vstd::string::StringExecFns;
use crate::node::{NodeId, node_id_text, node_text};
use crate::status::{status_code_text, status_text};

verus! {

/// What the server reported for one value change: the value, rendered as
/// text, when it carries one, and the status code when it carries one.
#[derive(Clone, Debug)]
pub struct DataValue {
    pub value: Option<String>,
    pub status: Option<u32>,
}

/// The status a data value reports: a data value without a status code is
/// good, and good is the code zero.
pub open spec fn reported_status(dv: DataValue) -> u32 {
    match dv.status {
        Some(code) => code,
        None => 0,
    }
}

/// The text of the value a data value carries, if any.
pub open spec fn value_text(dv: DataValue) -> Option<Seq<char>> {
    match dv.value {
        Some(v) => Some(v@),
        None => None,
    }
}

/// The line for a value change that carries a value.
pub open spec fn value_line(timestamp: Seq<char>, node: Seq<char>, value: Seq<char>) -> Seq<char> {
    "["@ + timestamp + "] "@ + node + " = "@ + value
}

/// The line for a value change without a value: the reported status instead.
pub open spec fn status_line(timestamp: Seq<char>, node: Seq<char>, status: Seq<char>) -> Seq<
    char,
> {
    "["@ + timestamp + "] Item \""@ + node + "\", Value not found, error: "@ + status
}

/// The stamp every line starts with.
pub open spec fn stamp(timestamp: Seq<char>) -> Seq<char> {
    "["@ + timestamp + "] "@
}

/// The line for a value change: the value when there is one, else the status.
pub open spec fn line_of(
    timestamp: Seq<char>,
    node: Seq<char>,
    value: Option<Seq<char>>,
    status: Seq<char>,
) -> Seq<char> {
    match value {
        Some(v) => value_line(timestamp, node, v),
        None => status_line(timestamp, node, status),
    }
}

/// Builds the line for a value change from the texts of its parts.
pub fn compose_line(
    timestamp: &str,
    node: &str,
    value: &Option<String>,
    status: &str,
) -> (r: String)
    ensures
        r@ == line_of(
            timestamp@,
            node@,
            match value {
                Some(v) => Some(v@),
                None => None,
            },
            status@,
        ),
{
    match value {
        Some(v) => {
            let mut line = String::from_str("[");
            line.append(timestamp);
            line.append("] ");
            line.append(node);
            line.append(" = ");
            line.append(v.as_str());
            line
        },
        None => {
            let mut line = String::from_str("[");
            line.append(timestamp);
            line.append("] Item \"");
            line.append(node);
            line.append("\", Value not found, error: ");
            line.append(status);
            line
        },
    }
}

/// The line for a value change of `node` seen at `timestamp`.
pub fn render_value(timestamp: &str, node: &NodeId, data_value: &DataValue) -> (r: String)
    ensures
        r@ == line_of(
            timestamp@,
            node_id_text(node.namespace, node.identifier@),
            value_text(*data_value),
            status_text(reported_status(*data_value)),
        ),
{
    let node_str = node_text(node);
    let code: u32 = match data_value.status {
        Some(c) => c,
        None => 0,
    };
    let status_str = status_code_text(code);
    compose_line(timestamp, node_str.as_str(), &data_value.value, status_str.as_str())
}

/// Whether a character is a decimal digit.
pub open spec fn is_digit(c: char) -> bool {
    '0' <= c <= '9'
}

/// A time of day to the millisecond: `HH:MM:SS.mmm`.
pub open spec fn is_time_of_day(t: Seq<char>) -> bool {
    &&& t.len() == 12
    &&& t[2] == ':' && t[5] == ':' && t[8] == '.'
    &&& is_digit(t[0]) && is_digit(t[1]) && is_digit(t[3]) && is_digit(t[4])
    &&& is_digit(t[6]) && is_digit(t[7])
    &&& is_digit(t[9]) && is_digit(t[10]) && is_digit(t[11])
}

/// Relies on chrono's `Local::now` and `format("%H:%M:%S.%3f")`: the local
/// time of day as two-digit hours, minutes and seconds separated by colons,
/// a dot, and three digits of milliseconds.
#[verifier::external_body]
fn local_time_of_day() -> (r: String)
    ensures
        is_time_of_day(r@),
{
    chrono::Local::now().format("%H:%M:%S.%3f").to_string()
}

/// The line for a value change of `node` seen now, stamped with the local
/// time of day.
pub fn render_value_now(node: &NodeId, data_value: &DataValue) -> (r: String)
    ensures
        exists|t: Seq<char>|
            is_time_of_day(t) && r@ == line_of(
                t,
                node_id_text(node.namespace, node.identifier@),
                value_text(*data_value),
                status_text(reported_status(*data_value)),
            ),
{
    let timestamp = local_time_of_day();
    render_value(timestamp.as_str(), node, data_value)
}

/// Every line starts with the stamp of its time; after it the line shows
/// the value when there is one, and the status, never the value, when there
/// is none.
pub proof fn lemma_exactly_one_branch(
    timestamp: Seq<char>,
    node: Seq<char>,
    value: Option<Seq<char>>,
    status: Seq<char>,
)
    ensures
        line_of(timestamp, node, value, status).subrange(0, timestamp.len() + 3int) == stamp(
            timestamp,
        ),
        value is Some ==> line_of(timestamp, node, value, status) == value_line(
            timestamp,
            node,
            value->0,
        ),
        value is None ==> line_of(timestamp, node, value, status) == status_line(
            timestamp,
            node,
            status,
        ),
{
    reveal_strlit("[");
    reveal_strlit("] ");
    reveal_strlit("] Item \"");
    let line = line_of(timestamp, node, value, status);
    assert(line.subrange(0, timestamp.len() + 3int) =~= stamp(timestamp));
}

} // verus!
