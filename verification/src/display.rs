//! Assembly of the label strings and CSV text that the model hands to its
//! surroundings.  The numeric part of a label, when there is one, is passed
//! in already rendered; this module owns everything else about the text.

use vstd::prelude::*;

verus! {

/// Label for the derived target voltage: a placeholder when the value is
/// unknown, otherwise the prefix followed by the rendered number.
pub fn target_display(num: Option<&str>) -> (s: String)
    ensures
        num is None ==> s@ == "Target V = ?"@,
        num matches Some(t) ==> s@ == "Target V = "@ + t@,
{
    match num {
        None => "Target V = ?".to_owned(),
        Some(t) => {
            let mut s = "Target V = ".to_owned();
            s.append(t);
            s
        },
    }
}

/// Label for the derived actual angle, in the same shape.
pub fn actual_display(num: Option<&str>) -> (s: String)
    ensures
        num is None ==> s@ == "Actual angle = ?"@,
        num matches Some(t) ==> s@ == "Actual angle = "@ + t@,
{
    match num {
        None => "Actual angle = ?".to_owned(),
        Some(t) => {
            let mut s = "Actual angle = ".to_owned();
            s.append(t);
            s
        },
    }
}

/// Header line of a freshly created log file.
pub fn csv_header() -> (s: String)
    ensures
        s@ == "v0,v,theta"@,
{
    "v0,v,theta".to_owned()
}

/// One log record: the three rendered values, comma-separated.
pub fn csv_record(v0_text: &str, v_text: &str, theta_text: &str) -> (s: String)
    ensures
        s@ == v0_text@ + ","@ + v_text@ + ","@ + theta_text@,
{
    let mut s = v0_text.to_owned();
    s.append(",");
    s.append(v_text);
    s.append(",");
    s.append(theta_text);
    s
}

/// The log file name for a stem the user chose.
pub fn csv_path(stem: &str) -> (s: String)
    ensures
        s@ == stem@ + ".csv"@,
{
    let mut s = stem.to_owned();
    s.append(".csv");
    s
}

/// The suggested log-file stem with the given index.
pub fn filename_candidate(i: u64) -> (s: String)
    ensures
        s@ == "hall_angles_"@ + crate::digits::dec_repr(i as nat),
{
    let mut s = "hall_angles_".to_owned();
    let num = crate::digits::u64_to_dec(i);
    s.append(num.as_str());
    s
}

/// Outcome of one step of the default-filename scan.
#[derive(Debug)]
pub enum ProbeStep {
    /// The file for this index does not exist: suggest this stem.
    Take { stem: String },
    /// The file exists: probe the next index.
    Next { i: u64 },
}

/// One step of the scan for a default log-file stem: given whether the
/// file for index `i` already exists, either take `hall_angles_<i>` or
/// move on to the next index.  The first index taken is thereby the least
/// one whose file is absent.
pub fn probe_step(i: u64, exists: bool) -> (r: ProbeStep)
    requires
        i < u64::MAX,
    ensures
        !exists ==> (r matches ProbeStep::Take { stem } && stem@ == "hall_angles_"@
            + crate::digits::dec_repr(i as nat)),
        exists ==> (r matches ProbeStep::Next { i: next } && next == i + 1),
{
    if !exists {
        ProbeStep::Take { stem: filename_candidate(i) }
    } else {
        ProbeStep::Next { i: i + 1 }
    }
}

} // verus!
