//! The conversion state and its transitions.

use vstd::prelude::*;

verus! {

/// The user-editable state of the converter.
///
/// Each numeric field keeps the raw text the user typed beside the value it
/// parsed to, so a failed edit still redisplays verbatim.  Voltages are
/// opaque IEEE-754 bit patterns supplied by whoever parses the text; the
/// target angle is parsed and range-checked here.
pub struct ConversionState {
    /// Raw text of the reference-voltage field.
    pub v0_text: String,
    /// Bit pattern of the parsed reference voltage, absent when the text
    /// does not parse to a finite value.
    pub v0_bits: Option<u64>,
    /// Raw text of the target-angle field.
    pub theta_text: String,
    /// Target angle in whole degrees, absent when the text is not an
    /// integer in [0, 90].
    pub theta: Option<i64>,
    /// Raw text of the measured-voltage field.
    pub v_text: String,
    /// Bit pattern of the parsed measured voltage, absent when the text
    /// does not parse to a finite value.
    pub v_bits: Option<u64>,
    /// Render the target voltage in scientific notation.
    pub scientific: bool,
    /// Stem of the log file the next save writes to.
    pub filename: String,
}

/// Whether a bit pattern is a finite 64-bit float: the eleven exponent
/// bits are not all ones (all ones encodes the infinities and NaN).
pub open spec fn finite_bits(b: u64) -> bool {
    b & 0x7FF0000000000000 != 0x7FF0000000000000
}

/// The voltage a field edit stores: the parsed bit pattern when it is
/// finite, absent otherwise.  An infinity or NaN from the parser is
/// treated like a failed parse.
pub open spec fn stored_voltage(bits: Option<u64>) -> Option<u64> {
    match bits {
        Some(b) => if finite_bits(b) {
            Some(b)
        } else {
            None
        },
        None => None,
    }
}

fn keep_finite(bits: Option<u64>) -> (r: Option<u64>)
    ensures
        r == stored_voltage(bits),
{
    match bits {
        Some(b) => if b & 0x7FF0000000000000 != 0x7FF0000000000000 {
            Some(b)
        } else {
            None
        },
        None => None,
    }
}

/// The angle a target-angle edit stores: the text must be an optionally
/// signed integer whose value lies in [0, 90].
pub open spec fn theta_from_text(s: Seq<char>) -> Option<i64> {
    match crate::digits::int_literal_value(s) {
        Some(v) => if 0 <= v && v <= 90 {
            Some(v as i64)
        } else {
            None
        },
        None => None,
    }
}

/// Parse a target-angle edit: accepted exactly when the text is an
/// optionally signed decimal integer with value in [0, 90].
pub fn parse_theta_text(s: &str) -> (r: Option<i64>)
    ensures
        r == theta_from_text(s@),
{
    let n = s.unicode_len();
    if n == 0 {
        return None;
    }
    let first = s.get_char(0);
    let has_sign = first == '+' || first == '-';
    let start: usize = if has_sign {
        1
    } else {
        0
    };
    if n == start {
        // a sign with no digits after it
        return None;
    }
    let mut i: usize = start;
    // the value of the digits read so far, capped just above the angle range
    let mut acc: u64 = 0;
    while i < n
        invariant
            start <= i <= n,
            n == s@.len(),
            start == 1 <==> (s@[0] == '+' || s@[0] == '-'),
            start == 0 || start == 1,
            acc <= 91,
            forall|j: int| start <= j < i ==> crate::digits::is_digit(#[trigger] s@[j]),
            crate::digits::digits_value(s@.subrange(start as int, i as int)) <= 90 ==> acc
                == crate::digits::digits_value(s@.subrange(start as int, i as int)),
            crate::digits::digits_value(s@.subrange(start as int, i as int)) > 90 ==> acc == 91,
        decreases n - i,
    {
        let c = s.get_char(i);
        let u = c as u32;
        if u < 48 || u > 57 {
            proof {
                lemma_not_literal_with_bad_char(s@, start as int, i as int);
            }
            return None;
        }
        let d: u64 = (u - 48) as u64;
        proof {
            let prefix = s@.subrange(start as int, i as int);
            assert(s@.subrange(start as int, i as int + 1) =~= prefix.push(s@[i as int]));
            assert(prefix.push(s@[i as int]).drop_last() =~= prefix);
            assert(crate::digits::all_digits(prefix)) by {
                assert(forall|k: int|
                    0 <= k < prefix.len() ==> crate::digits::is_digit(#[trigger] prefix[k])
                        && prefix[k] == s@[start + k]);
            }
            crate::digits::lemma_digits_value_nonneg(prefix);
        }
        acc = if acc >= 91 {
            91
        } else {
            let t = acc * 10 + d;
            if t > 90 {
                91
            } else {
                t
            }
        };
        i = i + 1;
    }
    proof {
        let digits = s@.subrange(start as int, n as int);
        assert(crate::digits::all_digits(digits)) by {
            assert(forall|k: int|
                0 <= k < digits.len() ==> crate::digits::is_digit(#[trigger] digits[k])
                    && digits[k] == s@[start + k]);
        }
        crate::digits::lemma_digits_value_nonneg(digits);
        if start == 0 {
            assert(digits =~= s@);
        }
    }
    if first == '-' {
        if acc == 0 {
            Some(0)
        } else {
            None
        }
    } else {
        if acc <= 90 {
            Some(acc as i64)
        } else {
            None
        }
    }
}

proof fn lemma_not_literal_with_bad_char(s: Seq<char>, start: int, i: int)
    requires
        0 < s.len(),
        start == 0 || start == 1,
        start == 1 <==> (s[0] == '+' || s[0] == '-'),
        start <= i < s.len(),
        !crate::digits::is_digit(s[i]),
    ensures
        crate::digits::int_literal_value(s) is None,
{
    if start == 1 {
        let digits = s.subrange(1, s.len() as int);
        assert(digits[i - 1] == s[i]);
        assert(!crate::digits::all_digits(digits));
    } else {
        assert(!crate::digits::all_digits(s));
    }
}

impl ConversionState {
    /// The stored angle is in range and always agrees with its text, and
    /// a stored voltage is always finite.
    pub open spec fn wf(self) -> bool {
        &&& (self.theta matches Some(t) ==> 0 <= t && t <= 90)
        &&& self.theta == theta_from_text(self.theta_text@)
        &&& (self.v0_bits matches Some(b) ==> finite_bits(b))
        &&& (self.v_bits matches Some(b) ==> finite_bits(b))
    }

    /// Fresh state: angle zero, everything else empty, with the given
    /// suggested log-file stem.
    pub fn new(filename: String) -> (s: Self)
        ensures
            s.wf(),
            s.v0_text@.len() == 0,
            s.v0_bits is None,
            s.theta == Some(0i64),
            s.theta_text@ == crate::digits::dec_repr(0),
            s.v_text@.len() == 0,
            s.v_bits is None,
            s.scientific == false,
            s.filename == filename,
    {
        let theta_text = crate::digits::u64_to_dec(0);
        proof {
            crate::digits::lemma_dec_repr_parses_back(0);
        }
        ConversionState {
            v0_text: String::new(),
            v0_bits: None,
            theta_text,
            theta: Some(0),
            v_text: String::new(),
            v_bits: None,
            scientific: false,
            filename,
        }
    }

    /// Edit the reference-voltage field.  `bits` is the bit pattern the
    /// text parsed to, absent on a parse failure; the raw text is kept
    /// verbatim for redisplay either way.  Only a finite value is stored:
    /// an infinity or NaN collapses the field to absent, like a failed
    /// parse.
    pub fn set_v0(&mut self, raw: String, bits: Option<u64>)
        requires
            old(self).wf(),
        ensures
            final(self).wf(),
            final(self).v0_text == raw,
            final(self).v0_bits == stored_voltage(bits),
            final(self).theta_text == old(self).theta_text,
            final(self).theta == old(self).theta,
            final(self).v_text == old(self).v_text,
            final(self).v_bits == old(self).v_bits,
            final(self).scientific == old(self).scientific,
            final(self).filename == old(self).filename,
    {
        self.v0_text = raw;
        self.v0_bits = keep_finite(bits);
    }

    /// Edit the measured-voltage field, in the same shape as `set_v0`:
    /// raw text kept verbatim, only a finite value stored.
    pub fn set_v(&mut self, raw: String, bits: Option<u64>)
        requires
            old(self).wf(),
        ensures
            final(self).wf(),
            final(self).v_text == raw,
            final(self).v_bits == stored_voltage(bits),
            final(self).v0_text == old(self).v0_text,
            final(self).v0_bits == old(self).v0_bits,
            final(self).theta_text == old(self).theta_text,
            final(self).theta == old(self).theta,
            final(self).scientific == old(self).scientific,
            final(self).filename == old(self).filename,
    {
        self.v_text = raw;
        self.v_bits = keep_finite(bits);
    }

    /// Edit the target-angle field: the raw text is kept verbatim, and the
    /// stored angle becomes its parsed value exactly when that value is an
    /// integer in [0, 90].
    pub fn set_theta(&mut self, raw: String)
        requires
            old(self).wf(),
        ensures
            final(self).wf(),
            final(self).theta_text == raw,
            final(self).theta == theta_from_text(raw@),
            final(self).v0_text == old(self).v0_text,
            final(self).v0_bits == old(self).v0_bits,
            final(self).v_text == old(self).v_text,
            final(self).v_bits == old(self).v_bits,
            final(self).scientific == old(self).scientific,
            final(self).filename == old(self).filename,
    {
        self.theta = parse_theta_text(raw.as_str());
        self.theta_text = raw;
    }

    /// Nudge the target angle by one of the button steps and clamp the
    /// result to [0, 90].  With no angle set this is a no-op; after a bump
    /// the displayed text is regenerated from the new value.
    pub fn bump_theta(&mut self, delta: i64)
        requires
            old(self).wf(),
            delta == 1 || delta == 5 || delta == -1 || delta == -5,
        ensures
            final(self).wf(),
            final(self).theta == bumped_theta(old(self).theta, delta as int),
            match old(self).theta {
                Some(t) => final(self).theta_text@ == crate::digits::dec_repr(
                    clamp_degrees(t + delta) as nat,
                ),
                None => final(self).theta_text == old(self).theta_text,
            },
            final(self).v0_text == old(self).v0_text,
            final(self).v0_bits == old(self).v0_bits,
            final(self).v_text == old(self).v_text,
            final(self).v_bits == old(self).v_bits,
            final(self).scientific == old(self).scientific,
            final(self).filename == old(self).filename,
    {
        match self.theta {
            Some(t) => {
                let b = t + delta;
                let c: i64 = if b < 0 {
                    0
                } else if b > 90 {
                    90
                } else {
                    b
                };
                self.theta = Some(c);
                self.theta_text = crate::digits::u64_to_dec(c as u64);
                proof {
                    crate::digits::lemma_dec_repr_parses_back(c as nat);
                }
            },
            None => {},
        }
    }

    /// Switch the target-voltage display between scientific and fixed-point
    /// notation.
    pub fn toggle_scientific(&mut self, flag: bool)
        requires
            old(self).wf(),
        ensures
            final(self).wf(),
            final(self).scientific == flag,
            final(self).v0_text == old(self).v0_text,
            final(self).v0_bits == old(self).v0_bits,
            final(self).theta_text == old(self).theta_text,
            final(self).theta == old(self).theta,
            final(self).v_text == old(self).v_text,
            final(self).v_bits == old(self).v_bits,
            final(self).filename == old(self).filename,
    {
        self.scientific = flag;
    }

    /// Edit the log-file stem; the text is stored verbatim, unvalidated.
    pub fn set_filename(&mut self, raw: String)
        requires
            old(self).wf(),
        ensures
            final(self).wf(),
            final(self).filename == raw,
            final(self).v0_text == old(self).v0_text,
            final(self).v0_bits == old(self).v0_bits,
            final(self).theta_text == old(self).theta_text,
            final(self).theta == old(self).theta,
            final(self).v_text == old(self).v_text,
            final(self).v_bits == old(self).v_bits,
            final(self).scientific == old(self).scientific,
    {
        self.filename = raw;
    }

    /// Return to the initial state, with a freshly suggested log-file stem.
    pub fn reset(&mut self, filename: String)
        ensures
            final(self).wf(),
            final(self).v0_text@.len() == 0,
            final(self).v0_bits is None,
            final(self).theta == Some(0i64),
            final(self).theta_text@ == crate::digits::dec_repr(0),
            final(self).v_text@.len() == 0,
            final(self).v_bits is None,
            final(self).scientific == false,
            final(self).filename == filename,
    {
        *self = Self::new(filename);
    }

    /// What the target-voltage display can be computed from right now.
    pub fn target_voltage(&self) -> (r: TargetVoltage)
        ensures
            r == target_of(*self),
    {
        match self.v0_bits {
            Some(b) => match self.theta {
                Some(t) => if t == 90 {
                    TargetVoltage::ExactZero
                } else {
                    TargetVoltage::Cosine { v0_bits: b, theta_deg: t }
                },
                None => TargetVoltage::Unknown,
            },
            None => TargetVoltage::Unknown,
        }
    }

    /// What the actual-angle display can be computed from right now.
    pub fn actual_angle(&self) -> (r: ActualAngle)
        ensures
            r == actual_of(*self),
    {
        match self.v_bits {
            Some(a) => match self.v0_bits {
                Some(b) => ActualAngle::Acos { v_bits: a, v0_bits: b },
                None => ActualAngle::Unknown,
            },
            None => ActualAngle::Unknown,
        }
    }

    /// Whether a save would write anything: both voltages must be present.
    pub fn can_save(&self) -> (r: bool)
        ensures
            r == (self.v0_bits is Some && self.v_bits is Some),
    {
        self.v0_bits.is_some() && self.v_bits.is_some()
    }

    /// What a save press does: nothing when the stem is empty or a voltage
    /// is missing, otherwise an append to `<stem>.csv` of the two stored
    /// voltages (the angle column is recomputed from them by the writer).
    pub fn save_plan(&self) -> (r: SavePlan)
        ensures
            (self.filename@.len() == 0 || self.v0_bits is None || self.v_bits is None)
                <==> r is NoSave,
            r matches SavePlan::Save { path, v0_bits, v_bits } ==> path@ == self.filename@
                + ".csv"@ && self.v0_bits == Some(v0_bits) && self.v_bits == Some(v_bits),
    {
        if self.filename.as_str().is_empty() {
            return SavePlan::NoSave;
        }
        match self.v0_bits {
            Some(b0) => match self.v_bits {
                Some(b) => SavePlan::Save {
                    path: crate::display::csv_path(self.filename.as_str()),
                    v0_bits: b0,
                    v_bits: b,
                },
                None => SavePlan::NoSave,
            },
            None => SavePlan::NoSave,
        }
    }
}

/// The clamp applied after a bump.
pub open spec fn clamp_degrees(v: int) -> int {
    if v < 0 {
        0
    } else if v > 90 {
        90
    } else {
        v
    }
}

/// What a bump does to the stored angle.
pub open spec fn bumped_theta(t: Option<i64>, delta: int) -> Option<i64> {
    match t {
        Some(x) => Some(clamp_degrees(x + delta) as i64),
        None => None,
    }
}

/// What the target voltage is derived from: nothing, the exact zero at
/// 90°, or a cosine evaluation on the stored inputs.
pub open spec fn target_of(s: ConversionState) -> TargetVoltage {
    match s.v0_bits {
        Some(b) => match s.theta {
            Some(t) => if t == 90 {
                TargetVoltage::ExactZero
            } else {
                TargetVoltage::Cosine { v0_bits: b, theta_deg: t }
            },
            None => TargetVoltage::Unknown,
        },
        None => TargetVoltage::Unknown,
    }
}

/// What the actual angle is derived from.
pub open spec fn actual_of(s: ConversionState) -> ActualAngle {
    match s.v_bits {
        Some(a) => match s.v0_bits {
            Some(b) => ActualAngle::Acos { v_bits: a, v0_bits: b },
            None => ActualAngle::Unknown,
        },
        None => ActualAngle::Unknown,
    }
}

/// How the target-voltage display is obtained: either it is underived, or
/// it is exactly zero, or it is `v0 * cos(radians(theta))` evaluated
/// outside on the carried inputs.
#[derive(Debug, PartialEq, Eq, Structural)]
pub enum TargetVoltage {
    /// The reference voltage or the angle is missing.
    Unknown,
    /// The angle is 90°: the voltage is exactly zero, no evaluation.
    ExactZero,
    /// Evaluate `v0 * cos(radians(theta_deg))` on these inputs.
    Cosine { v0_bits: u64, theta_deg: i64 },
}

/// How the actual-angle display is obtained: underived, or
/// `degrees(acos(v / v0))` evaluated outside on the carried inputs.
#[derive(Debug, PartialEq, Eq, Structural)]
pub enum ActualAngle {
    /// One of the voltages is missing.
    Unknown,
    /// Evaluate `degrees(acos(v / v0))` on these inputs.
    Acos { v_bits: u64, v0_bits: u64 },
}

/// What a save press does.
#[derive(Debug)]
pub enum SavePlan {
    /// The stem is empty or a voltage is missing: write nothing.
    NoSave,
    /// Append a record of these two voltages to the file at `path`.
    Save { path: String, v0_bits: u64, v_bits: u64 },
}

/// Bumping against a boundary of the clamp leaves the angle where it is:
/// an upward step at 90° and a downward step at 0° both change nothing.
pub proof fn lemma_bump_clamp_boundary(t: Option<i64>, delta: int)
    ensures
        t == Some(90i64) && delta >= 0 ==> bumped_theta(t, delta) == t,
        t == Some(0i64) && delta <= 0 ==> bumped_theta(t, delta) == t,
{
}

/// A present target voltage is exactly zero whenever the angle is 90°,
/// whatever the reference voltage.
pub proof fn lemma_target_zero_at_ninety(s: ConversionState)
    requires
        s.v0_bits is Some,
        s.theta == Some(90i64),
    ensures
        target_of(s) == TargetVoltage::ExactZero,
{
}

/// The actual angle is underivable exactly when a voltage is missing.
pub proof fn lemma_actual_known_iff_inputs(s: ConversionState)
    ensures
        actual_of(s) is Acos <==> (s.v_bits is Some && s.v0_bits is Some),
{
}

} // verus!
