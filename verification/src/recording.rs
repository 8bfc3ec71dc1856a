//! Naming of capture files.
//!
//! Every session writes to a fresh file whose name is derived from the UTC
//! wall clock at the moment the session starts, so that no two sessions
//! (more than a second apart) ever collide. The clock read itself is the
//! only unverified step; the formatting of the name is verified down to the
//! digit.

use vstd::prelude::*;

use chrono::Datelike;
use chrono::Timelike;

verus! {

use vstd::string::StringExecFns;
use crate::text::{padded_dec, append_padded2, append_padded4};

/// A UTC wall-clock reading broken into calendar fields.
#[derive(Clone, Copy, Debug, PartialEq, Eq, Structural)]
pub struct UtcFields {
    pub year: i32,
    pub month: u32,
    pub day: u32,
    pub hour: u32,
    pub minute: u32,
    pub second: u32,
}

impl UtcFields {
    /// The ranges a calendar clock can actually produce.
    pub open spec fn wf(self) -> bool {
        &&& -262144 <= self.year <= 262143
        &&& 1 <= self.month <= 12
        &&& 1 <= self.day <= 31
        &&& self.hour <= 23
        &&& self.minute <= 59
        &&& self.second <= 59
    }
}

/// Relies on chrono's `Utc::now`, read through the `Datelike` and
/// `Timelike` accessors: month is 1–12, day 1–31, hour 0–23, minute and
/// second 0–59, and the supported calendar spans about ±262000 years.
/// Nothing else is assumed of the clock — two reads may return anything in
/// those ranges.
#[verifier::external_body]
pub fn current_utc_fields() -> (f: UtcFields)
    ensures
        f.wf(),
{
    let now = chrono::Utc::now();
    UtcFields {
        year: now.year(),
        month: now.month(),
        day: now.day(),
        hour: now.hour(),
        minute: now.minute(),
        second: now.second(),
    }
}

/// A year as at least four digits, sign first for years before the epoch.
pub open spec fn year_text(y: int) -> Seq<char> {
    if y < 0 {
        seq!['-'] + padded_dec((-y) as nat, 4)
    } else {
        padded_dec(y as nat, 4)
    }
}

/// The capture file name for a clock reading: the fixed prefix, the
/// compact date, a dash, the compact time, and the `.wav` extension.
pub open spec fn recording_file_name_text(f: UtcFields) -> Seq<char> {
    "air-keys-"@ + year_text(f.year as int) + padded_dec(f.month as nat, 2) + padded_dec(
        f.day as nat,
        2,
    ) + "-"@ + padded_dec(f.hour as nat, 2) + padded_dec(f.minute as nat, 2) + padded_dec(
        f.second as nat,
        2,
    ) + ".wav"@
}

/// Format the capture file name for the clock reading `f`.
pub fn recording_file_name(f: UtcFields) -> (r: String)
    requires
        f.wf(),
    ensures
        r@ == recording_file_name_text(f),
{
    let mut out = String::new();
    out.append("air-keys-");
    if f.year < 0 {
        out.append("-");
        append_padded4(&mut out, (-(f.year as i64)) as u64);
    } else {
        append_padded4(&mut out, f.year as u64);
    }
    append_padded2(&mut out, f.month as u64);
    append_padded2(&mut out, f.day as u64);
    out.append("-");
    append_padded2(&mut out, f.hour as u64);
    append_padded2(&mut out, f.minute as u64);
    append_padded2(&mut out, f.second as u64);
    out.append(".wav");
    proof {
        reveal_strlit("-");
        assert("-"@ =~= seq!['-']);
        assert(out@ =~= recording_file_name_text(f));
    }
    out
}

/// Whatever the clock read, the name has the fixed prefix, the `.wav`
/// extension, and at least the length of a four-digit year's name.
pub proof fn lemma_recording_name_shape(f: UtcFields)
    requires
        f.wf(),
    ensures
        recording_file_name_text(f).len() >= 28,
        recording_file_name_text(f).subrange(0, 9) == "air-keys-"@,
        recording_file_name_text(f).subrange(
            recording_file_name_text(f).len() - 4,
            recording_file_name_text(f).len() as int,
        ) == ".wav"@,
{
    reveal_strlit("air-keys-");
    reveal_strlit(".wav");
    reveal_strlit("-");
    crate::text::lemma_padded_dec_len4(if f.year < 0 {
        (-f.year) as nat
    } else {
        f.year as nat
    });
    crate::text::lemma_padded_dec_len2(f.month as nat);
    crate::text::lemma_padded_dec_len2(f.day as nat);
    crate::text::lemma_padded_dec_len2(f.hour as nat);
    crate::text::lemma_padded_dec_len2(f.minute as nat);
    crate::text::lemma_padded_dec_len2(f.second as nat);
    let t = recording_file_name_text(f);
    assert(year_text(f.year as int).len() >= 4);
    assert(t.subrange(0, 9) =~= "air-keys-"@);
    assert(t.subrange(t.len() - 4, t.len() as int) =~= ".wav"@);
}

/// A capture file name for the present moment: well-formed clock fields,
/// formatted as [`recording_file_name_text`] says — so it always carries
/// the fixed prefix and the `.wav` extension.
pub fn fresh_recording_file_name() -> (r: String)
    ensures
        exists|f: UtcFields| f.wf() && r@ == #[trigger] recording_file_name_text(f),
        r@.len() >= 28,
        r@.subrange(0, 9) == "air-keys-"@,
        r@.subrange(r@.len() - 4, r@.len() as int) == ".wav"@,
{
    let f = current_utc_fields();
    let name = recording_file_name(f);
    proof {
        assert(f.wf() && name@ == recording_file_name_text(f));
        lemma_recording_name_shape(f);
    }
    name
}

} // verus!
