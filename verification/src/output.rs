//! Output writer decisions: the extension a content-type maps to, the
//! URL-derived slug, the second-granularity timestamp suffix, the file names
//! built from them, and the plan of what is printed and what is written.
//! The writes themselves are the caller's business.

use vstd::prelude::*;
use vstd::string::{StrSliceExecFns, StringExecFns};
use chrono::Datelike;
use chrono::Timelike;
use crate::capture::CaptureResult;
use crate::text::seq_contains;

verus! {

/// The extension chosen for persisted content: `.html` when the content-type
/// mentions `text/html`, `.json` when it mentions `application/json`, `.txt`
/// otherwise or when no content-type is known.
pub open spec fn spec_extension(ct: Option<String>) -> Seq<char> {
    match ct {
        Option::Some(s) => if seq_contains(s@, "text/html"@) {
            ".html"@
        } else if seq_contains(s@, "application/json"@) {
            ".json"@
        } else {
            ".txt"@
        },
        Option::None => ".txt"@,
    }
}

/// Choose the file extension for a (possibly unknown) content-type.
pub fn extension_for(ct: &Option<String>) -> (r: String)
    ensures
        r@ == spec_extension(*ct),
{
    match ct {
        Option::Some(s) => {
            if crate::text::str_contains(s.as_str(), "text/html") {
                String::from_str(".html")
            } else if crate::text::str_contains(s.as_str(), "application/json") {
                String::from_str(".json")
            } else {
                String::from_str(".txt")
            }
        },
        Option::None => String::from_str(".txt"),
    }
}

/// The character for one decimal digit.
pub open spec fn digit_char(d: int) -> char {
    if d == 0 {
        '0'
    } else if d == 1 {
        '1'
    } else if d == 2 {
        '2'
    } else if d == 3 {
        '3'
    } else if d == 4 {
        '4'
    } else if d == 5 {
        '5'
    } else if d == 6 {
        '6'
    } else if d == 7 {
        '7'
    } else if d == 8 {
        '8'
    } else {
        '9'
    }
}

/// The decimal digits of `n`, most significant first, no leading zeros.
pub open spec fn dec_seq(n: nat) -> Seq<char>
    decreases n,
{
    if n < 10 {
        seq![digit_char(n as int)]
    } else {
        dec_seq(n / 10).push(digit_char((n % 10) as int))
    }
}

/// `n` as two digits, zero-padded.
pub open spec fn padded2(n: nat) -> Seq<char> {
    if n < 10 {
        seq!['0'] + dec_seq(n)
    } else {
        dec_seq(n)
    }
}

/// `n` as at least four digits, zero-padded.
pub open spec fn padded4(n: nat) -> Seq<char> {
    if n < 10 {
        seq!['0', '0', '0'] + dec_seq(n)
    } else if n < 100 {
        seq!['0', '0'] + dec_seq(n)
    } else if n < 1000 {
        seq!['0'] + dec_seq(n)
    } else {
        dec_seq(n)
    }
}

/// A year, four-digit padded, with a leading minus for years before zero.
pub open spec fn year_seq(y: int) -> Seq<char> {
    if y < 0 {
        seq!['-'] + padded4((-y) as nat)
    } else {
        padded4(y as nat)
    }
}

/// The capture timestamp suffix: underscore, year, month, day separated by
/// dashes, then hour, minute, second juxtaposed.
pub open spec fn spec_timestamp_suffix(
    y: int,
    mo: nat,
    d: nat,
    h: nat,
    mi: nat,
    s: nat,
) -> Seq<char> {
    seq!['_'] + year_seq(y) + seq!['-'] + padded2(mo) + seq!['-'] + padded2(d) + seq!['-']
        + padded2(h) + padded2(mi) + padded2(s)
}

/// One decimal digit as a string.
fn digit_str(d: u32) -> (r: &'static str)
    requires
        d < 10,
    ensures
        r@ == seq![digit_char(d as int)],
{
    proof {
        reveal_strlit("0");
        reveal_strlit("1");
        reveal_strlit("2");
        reveal_strlit("3");
        reveal_strlit("4");
        reveal_strlit("5");
        reveal_strlit("6");
        reveal_strlit("7");
        reveal_strlit("8");
        reveal_strlit("9");
    }
    let r = match d {
        0 => "0",
        1 => "1",
        2 => "2",
        3 => "3",
        4 => "4",
        5 => "5",
        6 => "6",
        7 => "7",
        8 => "8",
        _ => "9",
    };
    proof {
        assert(r@ =~= seq![digit_char(d as int)]);
    }
    r
}

/// Render `n` in decimal.
pub fn u32_to_dec(n: u32) -> (r: String)
    ensures
        r@ == dec_seq(n as nat),
    decreases n,
{
    if n < 10 {
        String::from_str(digit_str(n))
    } else {
        let mut r = u32_to_dec(n / 10);
        r.append(digit_str(n % 10));
        proof {
            assert(r@ =~= dec_seq(n as nat));
        }
        r
    }
}

/// Render `n` as two zero-padded digits.
fn two_digits(n: u32) -> (r: String)
    requires
        n < 100,
    ensures
        r@ == padded2(n as nat),
{
    if n < 10 {
        let mut r = String::from_str("0");
        r.append(digit_str(n));
        proof {
            reveal_strlit("0");
            assert(r@ =~= padded2(n as nat));
        }
        r
    } else {
        u32_to_dec(n)
    }
}

/// Render `n` as at least four zero-padded digits.
fn four_digits(n: u32) -> (r: String)
    ensures
        r@ == padded4(n as nat),
{
    let pad = if n < 10 {
        "000"
    } else if n < 100 {
        "00"
    } else if n < 1000 {
        "0"
    } else {
        ""
    };
    proof {
        reveal_strlit("000");
        reveal_strlit("00");
        reveal_strlit("0");
        reveal_strlit("");
    }
    let mut r = String::from_str(pad);
    let digits = u32_to_dec(n);
    r.append(digits.as_str());
    proof {
        assert(r@ =~= padded4(n as nat));
    }
    r
}

/// Build the timestamp suffix from broken-down local-time values.
pub fn timestamp_suffix(year: i32, month: u32, day: u32, hour: u32, minute: u32, second: u32) -> (r:
    String)
    requires
        month < 100,
        day < 100,
        hour < 100,
        minute < 100,
        second < 100,
    ensures
        r@ == spec_timestamp_suffix(
            year as int,
            month as nat,
            day as nat,
            hour as nat,
            minute as nat,
            second as nat,
        ),
{
    proof {
        reveal_strlit("_");
        reveal_strlit("-");
    }
    let mut r = String::from_str("_");
    if year < 0 {
        let yabs: u32 = (-(year as i64)) as u32;
        r.append("-");
        let y = four_digits(yabs);
        r.append(y.as_str());
    } else {
        let y = four_digits(year as u32);
        r.append(y.as_str());
    }
    r.append("-");
    let mo = two_digits(month);
    r.append(mo.as_str());
    r.append("-");
    let d = two_digits(day);
    r.append(d.as_str());
    r.append("-");
    let h = two_digits(hour);
    r.append(h.as_str());
    let mi = two_digits(minute);
    r.append(mi.as_str());
    let s = two_digits(second);
    r.append(s.as_str());
    proof {
        assert(r@ =~= spec_timestamp_suffix(
            year as int,
            month as nat,
            day as nat,
            hour as nat,
            minute as nat,
            second as nat,
        ));
    }
    r
}

/// Relies on chrono::Local::now and the chrono accessors year, month, day,
/// hour, minute and second: the current local time, split into plain values.
/// chrono documents month as 1 to 12, day of month as 1 to 31, hour as 0 to
/// 23, and minute and second as 0 to 59.
#[verifier::external_body]
fn local_time_parts() -> (r: (i32, u32, u32, u32, u32, u32))
    ensures
        1 <= r.1 <= 12,
        1 <= r.2 <= 31,
        r.3 < 24,
        r.4 < 60,
        r.5 < 60,
{
    let now = chrono::Local::now();
    (now.year(), now.month(), now.day(), now.hour(), now.minute(), now.second())
}

/// The timestamp suffix for this moment, in local time.
pub fn current_timestamp() -> (r: String)
    ensures
        exists|y: int, mo: nat, d: nat, h: nat, mi: nat, s: nat|
            1 <= mo <= 12 && 1 <= d <= 31 && h < 24 && mi < 60 && s < 60 && r@
                == spec_timestamp_suffix(y, mo, d, h, mi, s),
{
    let (year, month, day, hour, minute, second) = local_time_parts();
    let r = timestamp_suffix(year, month, day, hour, minute, second);
    proof {
        assert(1 <= month as nat <= 12 && 1 <= day as nat <= 31 && (hour as nat) < 24 && (
        minute as nat) < 60 && (second as nat) < 60 && r@ == spec_timestamp_suffix(
            year as int,
            month as nat,
            day as nat,
            hour as nat,
            minute as nat,
            second as nat,
        ));
    }
    r
}

/// What slugify::slugify returns for a text, stop-word list and separator.
pub uninterp spec fn slug_of(text: Seq<char>, stop_words: Seq<char>, sep: Seq<char>) -> Seq<char>;

/// Relies on slugify::slugify (with no length cap): the slug is a function of
/// the text, the comma-separated stop-word list and the separator alone. The
/// separator must be non-empty with an ASCII first character — that character
/// is what the crate inserts between words, and a non-ASCII one would make it
/// build invalid UTF-8 and panic.
#[verifier::external_body]
fn slugify_with(text: &str, stop_words: &str, sep: &str) -> (r: String)
    requires
        sep@.len() > 0,
        (sep@[0] as int) < 128,
    ensures
        r@ == slug_of(text@, stop_words@, sep@),
{
    slugify::slugify(text, stop_words, sep, None)
}

/// The file-name slug of a URL: schemes and `www` dropped as stop words,
/// non-alphanumeric runs collapsed to `-`.
pub fn make_slug(url: &String) -> (r: String)
    ensures
        r@ == slug_of(url@, "https,http,www"@, "-"@),
{
    proof {
        reveal_strlit("-");
    }
    slugify_with(url.as_str(), "https,http,www", "-")
}

/// Build the persisted-content file name: slug, timestamp, extension.
pub fn content_file_name(slug: &String, timestamp: &String, ext: &String) -> (r: String)
    ensures
        r@ == slug@ + timestamp@ + ext@,
{
    let mut r = slug.clone();
    r.append(timestamp.as_str());
    r.append(ext.as_str());
    r
}

/// The fixed file a requested screenshot is captured to, in the working
/// directory.
pub fn screenshot_file_name() -> (r: String)
    ensures
        r@ == "screenshot.png"@,
{
    String::from_str("screenshot.png")
}

/// Build the metadata file name: slug, timestamp, `-info.json`.
pub fn metadata_file_name(slug: &String, timestamp: &String) -> (r: String)
    ensures
        r@ == slug@ + timestamp@ + "-info.json"@,
{
    let mut r = slug.clone();
    r.append(timestamp.as_str());
    r.append("-info.json");
    r
}

/// A directory joined with a file name, with an empty directory and a
/// trailing slash handled.
pub open spec fn spec_join(dir: Seq<char>, name: Seq<char>) -> Seq<char> {
    if dir.len() == 0 {
        name
    } else if dir.last() == '/' {
        dir + name
    } else {
        dir + "/"@ + name
    }
}

/// Where a file goes: under the configured directory when one is given,
/// bare in the working directory otherwise.
pub open spec fn spec_output_path(dir: Option<String>, name: Seq<char>) -> Seq<char> {
    match dir {
        Option::Some(d) => spec_join(d@, name),
        Option::None => name,
    }
}

/// Join a directory with a file name.
pub fn join_path(dir: &String, file_name: &str) -> (r: String)
    ensures
        r@ == spec_join(dir@, file_name@),
{
    let n: usize = dir.as_str().unicode_len();
    if n == 0 {
        file_name.to_owned()
    } else if dir.as_str().get_char(n - 1) == '/' {
        let mut r = dir.clone();
        r.append(file_name);
        r
    } else {
        proof {
            reveal_strlit("/");
        }
        let mut r = dir.clone();
        r.append("/");
        r.append(file_name);
        r
    }
}

/// Join the configured directory, if any, with a file name.
pub fn output_path(dir: &Option<String>, file_name: &String) -> (r: String)
    ensures
        r@ == spec_output_path(*dir, file_name@),
{
    match dir {
        Option::Some(d) => join_path(d, file_name.as_str()),
        Option::None => file_name.clone(),
    }
}

/// What one invocation prints and writes, joined from the metadata task and
/// the capture task.
pub struct OutputPlan {
    /// Metadata JSON for standard output.
    pub print_metadata: Option<String>,
    /// Captured content for standard output (the fallback when no directory
    /// is configured).
    pub print_content: Option<String>,
    /// Metadata file: name and JSON body.
    pub metadata_file: Option<(String, String)>,
    /// Content file: name and body.
    pub content_file: Option<(String, String)>,
}

/// The metadata side of a plan is right for metadata outcome `metadata`:
/// present JSON is printed, and also written when writing is configured.
pub open spec fn metadata_plan_ok(
    p: OutputPlan,
    metadata: Option<String>,
    write_files: bool,
    slug: Seq<char>,
    ts: Seq<char>,
) -> bool {
    &&& p.print_metadata == metadata
    &&& match p.metadata_file {
        Option::Some((name, body)) => write_files && metadata == Some(body) && name@ == slug + ts
            + "-info.json"@,
        Option::None => !(write_files && metadata is Some),
    }
}

/// The capture side of a plan is right for capture outcome `capture`:
/// retrieved content is written when writing is configured, else printed;
/// the file name carries the content-type-derived extension.
pub open spec fn content_plan_ok(
    p: OutputPlan,
    capture: Option<CaptureResult>,
    write_files: bool,
    slug: Seq<char>,
    ts: Seq<char>,
) -> bool {
    &&& match p.content_file {
        Option::Some((name, body)) => {
            &&& write_files
            &&& capture matches Some(c) && c.content == Some(body) && name@ == slug + ts
                + spec_extension(c.content_type)
        },
        Option::None => !(write_files && (capture matches Some(c) && c.content is Some)),
    }
    &&& match p.print_content {
        Option::Some(body) => !write_files && (capture matches Some(c) && c.content == Some(
            body,
        )),
        Option::None => write_files || !(capture matches Some(c) && c.content is Some),
    }
}

/// Join the two task outcomes into the invocation's outputs.
pub fn plan_outputs(
    metadata_json: &Option<String>,
    capture: &Option<CaptureResult>,
    write_files: bool,
    slug: &String,
    timestamp: &String,
) -> (p: OutputPlan)
    ensures
        metadata_plan_ok(p, *metadata_json, write_files, slug@, timestamp@),
        content_plan_ok(p, *capture, write_files, slug@, timestamp@),
{
    let print_metadata = match metadata_json {
        Option::Some(j) => Some(j.clone()),
        Option::None => None,
    };
    let metadata_file = match metadata_json {
        Option::Some(j) => {
            if write_files {
                Some((metadata_file_name(slug, timestamp), j.clone()))
            } else {
                None
            }
        },
        Option::None => None,
    };
    let content_file = match capture {
        Option::Some(c) => match &c.content {
            Option::Some(body) => {
                if write_files {
                    let ext = extension_for(&c.content_type);
                    Some((content_file_name(slug, timestamp, &ext), body.clone()))
                } else {
                    None
                }
            },
            Option::None => None,
        },
        Option::None => None,
    };
    let print_content = match capture {
        Option::Some(c) => match &c.content {
            Option::Some(body) => {
                if write_files {
                    None
                } else {
                    Some(body.clone())
                }
            },
            Option::None => None,
        },
        Option::None => None,
    };
    OutputPlan { print_metadata, print_content, metadata_file, content_file }
}

/// Law: the capture side of the outputs is isolated from the metadata task.
/// Two invocations with the same capture outcome plan the same content
/// output, whatever each metadata task did.
pub proof fn lemma_content_plan_isolated(
    first: OutputPlan,
    second: OutputPlan,
    m1: Option<String>,
    m2: Option<String>,
    c: Option<CaptureResult>,
    write_files: bool,
    slug: Seq<char>,
    ts: Seq<char>,
)
    requires
        metadata_plan_ok(first, m1, write_files, slug, ts),
        content_plan_ok(first, c, write_files, slug, ts),
        metadata_plan_ok(second, m2, write_files, slug, ts),
        content_plan_ok(second, c, write_files, slug, ts),
    ensures
        (first.content_file is Some) == (second.content_file is Some),
        (first.print_content is Some) == (second.print_content is Some),
        first.content_file is Some ==> first.content_file->Some_0.0@ == second.content_file->Some_0.0@
            && first.content_file->Some_0.1 == second.content_file->Some_0.1,
        first.print_content is Some ==> first.print_content == second.print_content,
{
}

/// Law: the metadata side of the outputs is isolated from the capture task.
/// Two invocations with the same metadata outcome plan the same metadata
/// output, whatever each capture task came to.
pub proof fn lemma_metadata_plan_isolated(
    first: OutputPlan,
    second: OutputPlan,
    m: Option<String>,
    c1: Option<CaptureResult>,
    c2: Option<CaptureResult>,
    write_files: bool,
    slug: Seq<char>,
    ts: Seq<char>,
)
    requires
        metadata_plan_ok(first, m, write_files, slug, ts),
        content_plan_ok(first, c1, write_files, slug, ts),
        metadata_plan_ok(second, m, write_files, slug, ts),
        content_plan_ok(second, c2, write_files, slug, ts),
    ensures
        first.print_metadata == second.print_metadata,
        (first.metadata_file is Some) == (second.metadata_file is Some),
        first.metadata_file is Some ==> first.metadata_file->Some_0.0@ == second.metadata_file->Some_0.0@
            && first.metadata_file->Some_0.1 == second.metadata_file->Some_0.1,
{
}

} // verus!
