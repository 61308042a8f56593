//! The rotation policy applied once when a file sink is opened.
use vstd::prelude::*;
use crate::timestamp::{Timestamp, decimal, digit};

verus! {

/// What becomes of a log file that has grown past the size threshold.
#[derive(Debug, Clone, Copy, PartialEq, Eq, Structural)]
pub enum RotationStrategy {
    /// Rename the oversized file to a date-stamped archive name.
    KeepAll,
    /// Delete the oversized file.
    KeepOne,
}

/// What to do with the existing log file before opening it for appending.
#[derive(Debug, Clone, Copy, PartialEq, Eq, Structural)]
pub enum RotationAction {
    /// Leave the file as it is (or there is none) and append to it.
    Keep,
    /// Delete the file, so that a fresh one is created.
    Remove,
    /// Rename the file to an archive name, so that a fresh one is created.
    Archive,
}

/// The action that the rotation policy takes on a file of `existing_size` bytes
/// (`None`: no file yet).
pub open spec fn rotation_spec(existing_size: Option<u64>, max_file_size: u128, strategy: RotationStrategy) -> RotationAction {
    match existing_size {
        Some(n) if n > max_file_size => match strategy {
            RotationStrategy::KeepAll => RotationAction::Archive,
            RotationStrategy::KeepOne => RotationAction::Remove,
        },
        _ => RotationAction::Keep,
    }
}

/// The name of the active log file: `{app}.log`.
pub open spec fn log_file_name_spec(app_name: Seq<char>) -> Seq<char> {
    app_name + seq!['.', 'l', 'o', 'g']
}

/// The archive name for a rotation on `date`: `{app}-{YYYY-MM-DD}.log`, and where that
/// is taken, `{app}-{YYYY-MM-DD}-{n}.log` for the `n`th further attempt.
pub open spec fn archive_file_name_spec(app_name: Seq<char>, date: Timestamp, attempt: nat) -> Seq<char> {
    if attempt == 0 {
        app_name + seq!['-'] + date.date_text() + seq!['.', 'l', 'o', 'g']
    } else {
        app_name + seq!['-'] + date.date_text() + seq!['-'] + decimal(attempt) + seq!['.', 'l', 'o', 'g']
    }
}

proof fn lemma_decimal_len(n: nat)
    ensures
        decimal(n).len() >= 1,
        n >= 10 ==> decimal(n).len() >= 2,
    decreases n,
{
    if n >= 10 {
        lemma_decimal_len(n / 10);
    }
}

proof fn lemma_digit_injective(a: nat, b: nat)
    requires
        a < 10,
        b < 10,
        digit(a) == digit(b),
    ensures
        a == b,
{
}

/// Different numbers have different decimal texts.
proof fn lemma_decimal_injective(a: nat, b: nat)
    requires
        decimal(a) == decimal(b),
    ensures
        a == b,
    decreases a,
{
    lemma_decimal_len(a);
    lemma_decimal_len(b);
    if a >= 10 && b >= 10 {
        assert(decimal(a / 10) == decimal(a).drop_last());
        assert(decimal(b / 10) == decimal(b).drop_last());
        lemma_decimal_injective(a / 10, b / 10);
        assert(decimal(a).last() == digit(a % 10));
        assert(decimal(b).last() == digit(b % 10));
        lemma_digit_injective(a % 10, b % 10);
    } else if a < 10 && b < 10 {
        assert(decimal(a)[0] == digit(a));
        assert(decimal(b)[0] == digit(b));
        lemma_digit_injective(a, b);
    }
}

/// The archive of a KeepAll rotation never takes the active file's name, and two
/// different attempts on one day try two different names, so that renaming to the
/// first free one never overwrites an earlier archive of the same day.
pub proof fn lemma_archive_names_distinct(app_name: Seq<char>, date: Timestamp, a: nat, b: nat)
    ensures
        archive_file_name_spec(app_name, date, a) != log_file_name_spec(app_name),
        a != b ==> archive_file_name_spec(app_name, date, a) != archive_file_name_spec(app_name, date, b),
{
    let stem = app_name + seq!['-'] + date.date_text();
    let ext = seq!['.', 'l', 'o', 'g'];
    assert(archive_file_name_spec(app_name, date, a).len() > log_file_name_spec(app_name).len());
    if a != b && archive_file_name_spec(app_name, date, a) == archive_file_name_spec(app_name, date, b) {
        lemma_decimal_len(a);
        lemma_decimal_len(b);
        if a == 0 || b == 0 {
            let x = archive_file_name_spec(app_name, date, a);
            let y = archive_file_name_spec(app_name, date, b);
            assert(x.len() != y.len());
        } else {
            let x = stem + seq!['-'] + decimal(a) + ext;
            let y = stem + seq!['-'] + decimal(b) + ext;
            assert(x == archive_file_name_spec(app_name, date, a));
            assert(y == archive_file_name_spec(app_name, date, b));
            let lo: int = stem.len() as int + 1;
            assert(decimal(a).len() == decimal(b).len());
            assert(x.subrange(lo, lo + decimal(a).len()) =~= decimal(a));
            assert(y.subrange(lo, lo + decimal(b).len()) =~= decimal(b));
            lemma_decimal_injective(a, b);
        }
    }
}

/// Decides what happens to an existing log file of `existing_size` bytes (`None`: no
/// file) when its sink is opened: it is kept unless it exceeds `max_file_size`, and an
/// oversized one is archived or removed as `strategy` says.
pub fn rotation_action(existing_size: Option<u64>, max_file_size: u128, strategy: RotationStrategy) -> (r: RotationAction)
    ensures
        r == rotation_spec(existing_size, max_file_size, strategy),
{
    match existing_size {
        Some(n) => {
            if n as u128 > max_file_size {
                match strategy {
                    RotationStrategy::KeepAll => RotationAction::Archive,
                    RotationStrategy::KeepOne => RotationAction::Remove,
                }
            } else {
                RotationAction::Keep
            }
        },
        None => RotationAction::Keep,
    }
}

/// The name of the active log file of the application `app_name`.
pub fn log_file_name(app_name: &str) -> (r: String)
    ensures
        r@ == log_file_name_spec(app_name@),
{
    proof {
        reveal_strlit(".log");
    }
    let mut s = String::from_str(app_name);
    s.append(".log");
    s
}

/// The archive name to try at the `attempt`th try (from 0) for a rotation on `date`.
pub fn archive_file_name(app_name: &str, date: &Timestamp, attempt: u32) -> (r: String)
    requires
        date.wf(),
    ensures
        r@ == archive_file_name_spec(app_name@, *date, attempt as nat),
{
    proof {
        reveal_strlit(".log");
        reveal_strlit("-");
    }
    let mut s = String::from_str(app_name);
    s.append("-");
    date.push_date(&mut s);
    if attempt > 0 {
        s.append("-");
        crate::timestamp::push_decimal(&mut s, attempt);
    }
    s.append(".log");
    s
}

} // verus!
