//! What the liveness routes answer.

use crate::test_log::{TestLog, TestLogView};
use crate::text::{option_text, push_decimal, signed_decimal};
use crate::time::{iso8601, iso8601_text};
use vstd::prelude::*;
use vstd::string::*;

verus! {

/// The acknowledgement of the service named `name`.
pub open spec fn ruok_text(name: Seq<char>) -> Seq<char> {
    "I am ok, my name is "@ + name
}

/// The line of the entry `id`, made at the instant whose text is
/// `created_at`, if it has such an instant.
pub open spec fn test_log_line(id: int, created_at: Option<Seq<char>>) -> Seq<char> {
    "Test log: "@ + signed_decimal(id) + " created at: "@ + match created_at {
        Some(date) => date,
        None => "None"@,
    } + "\n"@
}

/// The text of the instant at which `log` was made, if it has such an
/// instant; nothing where the instant has no text.
pub open spec fn created_text(log: TestLogView) -> Option<Option<Seq<char>>> {
    match log.created_at {
        Some(at) => match iso8601_text(at.secs as int, at.nanos as int) {
            Some(date) => Some(Some(date)),
            None => None,
        },
        None => Some(None),
    }
}

/// The lines of `logs`, one after the other; nothing where an instant has
/// no text.
pub open spec fn test_logs_text(logs: Seq<TestLogView>) -> Option<Seq<char>>
    decreases logs.len(),
{
    if logs.len() == 0 {
        Some(Seq::empty())
    } else {
        match (test_logs_text(logs.drop_last()), created_text(logs.last())) {
            (Some(before), Some(created)) => Some(
                before + test_log_line(logs.last().id, created),
            ),
            _ => None,
        }
    }
}

/// Where the instant of one of `logs` has no text, they have no text.
pub proof fn lemma_test_logs_need_dates(logs: Seq<TestLogView>, at: int)
    requires
        0 <= at < logs.len(),
        created_text(logs[at]) is None,
    ensures
        test_logs_text(logs) is None,
    decreases logs.len(),
{
    if at < logs.len() - 1 {
        lemma_test_logs_need_dates(logs.drop_last(), at);
    }
}

/// Appends the decimal numeral of `id` to `out`.
fn push_id(out: &mut String, id: i32)
    ensures
        final(out)@ == old(out)@ + signed_decimal(id as int),
{
    if id < 0 {
        out.push('-');
        let magnitude: i64 = -(id as i64);
        push_decimal(out, magnitude as u128);
        proof {
            assert(final(out)@ =~= old(out)@ + signed_decimal(id as int));
        }
    } else {
        push_decimal(out, id as u128);
    }
}

/// The acknowledgement of the service named `name`.
pub fn ruok(name: &str) -> (out: String)
    ensures
        out@ == ruok_text(name@),
{
    let mut out = String::from_str("I am ok, my name is ");
    out.append(name);
    out
}

/// The answer after the entry `id` was stored.
pub fn created_test_log(id: i32) -> (out: String)
    ensures
        out@ == "Created test log: "@ + signed_decimal(id as int),
{
    let mut out = String::from_str("Created test log: ");
    push_id(&mut out, id);
    out
}

/// The answer after storing an entry failed for `reason`.
pub fn failed_to_create_test_log(reason: &str) -> (out: String)
    ensures
        out@ == "Failed to create test log: "@ + reason@,
{
    let mut out = String::from_str("Failed to create test log: ");
    out.append(reason);
    out
}

/// The answer after reading the entries failed for `reason`.
pub fn failed_to_list_test_logs(reason: &str) -> (out: String)
    ensures
        out@ == "Failed to list test logs: "@ + reason@,
{
    let mut out = String::from_str("Failed to list test logs: ");
    out.append(reason);
    out
}

/// Appends the line of the entry `id`, made at the instant whose text is
/// `created_at`, if it has such an instant.
pub fn push_test_log_line(out: &mut String, id: i32, created_at: Option<String>)
    ensures
        final(out)@ == old(out)@ + test_log_line(id as int, option_text(created_at)),
{
    out.append("Test log: ");
    push_id(out, id);
    out.append(" created at: ");
    match created_at {
        Some(date) => {
            out.append(date.as_str());
        },
        None => {
            out.append("None");
        },
    }
    out.append("\n");
    proof {
        assert(final(out)@ =~= old(out)@ + test_log_line(id as int, option_text(created_at)));
    }
}

/// The answer with all entries, a line each; nothing where the instant of
/// an entry has no text.
pub fn list_all_test_logs(test_logs: &Vec<TestLog>) -> (out: Option<String>)
    ensures
        option_text(out) == test_logs_text(test_logs.deep_view()),
{
    let ghost all = test_logs.deep_view();
    let mut res = String::new();
    let mut i: usize = 0;
    proof {
        assert(all.take(0) =~= Seq::<TestLogView>::empty());
    }
    while i < test_logs.len()
        invariant
            i <= test_logs.len(),
            all == test_logs.deep_view(),
            test_logs_text(all.take(i as int)) == Some(res@),
        decreases test_logs.len() - i,
    {
        proof {
            assert(all.take(i + 1).drop_last() =~= all.take(i as int));
            assert(all.take(i + 1).last() == test_logs@[i as int]@);
        }
        let created = match test_logs[i].created_at {
            Some(at) => match iso8601(&at) {
                Some(date) => Some(date),
                None => {
                    proof {
                        lemma_test_logs_need_dates(all, i as int);
                    }
                    return None;
                },
            },
            None => None,
        };
        push_test_log_line(&mut res, test_logs[i].id, created);
        i += 1;
    }
    proof {
        assert(all.take(test_logs.len() as int) =~= all);
    }
    Some(res)
}

} // verus!
