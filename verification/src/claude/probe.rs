//! What the usage endpoint's status and headers mean.

use vstd::prelude::*;

use crate::error::ProbeError;
use crate::text;
use crate::time::Duration;

verus! {

/// The place of the first header called `name`, in any case.
pub open spec fn header_at(headers: Seq<(String, String)>, name: Seq<char>) -> Option<int>
    decreases headers.len(),
{
    if headers.len() == 0 {
        None
    } else {
        match header_at(headers.drop_last(), name) {
            Some(i) => Some(i),
            None => if text::same_ignoring_case(headers.last().0@, name) {
                Some(headers.len() - 1)
            } else {
                None
            },
        }
    }
}

/// The delay a rate-limited response suggests, in seconds.
pub open spec fn suggested_delay(headers: Seq<(String, String)>) -> Option<int> {
    match header_at(headers, "retry-after"@) {
        Some(i) => text::unsigned(headers[i].1@),
        None => None,
    }
}

fn find_header(headers: &Vec<(String, String)>, name: &str) -> (r: Option<usize>)
    ensures
        r is Some <==> header_at(headers@, name@) is Some,
        r is Some ==> r->0 == header_at(headers@, name@)->0 && r->0 < headers@.len(),
{
    let mut i: usize = 0;
    assert(headers@.take(0) =~= Seq::empty());
    while i < headers.len()
        invariant
            i <= headers@.len(),
            header_at(headers@.take(i as int), name@) is None,
        decreases headers@.len() - i,
    {
        proof {
            assert(headers@.take(i + 1).drop_last() =~= headers@.take(i as int));
            assert(headers@.take(i + 1).last() == headers@[i as int]);
        }
        if text::eq_ignoring_case(headers[i].0.as_str(), name) {
            proof {
                header_stays(headers@, name@, i + 1);
            }
            return Some(i);
        }
        i += 1;
    }
    assert(headers@.take(i as int) =~= headers@);
    None
}

proof fn header_stays(headers: Seq<(String, String)>, name: Seq<char>, n: int)
    requires
        0 <= n <= headers.len(),
        header_at(headers.take(n), name) is Some,
    ensures
        header_at(headers, name) == header_at(headers.take(n), name),
    decreases headers.len(),
{
    if n < headers.len() {
        assert(headers.drop_last().take(n) =~= headers.take(n));
        header_stays(headers.drop_last(), name, n);
    } else {
        assert(headers.take(n) =~= headers);
    }
}

/// Whether a response's body is worth reading. `status_text` is the status with
/// its reason, e.g. `"401 Unauthorized"`.
pub fn verdict(status: u16, status_text: &str, headers: &Vec<(String, String)>) -> (r: Result<
    (),
    ProbeError,
>)
    ensures
        match r {
            Ok(()) => 200 <= status < 300,
            Err(ProbeError::Auth(m)) => (status == 401 || status == 403) && m@
                == "usage endpoint returned "@ + status_text@,
            Err(ProbeError::RateLimited { retry_after }) => {
                &&& status == 429
                &&& match (retry_after, suggested_delay(headers@)) {
                    (Some(d), Some(secs)) => d.secs == secs && d.nanos == 0,
                    (None, None) => true,
                    _ => false,
                }
            },
            Err(ProbeError::Provider(m)) => {
                &&& status != 401 && status != 403 && status != 429
                &&& !(200 <= status < 300)
                &&& m@ == "usage endpoint returned "@ + text::decimal(status as nat)
            },
            Err(ProbeError::Network(_)) => false,
        },
{
    if status == 401 || status == 403 {
        return Err(
            ProbeError::Auth("usage endpoint returned ".to_owned().concat(status_text)),
        );
    }
    if status == 429 {
        let retry_after = match find_header(headers, "retry-after") {
            Some(i) => match text::parse_unsigned(headers[i].1.as_str()) {
                Some(secs) => Some(Duration { secs, nanos: 0 }),
                None => None,
            },
            None => None,
        };
        return Err(ProbeError::RateLimited { retry_after });
    }
    if status < 200 || status >= 300 {
        return Err(
            ProbeError::Provider(
                "usage endpoint returned ".to_owned().concat(
                    text::decimal_of(status as u64).as_str(),
                ),
            ),
        );
    }
    Ok(())
}

/// A header is the first of its name, whatever the case of its letters; there is
/// none only if none has the name.
pub proof fn the_first_header_of_a_name_counts(headers: Seq<(String, String)>, name: Seq<char>)
    ensures
        match header_at(headers, name) {
            Some(i) => {
                &&& 0 <= i < headers.len()
                &&& text::same_ignoring_case(headers[i].0@, name)
                &&& forall|k: int|
                    0 <= k < i ==> !text::same_ignoring_case((#[trigger] headers[k]).0@, name)
            },
            None => forall|k: int|
                0 <= k < headers.len() ==> !text::same_ignoring_case(
                    (#[trigger] headers[k]).0@,
                    name,
                ),
        },
    decreases headers.len(),
{
    if headers.len() > 0 {
        let front = headers.drop_last();
        the_first_header_of_a_name_counts(front, name);
        assert forall|k: int| 0 <= k < front.len() implies front[k] == #[trigger] headers[k] by {}
    }
}

/// The delay a server suggests is the number in its `retry-after` header: none
/// without that header, and none where it holds no number.
pub proof fn the_suggested_delay_is_the_headers_number(headers: Seq<(String, String)>)
    ensures
        suggested_delay(headers) matches Some(secs) ==> exists|i: int|
            0 <= i < headers.len() && text::same_ignoring_case(
                (#[trigger] headers[i]).0@,
                "retry-after"@,
            ) && text::unsigned(headers[i].1@) == Some(secs),
        forall|i: int|
            0 <= i < headers.len() && text::same_ignoring_case(
                (#[trigger] headers[i]).0@,
                "retry-after"@,
            ) && (forall|k: int|
                0 <= k < i ==> !text::same_ignoring_case(
                    (#[trigger] headers[k]).0@,
                    "retry-after"@,
                )) ==> suggested_delay(headers) == text::unsigned(headers[i].1@),
{
    the_first_header_of_a_name_counts(headers, "retry-after"@);
    if let Some(i) = header_at(headers, "retry-after"@) {
        assert(text::same_ignoring_case(headers[i].0@, "retry-after"@));
    }
}

} // verus!
