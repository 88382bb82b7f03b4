use vstd::prelude::*;

verus! {

/// A failed database operation: whether it failed because no row matched,
/// and the error's message.
pub struct DbError {
    pub not_found: bool,
    pub message: String,
}

/// Whether a lookup found a row: a missing row is an answer, not an error.
pub open spec fn found_view<T>(lookup: Result<T, DbError>) -> Result<bool, DbError> {
    match lookup {
        Ok(_) => Ok(true),
        Err(e) => if e.not_found {
            Ok(false)
        } else {
            Err(e)
        },
    }
}

fn found<T>(lookup: Result<T, DbError>) -> (r: Result<bool, DbError>)
    ensures
        r == found_view(lookup),
{
    match lookup {
        Ok(_) => Ok(true),
        Err(e) => if e.not_found {
            Ok(false)
        } else {
            Err(e)
        },
    }
}

/// Whether a user holds a role in a section, from the lookup of the
/// user's role in that section.
pub fn role_exists<T>(lookup: Result<T, DbError>) -> (r: Result<bool, DbError>)
    ensures
        r == found_view(lookup),
        lookup is Ok ==> r == Ok::<bool, DbError>(true),
        lookup matches Err(e) && e.not_found ==> r == Ok::<bool, DbError>(false),
        lookup is Err && !lookup->Err_0.not_found ==> r == Err::<bool, DbError>(lookup->Err_0),
{
    found(lookup)
}

/// Whether a membership is active, from the lookup of that membership
/// among the active ones.
pub fn is_member_active<T>(lookup: Result<T, DbError>) -> (r: Result<bool, DbError>)
    ensures
        r == found_view(lookup),
        lookup is Ok ==> r == Ok::<bool, DbError>(true),
        lookup matches Err(e) && e.not_found ==> r == Ok::<bool, DbError>(false),
        lookup is Err && !lookup->Err_0.not_found ==> r == Err::<bool, DbError>(lookup->Err_0),
{
    found(lookup)
}

/// Whether a role was deleted, from the number of rows the deletion
/// removed: exactly one row means it was.
pub fn role_deleted(removed: Result<usize, DbError>) -> (r: Result<bool, DbError>)
    ensures
        match removed {
            Ok(n) => r == Ok::<bool, DbError>(n == 1),
            Err(e) => r == Err::<bool, DbError>(e),
        },
{
    match removed {
        Ok(n) => Ok(n == 1),
        Err(e) => Err(e),
    }
}

/// Seconds in a day.
pub const SECONDS_PER_DAY: i64 = 86400;

/// The earliest instant a stored date and time can hold, in seconds since
/// the Unix epoch (January 1, 262144 BCE, 00:00:00).
pub const EARLIEST_INSTANT: i64 = -8334601315200;

/// The latest whole second a stored date and time can hold, in seconds
/// since the Unix epoch (December 31, 262142 CE, 23:59:59).
pub const LATEST_INSTANT: i64 = 8210266876799;

/// Whether `secs` is a whole second that a stored date and time can hold.
pub open spec fn representable(secs: int) -> bool {
    EARLIEST_INSTANT <= secs <= LATEST_INSTANT
}

/// A role's new expiry, in seconds since the Unix epoch: `days` days after
/// its current expiry when it has one, else `days` days after `now`.
pub open spec fn extended_expiry_view(current: Option<i64>, now: i64, days: i64) -> int {
    let base = match current {
        Some(t) => t,
        None => now,
    };
    base + days * SECONDS_PER_DAY
}

/// Extends a role's expiry by `days` days: from its current expiry when it
/// has one, else from `now`. Times are whole seconds since the Unix epoch.
pub fn extended_expiry(current: Option<i64>, now: i64, days: i64) -> (t: i64)
    requires
        representable(match current {
            Some(c) => c as int,
            None => now as int,
        }),
        representable(extended_expiry_view(current, now, days)),
    ensures
        t == extended_expiry_view(current, now, days),
        representable(t as int),
        current matches Some(c) ==> t == c + days * SECONDS_PER_DAY,
        current is None ==> t == now + days * SECONDS_PER_DAY,
{
    let base = match current {
        Some(c) => c,
        None => now,
    };
    assert(-200000000 <= days <= 200000000) by (nonlinear_arith)
        requires
            -8334601315200 <= base + days * 86400 <= 8210266876799,
            -8334601315200 <= base <= 8210266876799,
    ;
    base + days * SECONDS_PER_DAY
}

/// A lookup answers yes exactly when it found a row; a missing row is a
/// no, and any other error comes back unchanged.
pub proof fn lookups_answer_whether_found<T>(lookup: Result<T, DbError>)
    ensures
        found_view(lookup) == Ok::<bool, DbError>(true) <==> lookup is Ok,
        found_view(lookup) == Ok::<bool, DbError>(false) <==> (lookup matches Err(e) && e.not_found),
        lookup is Err && !lookup->Err_0.not_found ==> found_view(lookup) == Err::<bool, DbError>(
            lookup->Err_0,
        ),
{
}

/// A role with an expiry is extended from that expiry, by exactly `days`
/// days, whatever the current time is (even when the expiry has passed);
/// the current time counts only for a role without an expiry.
pub proof fn expiry_extends_from_current_expiry(current: i64, now: i64, later: i64, days: i64)
    ensures
        extended_expiry_view(Some(current), now, days) == current + days * 86400,
        extended_expiry_view(Some(current), now, days) == extended_expiry_view(
            Some(current),
            later,
            days,
        ),
        extended_expiry_view(None, now, days) == now + days * 86400,
        extended_expiry_view(Some(current), now, days) - extended_expiry_view(
            Some(current),
            now,
            0,
        ) == days * 86400,
{
}

} // verus!
