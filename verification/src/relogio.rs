//! The wall clock, read in whole seconds since the Unix epoch.

use vstd::prelude::*;

verus! {

/// The last instant that the clock can read: the end of the last year that
/// its calendar reaches.
pub const INSTANTE_MAXIMO: i64 = 8_210_266_876_799;

/// What a reading of the clock can be.
pub open spec fn leitura_do_relogio(instante: i64) -> bool {
    0 <= instante <= INSTANTE_MAXIMO
}

/// Reads the clock through `chrono::Utc::now` and `DateTime::timestamp`.
/// Not proved: that the reading is not before the epoch and not after the
/// last instant of the calendar. No two readings are claimed to be related.
#[verifier::external_body]
pub(crate) fn agora() -> (r: i64)
    ensures
        leitura_do_relogio(r),
{
    chrono::Utc::now().timestamp()
}

/// The RFC 3339 text of an instant in UTC; `None` for an instant beyond the
/// calendar.
pub uninterp spec fn texto_rfc3339(instante: i64) -> Option<Seq<char>>;

/// Calls `chrono::DateTime::from_timestamp` with no nanoseconds and, where it
/// gives a date, `DateTime::to_rfc3339` on it. Not proved: that the outcome is
/// `texto_rfc3339` of the instant, a name for what the two compute from the
/// instant alone.
#[verifier::external_body]
pub(crate) fn rfc3339(instante: i64) -> (r: Option<String>)
    ensures
        match r {
            Some(t) => texto_rfc3339(instante) == Some(t@),
            None => texto_rfc3339(instante) is None,
        },
{
    match chrono::DateTime::from_timestamp(instante, 0) {
        Some(d) => Some(d.to_rfc3339()),
        None => None,
    }
}

} // verus!
