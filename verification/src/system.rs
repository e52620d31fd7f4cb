//! The two things the services take from the machine: fresh identifiers and
//! the current time.  Either can fail to come; the callers then answer with
//! an error instead of a value.
use vstd::prelude::*;

verus! {

/// The hyphenated text of the version-4 UUID that `uuid::Builder` makes of
/// these 16 random bytes.
pub uninterp spec fn uuid_v4_text(bytes: Seq<u8>) -> Seq<char>;

/// The shape of every identifier the library draws: 36 characters, with
/// hyphens at positions 8, 13, 18 and 23.
pub open spec fn is_hyphenated_id(id: Seq<char>) -> bool {
    &&& id.len() == 36
    &&& id[8] == '-'
    &&& id[13] == '-'
    &&& id[18] == '-'
    &&& id[23] == '-'
}

/// Sixteen random bytes from the operating system: `getrandom::fill`.
///
/// The bytes are random, so nothing is claimed of them; `None` stands for
/// the error `fill` answers when the system has no random bytes to give.
#[verifier::external_body]
fn random_bytes() -> (r: Option<[u8; 16]>) {
    let mut bytes = [0u8; 16];
    match getrandom::fill(&mut bytes) {
        Ok(()) => Some(bytes),
        Err(_) => None,
    }
}

/// The version-4 UUID made of `bytes` by `uuid::Builder::from_random_bytes`,
/// written with `to_string`.
///
/// The text is a function of the bytes alone, named `uuid_v4_text`; of its
/// shape, what `uuid`'s `Display` writes is stated: the hyphenated form.
#[verifier::external_body]
fn uuid_from_random(bytes: [u8; 16]) -> (id: String)
    ensures
        id@ == uuid_v4_text(bytes@),
        is_hyphenated_id(id@),
{
    uuid::Builder::from_random_bytes(bytes).into_uuid().to_string()
}

/// A fresh random identifier in the hyphenated UUID form, or `None` when no
/// random bytes could be had.
pub fn new_id() -> (r: Option<String>)
    ensures
        r matches Some(id) ==> is_hyphenated_id(id@),
{
    match random_bytes() {
        Some(bytes) => Some(uuid_from_random(bytes)),
        None => None,
    }
}

/// The system clock's distance from the Unix epoch, as whole seconds and the
/// nanoseconds beyond them: `std::time::SystemTime::now()` measured with
/// `duration_since(UNIX_EPOCH)`.  `Ok` holds the distance after the epoch,
/// `Err` the distance before it (from the error's `duration()`).
///
/// The reading depends on the clock; what the documentation of `Duration`
/// promises of every outcome is that the nanoseconds stay below one billion.
#[verifier::external_body]
fn read_system_clock() -> (r: Result<(u64, u32), (u64, u32)>)
    ensures
        match r {
            Ok((_, nanos)) => nanos < 1_000_000_000,
            Err((_, nanos)) => nanos < 1_000_000_000,
        },
{
    match std::time::SystemTime::now().duration_since(std::time::UNIX_EPOCH) {
        Ok(d) => Ok((d.as_secs(), d.subsec_nanos())),
        Err(e) => Err((e.duration().as_secs(), e.duration().subsec_nanos())),
    }
}

/// The instant `secs` seconds and `nanos` nanoseconds after the epoch, as a
/// `chrono::DateTime<Utc>` (`DateTime::from_timestamp`), read back in whole
/// seconds with `timestamp()`.  `from_timestamp` answers `None` for instants
/// outside chrono's range; an instant it accepts reads back as `secs`.
#[verifier::external_body]
fn utc_timestamp(secs: i64, nanos: u32) -> (r: Option<i64>)
    requires
        nanos < 1_000_000_000,
    ensures
        r matches Some(t) ==> t == secs,
{
    match chrono::DateTime::<chrono::Utc>::from_timestamp(secs, nanos) {
        Some(d) => Some(d.timestamp()),
        None => None,
    }
}

/// A clock reading as whole seconds since the epoch, rounded down, and the
/// nanoseconds beyond them; `None` when the seconds do not fit an `i64`.
pub open spec fn floor_seconds(reading: Result<(u64, u32), (u64, u32)>) -> Option<(int, int)> {
    match reading {
        Ok((s, n)) => if s <= i64::MAX {
            Some((s as int, n as int))
        } else {
            None
        },
        Err((s, n)) => if n == 0 {
            if s <= i64::MAX {
                Some((-(s as int), 0))
            } else {
                None
            }
        } else if s < i64::MAX {
            Some((-(s as int) - 1, 1_000_000_000 - n))
        } else {
            None
        },
    }
}

/// The reading `reading` as signed seconds since the epoch, rounded down,
/// with the nanoseconds beyond them.
pub fn signed_seconds(reading: Result<(u64, u32), (u64, u32)>) -> (r: Option<(i64, u32)>)
    requires
        match reading {
            Ok((_, n)) => n < 1_000_000_000,
            Err((_, n)) => n < 1_000_000_000,
        },
    ensures
        match (r, floor_seconds(reading)) {
            (Some((s, n)), Some((fs, fnano))) => s == fs && n == fnano && n < 1_000_000_000,
            (None, None) => true,
            _ => false,
        },
{
    match reading {
        Ok((s, n)) => {
            if s <= 0x7fff_ffff_ffff_ffff {
                Some((s as i64, n))
            } else {
                None
            }
        },
        Err((s, n)) => {
            if n == 0 {
                if s <= 0x7fff_ffff_ffff_ffff {
                    Some((-(s as i64), 0))
                } else {
                    None
                }
            } else if s < 0x7fff_ffff_ffff_ffff {
                Some((-(s as i64) - 1, 1_000_000_000 - n))
            } else {
                None
            }
        },
    }
}

/// The current time in whole seconds since the Unix epoch (negative before
/// it), or `None` when the clock's reading lies outside what `i64` seconds
/// and chrono's calendar can hold.
pub fn now_timestamp() -> Option<i64> {
    let reading = read_system_clock();
    match signed_seconds(reading) {
        Some((secs, nanos)) => utc_timestamp(secs, nanos),
        None => None,
    }
}

/// A reading turned into signed seconds keeps the instant: seconds times a
/// billion plus nanoseconds is the reading's distance from the epoch, signed
/// by its side of it, and the nanoseconds stay below a billion.
pub proof fn law_floor_seconds_keeps_instant(reading: Result<(u64, u32), (u64, u32)>)
    requires
        match reading {
            Ok((_, n)) => n < 1_000_000_000,
            Err((_, n)) => n < 1_000_000_000,
        },
    ensures
        floor_seconds(reading) matches Some((s, n)) ==> 0 <= n < 1_000_000_000 && s
            * 1_000_000_000 + n == match reading {
            Ok((a, b)) => a * 1_000_000_000 + b,
            Err((a, b)) => -(a * 1_000_000_000 + b),
        },
{
}

} // verus!
