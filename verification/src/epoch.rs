use vstd::prelude::*;
use vstd::string::StringExecFns;

use crate::schema::War;
use crate::strutil::{i32_to_dec, spec_dec_int};
use crate::Shard;

verus! {

/// Length of the timing safety guard after a resistance window opens:
/// 12 hours, in milliseconds.
pub const RESISTANCE_GUARD_MILLIS: i64 = 43200000;

/// Failures of epoch resolution. Each is fatal: no cache write may happen
/// once one is raised.
#[derive(Debug)]
pub enum ResolveError {
    /// The resistance window is younger than the 12-hour guard.
    TooSoonSinceResistance,
    /// A cached epoch record under the same namespace carries a different
    /// epoch id than the live one; the two conflicting ids are carried along.
    WarIdMismatch { live_id: String, cached_id: String },
}

impl ResolveError {
    /// Diagnostic text for operators.
    pub fn message(&self) -> (r: String)
        ensures
            self is TooSoonSinceResistance ==> r@ == "too soon since resistance start; aborting"@,
            self matches ResolveError::WarIdMismatch { live_id, cached_id } ==> r@
                == "cached war record has the same war number but a different war id: live "@
                + live_id@ + " vs cached "@ + cached_id@,
    {
        match self {
            ResolveError::TooSoonSinceResistance => String::from_str(
                "too soon since resistance start; aborting",
            ),
            ResolveError::WarIdMismatch { live_id, cached_id } => {
                let mut s = String::from_str(
                    "cached war record has the same war number but a different war id: live ",
                );
                s.append(live_id.as_str());
                s.append(" vs cached ");
                s.append(cached_id.as_str());
                s
            },
        }
    }
}

/// Cache namespace for one run: shard name, a dash, the decimal sequence
/// number, and a "-resistance" marker when the resistance window is open.
pub open spec fn spec_namespace(shard_name: Seq<char>, war_number: int, resistance: bool) -> Seq<
    char,
> {
    shard_name + "-"@ + spec_dec_int(war_number) + (if resistance {
        "-resistance"@
    } else {
        Seq::<char>::empty()
    })
}

/// The timing guard fires when the resistance window started less than
/// 12 hours before `now`.
pub open spec fn spec_too_soon(now_millis: int, start_millis: int) -> bool {
    now_millis - start_millis < RESISTANCE_GUARD_MILLIS
}

/// Derives the cache namespace for the given war, enforcing the timing
/// safety guard: a resistance window younger than 12 hours aborts resolution
/// before any cache activity.
pub fn resolve_war_name(war: &War, shard: &Shard, now_millis: i64) -> (r: Result<
    String,
    ResolveError,
>)
    ensures
        match war.resistance_start_time {
            Some(start) => {
                if spec_too_soon(now_millis as int, start as int) {
                    r matches Err(e) && e is TooSoonSinceResistance
                } else {
                    r matches Ok(name) && name@ == spec_namespace(
                        shard.spec_name(),
                        war.war_number as int,
                        true,
                    )
                }
            },
            None => r matches Ok(name) && name@ == spec_namespace(
                shard.spec_name(),
                war.war_number as int,
                false,
            ),
        },
{
    match war.resistance_start_time {
        None => {
            let mut s = String::from_str(shard.name());
            s.append("-");
            s.append(i32_to_dec(war.war_number).as_str());
            proof {
                assert(s@ =~= spec_namespace(shard.spec_name(), war.war_number as int, false));
            }
            Ok(s)
        },
        Some(start) => {
            if (now_millis as i128) - (start as i128) < (RESISTANCE_GUARD_MILLIS as i128) {
                Err(ResolveError::TooSoonSinceResistance)
            } else {
                let mut s = String::from_str(shard.name());
                s.append("-");
                s.append(i32_to_dec(war.war_number).as_str());
                s.append("-resistance");
                proof {
                    assert(s@ =~= spec_namespace(shard.spec_name(), war.war_number as int, true));
                }
                Ok(s)
            }
        },
    }
}

/// Validates namespace reuse: a cached epoch record for the namespace must
/// carry the same epoch id as the freshly fetched one. A mismatch under the
/// same sequence number is a fatal consistency violation.
pub fn check_cached_war_id(live: &War, cached: &War) -> (r: Result<(), ResolveError>)
    ensures
        r is Ok <==> live.war_id@ == cached.war_id@,
        r matches Err(e) ==> e matches ResolveError::WarIdMismatch { live_id, cached_id }
            && live_id@ == live.war_id@ && cached_id@ == cached.war_id@,
{
    if live.war_id == cached.war_id {
        Ok(())
    } else {
        Err(
            ResolveError::WarIdMismatch {
                live_id: live.war_id.clone(),
                cached_id: cached.war_id.clone(),
            },
        )
    }
}

} // verus!
