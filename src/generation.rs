//! Generations: naming a new one, and choosing the latest earlier one among
//! the directories of the backup root.
use vstd::prelude::*;
use vstd::string::StringExecFns;

verus! {

/// The layout of a generation's directory name, year down to second.
pub const GENERATION_FORMAT: &'static str = "%Y-%m-%d %H-%M-%S";

/// The suffix that marks a generation still being written.
pub const IN_PROGRESS_SUFFIX: &'static str = "-inprogress";

/// The instant that `s` names in the layout `fmt`, as seconds since the
/// epoch and further nanoseconds, or `None` where it names none.
pub uninterp spec fn parsed_datetime(s: Seq<char>, fmt: Seq<char>) -> Option<(i64, u32)>;

/// Relies on chrono's `NaiveDateTime::parse_from_str`, read in UTC through
/// `timestamp` and `timestamp_subsec_nanos`: the pair orders instants as
/// chrono orders its date-times.
#[verifier::external_body]
fn parse_datetime(s: &str, fmt: &str) -> (r: Option<(i64, u32)>)
    ensures
        r == parsed_datetime(s@, fmt@),
{
    match chrono::NaiveDateTime::parse_from_str(s, fmt) {
        Ok(d) => Some((d.and_utc().timestamp(), d.and_utc().timestamp_subsec_nanos())),
        Err(_) => None,
    }
}

/// The earliest instant a generation may carry: 0001-01-01 00:00:00, in
/// seconds since the epoch.
pub const EARLIEST_GENERATION_SECS: i64 = -62135596800;

/// Instant `a` is no later than instant `b`.
pub open spec fn stamp_le(a: (i64, u32), b: (i64, u32)) -> bool {
    a.0 < b.0 || (a.0 == b.0 && a.1 <= b.1)
}

/// Instant `s` is one a generation may carry.
pub open spec fn eligible(s: (i64, u32)) -> bool {
    stamp_le((EARLIEST_GENERATION_SECS, 0), s)
}

/// `r` picks the latest eligible instant among `stamps`, the last such index
/// where several are equal, and is `None` exactly where none is eligible.
pub open spec fn is_latest(stamps: Seq<Option<(i64, u32)>>, r: Option<usize>) -> bool {
    &&& r is None <==> forall|j: int|
        0 <= j < stamps.len() ==> !(#[trigger] stamps[j] matches Some(t) && eligible(t))
    &&& r matches Some(i) ==> {
        &&& i < stamps.len()
        &&& stamps[i as int] matches Some(s) && eligible(s)
        &&& forall|j: int|
            0 <= j < stamps.len() && (#[trigger] stamps[j]) is Some ==> stamp_le(
                stamps[j]->Some_0,
                stamps[i as int]->Some_0,
            )
        &&& forall|j: int|
            i < j < stamps.len() && (#[trigger] stamps[j]) is Some ==> !stamp_le(
                stamps[i as int]->Some_0,
                stamps[j]->Some_0,
            )
    }
}

/// The index of the latest eligible instant among `stamps`.
pub fn latest_of(stamps: &Vec<Option<(i64, u32)>>) -> (r: Option<usize>)
    ensures
        is_latest(stamps@, r),
{
    let mut best: Option<usize> = None;
    let mut best_stamp: (i64, u32) = (EARLIEST_GENERATION_SECS, 0);
    let mut k: usize = 0;
    while k < stamps.len()
        invariant
            k <= stamps@.len(),
            eligible(best_stamp),
            best is None ==> best_stamp == (EARLIEST_GENERATION_SECS, 0u32),
            best is None ==> forall|j: int|
                0 <= j < k ==> !(#[trigger] stamps@[j] matches Some(t) && eligible(t)),
            best matches Some(i) ==> i < k && stamps@[i as int] == Some(best_stamp),
            forall|j: int|
                0 <= j < k && (#[trigger] stamps@[j]) is Some && eligible(stamps@[j]->Some_0) ==> stamp_le(
                    stamps@[j]->Some_0,
                    best_stamp,
                ),
            best matches Some(i) ==> forall|j: int|
                i < j < k && (#[trigger] stamps@[j]) is Some ==> !stamp_le(best_stamp, stamps@[j]->Some_0),
        decreases stamps.len() - k,
    {
        if let Some(s) = stamps[k] {
            if s.0 > best_stamp.0 || (s.0 == best_stamp.0 && s.1 >= best_stamp.1) {
                best = Some(k);
                best_stamp = s;
            }
        }
        k = k + 1;
    }
    proof {
        if best is Some {
            assert forall|j: int|
                0 <= j < stamps@.len() && (#[trigger] stamps@[j]) is Some implies stamp_le(
                stamps@[j]->Some_0,
                best_stamp,
            ) by {
                let t = stamps@[j]->Some_0;
                if !eligible(t) {
                    assert(!stamp_le((EARLIEST_GENERATION_SECS, 0), t));
                }
            }
        }
    }
    best
}

/// The index of the latest generation among the directory names `names`:
/// the last of those that name the latest eligible instant in
/// [`GENERATION_FORMAT`], or `None` where none does.
pub fn latest_generation(names: &Vec<String>) -> (r: Option<usize>)
    ensures
        is_latest(names@.map_values(|n: String| parsed_datetime(n@, GENERATION_FORMAT@)), r),
{
    let mut stamps: Vec<Option<(i64, u32)>> = Vec::new();
    let mut k: usize = 0;
    while k < names.len()
        invariant
            k <= names@.len(),
            stamps@ == names@.subrange(0, k as int).map_values(
                |n: String| parsed_datetime(n@, GENERATION_FORMAT@),
            ),
        decreases names.len() - k,
    {
        let s = parse_datetime(names[k].as_str(), GENERATION_FORMAT);
        stamps.push(s);
        proof {
            assert(stamps@ =~= names@.subrange(0, k + 1).map_values(
                |n: String| parsed_datetime(n@, GENERATION_FORMAT@),
            ));
        }
        k = k + 1;
    }
    assert(names@.subrange(0, names@.len() as int) =~= names@);
    latest_of(&stamps)
}

/// The name of a generation while it is being written.
pub fn in_progress_name(name: &String) -> (r: String)
    ensures
        r@ == name@ + IN_PROGRESS_SUFFIX@,
{
    let mut r = name.clone();
    r.append(IN_PROGRESS_SUFFIX);
    r
}

} // verus!
