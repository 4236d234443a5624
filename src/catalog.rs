//! Catalogue vocabulary, resource summaries and the orchestrator's choice of
//! a discovered model.

use vstd::prelude::*;
use crate::download::parsed_entries;
use crate::paths::same_text;
use std::collections::hash_map::DefaultHasher;
use std::hash::Hasher;

verus! {

/// Kinds of model offered by a catalogue.
#[derive(Clone, Copy, Debug, PartialEq, Eq, Hash, Structural)]
pub enum ModelType {
    TextGeneration,
    ChatCompletion,
    Embedding,
    CodeGeneration,
    ImageGeneration,
    Multimodal,
}

/// Orders in which catalogue searches can be sorted.
#[derive(Clone, Copy, Debug, PartialEq, Eq, Structural)]
pub enum SortBy {
    Name,
    Size,
    Rating,
    DownloadCount,
    LastUpdated,
    Relevance,
}

/// Direction of a sort.
#[derive(Clone, Copy, Debug, PartialEq, Eq, Structural)]
pub enum SortOrder {
    Asc,
    Desc,
}

/// Disk, ports and processes used by the installed models.
#[derive(Clone, Debug)]
pub struct ResourceOverview {
    pub total_disk_usage_bytes: u64,
    pub ports_in_use: Vec<u16>,
    pub active_processes: Vec<u32>,
}

pub open spec fn sum_sizes(s: Seq<u64>) -> nat
    decreases s.len(),
{
    if s.len() == 0 {
        0
    } else {
        sum_sizes(s.drop_last()) + s.last() as nat
    }
}

fn present_values<T: Copy>(v: &Vec<Option<T>>) -> (r: Vec<T>)
    ensures
        r@ == parsed_entries(v@),
{
    let mut out: Vec<T> = Vec::new();
    let mut i: usize = v.len();
    while i > 0
        invariant
            i <= v@.len(),
            out@ == parsed_entries(v@.subrange(i as int, v@.len() as int)),
        decreases i,
    {
        i = i - 1;
        let ghost rest = v@.subrange(i + 1, v@.len() as int);
        assert(v@.subrange(i as int, v@.len() as int).drop_first() =~= rest);
        match v[i] {
            Some(x) => {
                let ghost old_out = out@;
                out.insert(0, x);
                assert(out@ =~= seq![x] + old_out);
            },
            None => {},
        }
    }
    assert(v@.subrange(0, v@.len() as int) =~= v@);
    out
}

impl ResourceOverview {
    /// Sums the sizes of the installed models and lists the ports and the
    /// process ids that are set, in the models' order.
    pub fn from_models(
        file_sizes: &Vec<u64>,
        ports: &Vec<Option<u16>>,
        processes: &Vec<Option<u32>>,
    ) -> (r: Self)
        requires
            sum_sizes(file_sizes@) <= u64::MAX,
        ensures
            r.total_disk_usage_bytes == sum_sizes(file_sizes@),
            r.ports_in_use@ == parsed_entries(ports@),
            r.active_processes@ == parsed_entries(processes@),
    {
        let mut total: u64 = 0;
        let mut i: usize = 0;
        while i < file_sizes.len()
            invariant
                i <= file_sizes@.len(),
                sum_sizes(file_sizes@) <= u64::MAX,
                total == sum_sizes(file_sizes@.subrange(0, i as int)),
            decreases file_sizes@.len() - i,
        {
            proof {
                lemma_sum_prefix_bounded(file_sizes@, i as int + 1);
                assert(file_sizes@.subrange(0, i + 1).drop_last() =~= file_sizes@.subrange(
                    0,
                    i as int,
                ));
            }
            total = total + file_sizes[i];
            i = i + 1;
        }
        assert(file_sizes@.subrange(0, file_sizes@.len() as int) =~= file_sizes@);
        ResourceOverview {
            total_disk_usage_bytes: total,
            ports_in_use: present_values(ports),
            active_processes: present_values(processes),
        }
    }
}

proof fn lemma_sum_prefix_bounded(s: Seq<u64>, k: int)
    requires
        0 <= k <= s.len(),
    ensures
        sum_sizes(s.subrange(0, k)) <= sum_sizes(s),
    decreases s.len() - k,
{
    if k < s.len() {
        lemma_sum_prefix_bounded(s, k + 1);
        assert(s.subrange(0, k + 1).drop_last() =~= s.subrange(0, k));
    } else {
        assert(s.subrange(0, k) =~= s);
    }
}

#[verifier::external_type_specification]
#[verifier::external_body]
pub struct ExSystemTime(std::time::SystemTime);

/// Relies on `std::time::SystemTime::now`: the time of the call.
#[verifier::external_body]
fn system_now() -> (r: std::time::SystemTime) {
    std::time::SystemTime::now()
}

/// Relies on `SystemTime`'s `Hash` impl: feeds the time into the hasher.
#[verifier::external_body]
fn hash_time(t: &std::time::SystemTime, hasher: &mut DefaultHasher) {
    std::hash::Hash::hash(t, hasher)
}

/// A pseudo-random number drawn from the clock, for simulated process ids:
/// the default hasher's digest of the current time.
pub fn random() -> (r: u64) {
    let mut hasher = DefaultHasher::new();
    let now = system_now();
    hash_time(&now, &mut hasher);
    hasher.finish()
}

/// A discovered model matches when its name is `name` and, where a version
/// is asked for, its version is that one.
pub open spec fn matches_request(
    name: Seq<char>,
    version: Seq<char>,
    want_name: Seq<char>,
    want_version: Option<Seq<char>>,
) -> bool {
    name == want_name && match want_version {
        Some(v) => version == v,
        None => true,
    }
}

/// Picks, among discovered models given by name and version, the first
/// that matches the request.
pub fn find_discovered_model(
    candidates: &Vec<(String, String)>,
    model_name: &str,
    model_version: Option<&str>,
) -> (r: Option<usize>)
    ensures
        ({
            let want = match model_version {
                Some(v) => Some(v@),
                None => None,
            };
            &&& r matches Some(i) ==> i < candidates@.len() && matches_request(
                candidates@[i as int].0@,
                candidates@[i as int].1@,
                model_name@,
                want,
            ) && forall|j: int|
                0 <= j < i ==> !matches_request(
                    #[trigger] candidates@[j].0@,
                    candidates@[j].1@,
                    model_name@,
                    want,
                )
            &&& r is None ==> forall|j: int|
                0 <= j < candidates@.len() ==> !matches_request(
                    #[trigger] candidates@[j].0@,
                    candidates@[j].1@,
                    model_name@,
                    want,
                )
        }),
{
    let ghost want = match model_version {
        Some(v) => Some(v@),
        None => None,
    };
    let mut i: usize = 0;
    while i < candidates.len()
        invariant
            i <= candidates@.len(),
            want == (match model_version {
                Some(v) => Some(v@),
                None => None,
            }),
            forall|j: int|
                0 <= j < i ==> !matches_request(
                    #[trigger] candidates@[j].0@,
                    candidates@[j].1@,
                    model_name@,
                    want,
                ),
        decreases candidates@.len() - i,
    {
        let name_ok = same_text(candidates[i].0.as_str(), model_name);
        let ok = name_ok && match model_version {
            Some(v) => same_text(candidates[i].1.as_str(), v),
            None => true,
        };
        if ok {
            return Some(i);
        }
        i = i + 1;
    }
    None
}

} // verus!
