use vstd::prelude::*;

verus! {

/// The first local port that a connection tries to bind.
pub const BASE_PORT: u16 = 10000;

/// How many ports after the first one are tried when each is in use.
pub const MAX_BIND_RETRIES: u32 = 50000;

/// The port that the bind attempt numbered `attempt` (from 0) tries.
pub open spec fn attempt_port(attempt: int) -> int {
    BASE_PORT + attempt
}

/// The local port to try at bind attempt `attempt`, counted from 0, after
/// every earlier attempt found its port in use; `None` once the scan is
/// exhausted.
pub fn scan_port(attempt: u32) -> (r: Option<u16>)
    ensures
        attempt <= MAX_BIND_RETRIES ==> r == Some(attempt_port(attempt as int) as u16),
        attempt <= MAX_BIND_RETRIES ==> attempt_port(attempt as int) <= u16::MAX,
        attempt > MAX_BIND_RETRIES ==> r is None,
{
    if attempt > MAX_BIND_RETRIES {
        None
    } else {
        Some(BASE_PORT + attempt as u16)
    }
}

/// Where a scan ends that starts at attempt `attempt` and is given, for
/// each attempt, whether its port is in use: the first port not in use,
/// or `None` when the scan is exhausted first. An attempt beyond the end
/// of `in_use` finds its port free.
pub open spec fn scan_outcome(in_use: Seq<bool>, attempt: nat) -> Option<int>
    decreases MAX_BIND_RETRIES + 1 - attempt,
{
    if attempt > MAX_BIND_RETRIES {
        None
    } else if attempt < in_use.len() && in_use[attempt as int] {
        scan_outcome(in_use, attempt + 1)
    } else {
        Some(attempt_port(attempt as int))
    }
}

/// When the first `n` ports of the scan are in use and the next is free,
/// the scan binds that next one, `BASE_PORT + n`, as long as `n` is within
/// the retry bound.
pub proof fn lemma_scan_binds_first_free(in_use: Seq<bool>, n: nat)
    requires
        n <= MAX_BIND_RETRIES,
        n < in_use.len(),
        !in_use[n as int],
        forall|i: int| 0 <= i < n ==> in_use[i],
    ensures
        scan_outcome(in_use, 0) == Some(BASE_PORT + n),
{
    lemma_scan_from(in_use, 0, n);
}

proof fn lemma_scan_from(in_use: Seq<bool>, k: nat, n: nat)
    requires
        k <= n <= MAX_BIND_RETRIES,
        n < in_use.len(),
        !in_use[n as int],
        forall|i: int| 0 <= i < n ==> in_use[i],
    ensures
        scan_outcome(in_use, k) == Some(BASE_PORT + n),
    decreases n - k,
{
    if k < n {
        lemma_scan_from(in_use, k + 1, n);
    }
}

/// When every port up to the retry bound is in use, the scan is
/// exhausted.
pub proof fn lemma_scan_exhausted(in_use: Seq<bool>)
    requires
        in_use.len() > MAX_BIND_RETRIES,
        forall|i: int| 0 <= i <= MAX_BIND_RETRIES ==> in_use[i],
    ensures
        scan_outcome(in_use, 0) is None,
{
    lemma_exhausted_from(in_use, 0);
}

proof fn lemma_exhausted_from(in_use: Seq<bool>, k: nat)
    requires
        in_use.len() > MAX_BIND_RETRIES,
        forall|i: int| 0 <= i <= MAX_BIND_RETRIES ==> in_use[i],
    ensures
        scan_outcome(in_use, k) is None,
    decreases MAX_BIND_RETRIES + 1 - k,
{
    if k <= MAX_BIND_RETRIES {
        lemma_exhausted_from(in_use, k + 1);
    }
}

} // verus!
