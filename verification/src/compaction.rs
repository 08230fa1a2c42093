//! Compaction strategies: a sliding window over non-pinned messages and a
//! policy-tiered trim, each as a pure function of the message list.
use crate::message::{
    count_policy, pinned_count, CompactionPolicy, Message, MessageModel, count_pinned,
};
use vstd::prelude::*;

verus! {

// ── Selection by index ──────────────────────────────────────────────────

/// The messages among the first `n` whose index satisfies `keep`, in order.
pub open spec fn select(msgs: Seq<MessageModel>, keep: spec_fn(int) -> bool, n: int) -> Seq<
    MessageModel,
>
    decreases n,
{
    if n <= 0 {
        Seq::empty()
    } else {
        let prev = select(msgs, keep, n - 1);
        if keep(n - 1) {
            prev.push(msgs[n - 1])
        } else {
            prev
        }
    }
}

/// Number of non-pinned messages in a list.
pub open spec fn unpinned_count(msgs: Seq<MessageModel>) -> int {
    msgs.len() - pinned_count(msgs)
}

// ── Sliding window ──────────────────────────────────────────────────────

/// Rank of the first non-pinned message that the window keeps.
pub open spec fn window_start(msgs: Seq<MessageModel>, keep: nat) -> int {
    if unpinned_count(msgs) > keep {
        unpinned_count(msgs) - keep
    } else {
        0
    }
}

/// Whether the sliding window keeps the message at index `i`: pinned
/// messages always, non-pinned ones when they are among the `keep` most recent.
pub open spec fn window_keeps(msgs: Seq<MessageModel>, keep: nat, i: int) -> bool {
    msgs[i].policy == CompactionPolicy::Pinned || unpinned_count(msgs.take(i)) >= window_start(
        msgs,
        keep,
    )
}

/// Result of the sliding window: all pinned messages plus the `keep` most
/// recent non-pinned ones, in the order they came.
pub open spec fn sliding_window_spec(msgs: Seq<MessageModel>, keep: nat) -> Seq<MessageModel> {
    select(msgs, |i: int| window_keeps(msgs, keep, i), msgs.len() as int)
}

// ── Policy trim ─────────────────────────────────────────────────────────

/// Smaller of two integers.
pub open spec fn min_int(a: int, b: int) -> int {
    if a <= b {
        a
    } else {
        b
    }
}

/// Number of messages that must go to reach `target`.
pub open spec fn trim_excess(msgs: Seq<MessageModel>, target: nat) -> int {
    if msgs.len() > target {
        msgs.len() - target
    } else {
        0
    }
}

/// Number of `DiscardWhenDone` messages removed.
pub open spec fn removed_discard(msgs: Seq<MessageModel>, target: nat) -> int {
    min_int(trim_excess(msgs, target), count_policy(msgs, CompactionPolicy::DiscardWhenDone) as int)
}

/// Number of `CompressFirst` messages removed.
pub open spec fn removed_compress(msgs: Seq<MessageModel>, target: nat) -> int {
    min_int(
        trim_excess(msgs, target) - removed_discard(msgs, target),
        count_policy(msgs, CompactionPolicy::CompressFirst) as int,
    )
}

/// Number of `Normal` messages removed.
pub open spec fn removed_normal(msgs: Seq<MessageModel>, target: nat) -> int {
    min_int(
        trim_excess(msgs, target) - removed_discard(msgs, target) - removed_compress(msgs, target),
        count_policy(msgs, CompactionPolicy::Normal) as int,
    )
}

/// Number of messages of a policy that the trim removes (oldest first).
pub open spec fn removed_of(msgs: Seq<MessageModel>, target: nat, p: CompactionPolicy) -> int {
    match p {
        CompactionPolicy::Pinned => 0,
        CompactionPolicy::DiscardWhenDone => removed_discard(msgs, target),
        CompactionPolicy::CompressFirst => removed_compress(msgs, target),
        CompactionPolicy::Normal => removed_normal(msgs, target),
    }
}

/// Whether the trim keeps the message at index `i`: a message survives when
/// its rank within its own policy tier is at least the number removed from
/// that tier.
pub open spec fn trim_keeps(msgs: Seq<MessageModel>, target: nat, i: int) -> bool {
    count_policy(msgs.take(i), msgs[i].policy) >= removed_of(msgs, target, msgs[i].policy)
}

/// Result of the policy trim: unchanged when already within `target`;
/// otherwise messages are removed `DiscardWhenDone` first, then
/// `CompressFirst`, then `Normal`, oldest first within each tier, until
/// `target` is reached or only pinned messages remain.
pub open spec fn policy_trim_spec(msgs: Seq<MessageModel>, target: nat) -> Seq<MessageModel> {
    if msgs.len() <= target {
        msgs
    } else {
        select(msgs, |i: int| trim_keeps(msgs, target, i), msgs.len() as int)
    }
}

// ── Lemmas ──────────────────────────────────────────────────────────────

/// Counting one more element of a prefix.
pub proof fn lemma_count_take_step(msgs: Seq<MessageModel>, i: int, p: CompactionPolicy)
    requires
        0 <= i < msgs.len(),
    ensures
        count_policy(msgs.take(i + 1), p) == count_policy(msgs.take(i), p) + if msgs[i].policy
            == p {
            1nat
        } else {
            0nat
        },
{
    assert(msgs.take(i + 1).drop_last() =~= msgs.take(i));
}

/// Counting over the full list.
pub proof fn lemma_take_full(msgs: Seq<MessageModel>)
    ensures
        msgs.take(msgs.len() as int) == msgs,
{
    assert(msgs.take(msgs.len() as int) =~= msgs);
}

/// Counts of the four policies add up to the length.
pub proof fn lemma_policy_partition(msgs: Seq<MessageModel>)
    ensures
        count_policy(msgs, CompactionPolicy::Pinned) + count_policy(
            msgs,
            CompactionPolicy::Normal,
        ) + count_policy(msgs, CompactionPolicy::CompressFirst) + count_policy(
            msgs,
            CompactionPolicy::DiscardWhenDone,
        ) == msgs.len(),
    decreases msgs.len(),
{
    if msgs.len() > 0 {
        lemma_policy_partition(msgs.drop_last());
    }
}

/// A count never exceeds the length.
pub proof fn lemma_count_le_len(msgs: Seq<MessageModel>, p: CompactionPolicy)
    ensures
        count_policy(msgs, p) <= msgs.len(),
    decreases msgs.len(),
{
    if msgs.len() > 0 {
        lemma_count_le_len(msgs.drop_last(), p);
    }
}

/// Counting a pushed element.
pub proof fn lemma_count_push(s: Seq<MessageModel>, m: MessageModel, p: CompactionPolicy)
    ensures
        count_policy(s.push(m), p) == count_policy(s, p) + if m.policy == p {
            1nat
        } else {
            0nat
        },
{
    assert(s.push(m).drop_last() =~= s);
}

/// Within one tier, a selection by rank threshold keeps all but the first
/// `thr` members of the tier.
pub proof fn lemma_select_tier_count(
    msgs: Seq<MessageModel>,
    keep: spec_fn(int) -> bool,
    n: int,
    p: CompactionPolicy,
    thr: int,
)
    requires
        0 <= n <= msgs.len(),
        0 <= thr,
        forall|i: int|
            0 <= i < n && msgs[i].policy == p ==> (#[trigger] keep(i) <==> count_policy(
                msgs.take(i),
                p,
            ) >= thr),
    ensures
        count_policy(select(msgs, keep, n), p) == if count_policy(msgs.take(n), p) >= thr {
            count_policy(msgs.take(n), p) - thr
        } else {
            0
        },
    decreases n,
{
    if n == 0 {
        assert(msgs.take(0) =~= Seq::<MessageModel>::empty());
    } else {
        lemma_select_tier_count(msgs, keep, n - 1, p, thr);
        lemma_count_take_step(msgs, n - 1, p);
        let prev = select(msgs, keep, n - 1);
        if keep(n - 1) {
            lemma_count_push(prev, msgs[n - 1], p);
        }
    }
}

/// The length of a selection is the sum of its per-policy counts.
pub proof fn lemma_select_len(msgs: Seq<MessageModel>, keep: spec_fn(int) -> bool, n: int)
    ensures
        select(msgs, keep, n).len() == count_policy(select(msgs, keep, n), CompactionPolicy::Pinned)
            + count_policy(select(msgs, keep, n), CompactionPolicy::Normal) + count_policy(
            select(msgs, keep, n),
            CompactionPolicy::CompressFirst,
        ) + count_policy(select(msgs, keep, n), CompactionPolicy::DiscardWhenDone),
{
    lemma_policy_partition(select(msgs, keep, n));
}

/// A selection that keeps every index is the prefix itself.
pub proof fn lemma_select_all(msgs: Seq<MessageModel>, keep: spec_fn(int) -> bool, n: int)
    requires
        0 <= n <= msgs.len(),
        forall|i: int| 0 <= i < n ==> #[trigger] keep(i),
    ensures
        select(msgs, keep, n) == msgs.take(n),
    decreases n,
{
    if n == 0 {
        assert(msgs.take(0) =~= Seq::<MessageModel>::empty());
    } else {
        lemma_select_all(msgs, keep, n - 1);
        assert(msgs.take(n - 1).push(msgs[n - 1]) =~= msgs.take(n));
    }
}

/// Non-pinned messages kept by a rank threshold across all non-pinned tiers.
pub proof fn lemma_select_unpinned_count(msgs: Seq<MessageModel>, keep: nat, n: int)
    requires
        0 <= n <= msgs.len(),
    ensures
        unpinned_count(sliding_prefix(msgs, keep, n)) == if unpinned_count(msgs.take(n))
            >= window_start(msgs, keep) {
            unpinned_count(msgs.take(n)) - window_start(msgs, keep)
        } else {
            0
        },
        pinned_count(sliding_prefix(msgs, keep, n)) == pinned_count(msgs.take(n)),
    decreases n,
{
    if n == 0 {
        assert(msgs.take(0) =~= Seq::<MessageModel>::empty());
    } else {
        lemma_select_unpinned_count(msgs, keep, n - 1);
        lemma_count_take_step(msgs, n - 1, CompactionPolicy::Pinned);
        let prev = sliding_prefix(msgs, keep, n - 1);
        if window_keeps(msgs, keep, n - 1) {
            lemma_count_push(prev, msgs[n - 1], CompactionPolicy::Pinned);
        }
        lemma_count_le_len(prev, CompactionPolicy::Pinned);
        lemma_count_le_len(msgs.take(n - 1), CompactionPolicy::Pinned);
    }
}

/// The sliding-window selection over the first `n` messages.
pub open spec fn sliding_prefix(msgs: Seq<MessageModel>, keep: nat, n: int) -> Seq<MessageModel> {
    select(msgs, |i: int| window_keeps(msgs, keep, i), n)
}

/// Every element of a selection comes from the source, in order: the
/// selection is the source with some elements dropped.
pub open spec fn is_subsequence(sub: Seq<MessageModel>, full: Seq<MessageModel>) -> bool {
    exists|idx: Seq<int>|
        #![trigger idx.len()]
        idx.len() == sub.len() && (forall|k: int|
            0 <= k < idx.len() ==> 0 <= #[trigger] idx[k] < full.len() && sub[k] == full[idx[k]])
            && (forall|a: int, b: int| 0 <= a < b < idx.len() ==> idx[a] < idx[b])
}

/// Indices (below `n`) that `keep` accepts, in increasing order.
pub open spec fn select_indices(keep: spec_fn(int) -> bool, n: int) -> Seq<int>
    decreases n,
{
    if n <= 0 {
        Seq::empty()
    } else {
        let prev = select_indices(keep, n - 1);
        if keep(n - 1) {
            prev.push(n - 1)
        } else {
            prev
        }
    }
}

/// The selection picks exactly the accepted indices, in increasing order.
pub proof fn lemma_select_indices(msgs: Seq<MessageModel>, keep: spec_fn(int) -> bool, n: int)
    requires
        0 <= n <= msgs.len(),
    ensures
        select_indices(keep, n).len() == select(msgs, keep, n).len(),
        forall|k: int|
            0 <= k < select_indices(keep, n).len() ==> 0 <= #[trigger] select_indices(keep, n)[k]
                < n && keep(select_indices(keep, n)[k]) && select(msgs, keep, n)[k]
                == msgs[select_indices(keep, n)[k]],
        forall|a: int, b: int|
            0 <= a < b < select_indices(keep, n).len() ==> #[trigger] select_indices(keep, n)[a]
                < #[trigger] select_indices(keep, n)[b],
    decreases n,
{
    if n > 0 {
        lemma_select_indices(msgs, keep, n - 1);
    }
}

/// A selection is a subsequence of the list it selects from.
pub proof fn lemma_select_subsequence(msgs: Seq<MessageModel>, keep: spec_fn(int) -> bool)
    ensures
        is_subsequence(select(msgs, keep, msgs.len() as int), msgs),
{
    let n = msgs.len() as int;
    lemma_select_indices(msgs, keep, n);
    let idx = select_indices(keep, n);
    assert(idx.len() == select(msgs, keep, n).len());
}

// ── Laws ────────────────────────────────────────────────────────────────

/// Prefix counts grow: a message of policy `p` at index `i` is counted in
/// every longer prefix.
pub proof fn lemma_count_take_monotone(msgs: Seq<MessageModel>, i: int, j: int, p: CompactionPolicy)
    requires
        0 <= i < j <= msgs.len(),
    ensures
        count_policy(msgs.take(i), p) + if msgs[i].policy == p {
            1int
        } else {
            0int
        } <= count_policy(msgs.take(j), p),
    decreases j - i,
{
    lemma_count_take_step(msgs, i, p);
    if j > i + 1 {
        lemma_count_take_step(msgs, j - 1, p);
        if i + 1 < j - 1 {
            lemma_count_take_monotone_plain(msgs, i + 1, j - 1, p);
        }
    }
}

/// Prefix counts never decrease.
pub proof fn lemma_count_take_monotone_plain(msgs: Seq<MessageModel>, i: int, j: int, p: CompactionPolicy)
    requires
        0 <= i <= j <= msgs.len(),
    ensures
        count_policy(msgs.take(i), p) <= count_policy(msgs.take(j), p),
    decreases j - i,
{
    if i < j {
        lemma_count_take_step(msgs, j - 1, p);
        lemma_count_take_monotone_plain(msgs, i, j - 1, p);
    }
}

/// The sliding window keeps every pinned message, keeps
/// `min(keep, unpinned)` non-pinned messages, and preserves order.
pub proof fn law_sliding_window_counts(msgs: Seq<MessageModel>, keep: nat)
    ensures
        pinned_count(sliding_window_spec(msgs, keep)) == pinned_count(msgs),
        unpinned_count(sliding_window_spec(msgs, keep)) == min_int(unpinned_count(msgs), keep as int),
        sliding_window_spec(msgs, keep).len() == pinned_count(msgs) + min_int(
            unpinned_count(msgs),
            keep as int,
        ),
        is_subsequence(sliding_window_spec(msgs, keep), msgs),
{
    lemma_select_unpinned_count(msgs, keep, msgs.len() as int);
    lemma_take_full(msgs);
    lemma_count_le_len(msgs, CompactionPolicy::Pinned);
    lemma_select_subsequence(msgs, |i: int| window_keeps(msgs, keep, i));
}

/// A list with at most `keep` non-pinned messages passes through the
/// sliding window unchanged.
pub proof fn law_sliding_window_within_keep(msgs: Seq<MessageModel>, keep: nat)
    requires
        unpinned_count(msgs) <= keep,
    ensures
        sliding_window_spec(msgs, keep) == msgs,
{
    let n = msgs.len() as int;
    assert forall|i: int| 0 <= i < n implies #[trigger] window_keeps(msgs, keep, i) by {
        lemma_count_le_len(msgs.take(i), CompactionPolicy::Pinned);
    }
    lemma_select_all(msgs, |i: int| window_keeps(msgs, keep, i), n);
    lemma_take_full(msgs);
}

/// Applying the sliding window twice gives the same result as once.
pub proof fn law_sliding_window_idempotent(msgs: Seq<MessageModel>, keep: nat)
    ensures
        sliding_window_spec(sliding_window_spec(msgs, keep), keep) == sliding_window_spec(msgs, keep),
{
    law_sliding_window_counts(msgs, keep);
    law_sliding_window_within_keep(sliding_window_spec(msgs, keep), keep);
}

/// The window drops the oldest non-pinned messages: when a non-pinned
/// message is kept, every later non-pinned message is kept too.
pub proof fn law_sliding_window_keeps_newest(msgs: Seq<MessageModel>, keep: nat, i: int, j: int)
    requires
        0 <= i < j < msgs.len(),
        msgs[i].policy != CompactionPolicy::Pinned,
        msgs[j].policy != CompactionPolicy::Pinned,
        window_keeps(msgs, keep, i),
    ensures
        window_keeps(msgs, keep, j),
{
    lemma_count_take_step(msgs, i, CompactionPolicy::Pinned);
    lemma_count_take_monotone_plain(msgs, i + 1, j, CompactionPolicy::Pinned);
    lemma_count_le_len(msgs.take(i + 1), CompactionPolicy::Pinned);
    // unpinned counts grow by at least one per non-pinned message
    lemma_unpinned_monotone(msgs, i + 1, j);
}

/// Non-pinned prefix counts never decrease.
pub proof fn lemma_unpinned_monotone(msgs: Seq<MessageModel>, i: int, j: int)
    requires
        0 <= i <= j <= msgs.len(),
    ensures
        unpinned_count(msgs.take(i)) <= unpinned_count(msgs.take(j)),
    decreases j - i,
{
    if i < j {
        lemma_count_take_step(msgs, j - 1, CompactionPolicy::Pinned);
        lemma_unpinned_monotone(msgs, i, j - 1);
    }
}

/// Per-tier counts after a trim: each tier loses exactly the number the trim
/// removes from it; the result has `max(target, pinned)` messages, keeps every
/// pinned message and preserves order.
pub proof fn law_policy_trim_counts(msgs: Seq<MessageModel>, target: nat)
    requires
        msgs.len() > target,
    ensures
        forall|p: CompactionPolicy|
            #![trigger count_policy(policy_trim_spec(msgs, target), p)]
            count_policy(policy_trim_spec(msgs, target), p) == count_policy(msgs, p) - removed_of(
                msgs,
                target,
                p,
            ),
        pinned_count(policy_trim_spec(msgs, target)) == pinned_count(msgs),
        policy_trim_spec(msgs, target).len() == if target >= pinned_count(msgs) {
            target as int
        } else {
            pinned_count(msgs) as int
        },
        is_subsequence(policy_trim_spec(msgs, target), msgs),
{
    let n = msgs.len() as int;
    let keep = |i: int| trim_keeps(msgs, target, i);
    let r = select(msgs, keep, n);
    lemma_take_full(msgs);
    lemma_policy_partition(msgs);
    assert forall|p: CompactionPolicy| #[trigger] count_policy(r, p) == count_policy(msgs, p)
        - removed_of(msgs, target, p) by {
        lemma_select_tier_count(msgs, keep, n, p, removed_of(msgs, target, p));
    }
    lemma_select_len(msgs, keep, n);
    assert(count_policy(r, CompactionPolicy::Pinned) == count_policy(msgs, CompactionPolicy::Pinned));
    assert(count_policy(r, CompactionPolicy::Normal) == count_policy(msgs, CompactionPolicy::Normal) - removed_normal(msgs, target));
    assert(count_policy(r, CompactionPolicy::CompressFirst) == count_policy(msgs, CompactionPolicy::CompressFirst) - removed_compress(msgs, target));
    assert(count_policy(r, CompactionPolicy::DiscardWhenDone) == count_policy(msgs, CompactionPolicy::DiscardWhenDone) - removed_discard(msgs, target));
    lemma_select_subsequence(msgs, keep);
}

/// A list already within `target` is left unchanged by the trim.
pub proof fn law_policy_trim_within_target(msgs: Seq<MessageModel>, target: nat)
    requires
        msgs.len() <= target,
    ensures
        policy_trim_spec(msgs, target) == msgs,
{
}

/// Applying the trim twice gives the same result as once.
pub proof fn law_policy_trim_idempotent(msgs: Seq<MessageModel>, target: nat)
    ensures
        policy_trim_spec(policy_trim_spec(msgs, target), target) == policy_trim_spec(msgs, target),
{
    if msgs.len() > target {
        law_policy_trim_counts(msgs, target);
        let r = policy_trim_spec(msgs, target);
        lemma_policy_partition(msgs);
        if r.len() > target {
            // only pinned messages remain, so the second trim removes nothing
            assert(count_policy(r, CompactionPolicy::Normal) == 0);
            assert(count_policy(r, CompactionPolicy::CompressFirst) == 0);
            assert(count_policy(r, CompactionPolicy::DiscardWhenDone) == 0);
            let n = r.len() as int;
            assert forall|i: int| 0 <= i < n implies #[trigger] trim_keeps(r, target, i) by {
                assert(removed_of(r, target, r[i].policy) == 0);
            }
            lemma_select_all(r, |i: int| trim_keeps(r, target, i), n);
            lemma_take_full(r);
        }
    }
}

/// Tier order: `Normal` messages are removed only once every
/// `DiscardWhenDone` and `CompressFirst` message is gone, and
/// `CompressFirst` ones only once every `DiscardWhenDone` one is gone.
pub proof fn law_policy_trim_tier_order(msgs: Seq<MessageModel>, target: nat)
    ensures
        count_policy(policy_trim_spec(msgs, target), CompactionPolicy::Normal) < count_policy(
            msgs,
            CompactionPolicy::Normal,
        ) ==> count_policy(policy_trim_spec(msgs, target), CompactionPolicy::DiscardWhenDone) == 0
            && count_policy(policy_trim_spec(msgs, target), CompactionPolicy::CompressFirst) == 0,
        count_policy(policy_trim_spec(msgs, target), CompactionPolicy::CompressFirst)
            < count_policy(msgs, CompactionPolicy::CompressFirst) ==> count_policy(
            policy_trim_spec(msgs, target),
            CompactionPolicy::DiscardWhenDone,
        ) == 0,
{
    if msgs.len() > target {
        law_policy_trim_counts(msgs, target);
        let r = policy_trim_spec(msgs, target);
        assert(count_policy(r, CompactionPolicy::Normal) == count_policy(msgs, CompactionPolicy::Normal) - removed_normal(msgs, target));
        assert(count_policy(r, CompactionPolicy::CompressFirst) == count_policy(msgs, CompactionPolicy::CompressFirst) - removed_compress(msgs, target));
        assert(count_policy(r, CompactionPolicy::DiscardWhenDone) == count_policy(msgs, CompactionPolicy::DiscardWhenDone) - removed_discard(msgs, target));
    }
}

/// Within a tier the oldest messages go first: when a message is kept,
/// every later message of the same policy is kept too.
pub proof fn law_policy_trim_oldest_first(msgs: Seq<MessageModel>, target: nat, i: int, j: int)
    requires
        0 <= i < j < msgs.len(),
        msgs[i].policy == msgs[j].policy,
        trim_keeps(msgs, target, i),
    ensures
        trim_keeps(msgs, target, j),
{
    lemma_count_take_monotone(msgs, i, j, msgs[i].policy);
}

/// The removal tier of a policy: `DiscardWhenDone` goes first, then
/// `CompressFirst`, then `Normal` (pinned messages never go).
pub open spec fn tier_rank(p: CompactionPolicy) -> int {
    match p {
        CompactionPolicy::DiscardWhenDone => 0,
        CompactionPolicy::CompressFirst => 1,
        CompactionPolicy::Normal => 2,
        CompactionPolicy::Pinned => 3,
    }
}

/// A message of some tier that the trim removes is older, or of a lower
/// tier, than none that it keeps: removal goes by tier, oldest first, and
/// never takes a pinned message.
pub proof fn law_policy_trim_removal_order(msgs: Seq<MessageModel>, target: nat, i: int, j: int)
    requires
        0 <= i < msgs.len(),
        0 <= j < msgs.len(),
        !trim_keeps(msgs, target, j),
        msgs[i].policy != CompactionPolicy::Pinned,
        tier_rank(msgs[i].policy) < tier_rank(msgs[j].policy) || (msgs[i].policy == msgs[j].policy && i < j),
    ensures
        !trim_keeps(msgs, target, i),
        msgs[j].policy != CompactionPolicy::Pinned,
{
    let pi = msgs[i].policy;
    let pj = msgs[j].policy;
    if pi == pj {
        lemma_count_take_monotone(msgs, i, j, pi);
    } else {
        // The removed message's tier is being cut into, so every lower tier
        // is removed in full, and `i` is within its tier's count.
        lemma_count_take_monotone(msgs, i, msgs.len() as int, pi);
        lemma_take_full(msgs);
    }
}

// ── Executable strategies ───────────────────────────────────────────────

/// Number of messages with the given policy.
pub fn count_with_policy(msgs: &[Message], p: CompactionPolicy) -> (r: usize)
    ensures
        r == count_policy(msgs.deep_view(), p),
{
    let mut count: usize = 0;
    let n = msgs.len();
    for i in 0..n
        invariant
            n == msgs@.len(),
            n == msgs.deep_view().len(),
            count == count_policy(msgs.deep_view().take(i as int), p),
            count <= i,
    {
        proof {
            lemma_count_take_step(msgs.deep_view(), i as int, p);
        }
        if msgs[i].meta.policy == p {
            count = count + 1;
        }
    }
    proof {
        lemma_take_full(msgs.deep_view());
    }
    count
}

/// Keep the most recent `keep` non-pinned messages, preserving every pinned
/// message; the order of the messages is kept.
pub fn sliding_window(messages: &[Message], keep: usize) -> (r: Vec<Message>)
    ensures
        r.deep_view() == sliding_window_spec(messages.deep_view(), keep as nat),
{
    let ghost msgs = messages.deep_view();
    let n = messages.len();
    let pinned = count_pinned(messages);
    proof {
        lemma_count_le_len(msgs, CompactionPolicy::Pinned);
    }
    let unpinned = n - pinned;
    let start = if unpinned > keep { unpinned - keep } else { 0 };
    assert(start == window_start(msgs, keep as nat));
    let mut out: Vec<Message> = Vec::new();
    let mut rank: usize = 0;
    for i in 0..n
        invariant
            n == msgs.len(),
            msgs == messages.deep_view(),
            start == window_start(msgs, keep as nat),
            rank == unpinned_count(msgs.take(i as int)),
            out.deep_view() == sliding_prefix(msgs, keep as nat, i as int),
    {
        proof {
            lemma_count_take_step(msgs, i as int, CompactionPolicy::Pinned);
            lemma_count_le_len(msgs.take(i as int), CompactionPolicy::Pinned);
        }
        let ghost before = out.deep_view();
        if messages[i].is_pinned() {
            out.push(messages[i].duplicate());
            assert(out.deep_view() =~= before.push(msgs[i as int]));
        } else {
            if rank >= start {
                out.push(messages[i].duplicate());
                assert(out.deep_view() =~= before.push(msgs[i as int]));
            }
            rank = rank + 1;
        }
    }
    out
}

/// Remove messages by policy tier (`DiscardWhenDone`, then `CompressFirst`,
/// then `Normal`; oldest first within a tier) until at most `target` remain;
/// pinned messages are never removed.
pub fn policy_trim(messages: &[Message], target: usize) -> (r: Vec<Message>)
    ensures
        r.deep_view() == policy_trim_spec(messages.deep_view(), target as nat),
{
    let ghost msgs = messages.deep_view();
    let n = messages.len();
    if n <= target {
        return crate::message::copy_messages(messages);
    }
    let discard = count_with_policy(messages, CompactionPolicy::DiscardWhenDone);
    let compress = count_with_policy(messages, CompactionPolicy::CompressFirst);
    let normal = count_with_policy(messages, CompactionPolicy::Normal);
    let excess = n - target;
    let rd = if excess < discard { excess } else { discard };
    let rc = if excess - rd < compress { excess - rd } else { compress };
    let rn = if excess - rd - rc < normal { excess - rd - rc } else { normal };
    assert(rd == removed_discard(msgs, target as nat));
    assert(rc == removed_compress(msgs, target as nat));
    assert(rn == removed_normal(msgs, target as nat));
    let mut out: Vec<Message> = Vec::new();
    let mut rank_d: usize = 0;
    let mut rank_c: usize = 0;
    let mut rank_n: usize = 0;
    for i in 0..n
        invariant
            n == msgs.len(),
            n > target,
            msgs == messages.deep_view(),
            rd == removed_discard(msgs, target as nat),
            rc == removed_compress(msgs, target as nat),
            rn == removed_normal(msgs, target as nat),
            rank_d == count_policy(msgs.take(i as int), CompactionPolicy::DiscardWhenDone),
            rank_c == count_policy(msgs.take(i as int), CompactionPolicy::CompressFirst),
            rank_n == count_policy(msgs.take(i as int), CompactionPolicy::Normal),
            out.deep_view() == select(
                msgs,
                |j: int| trim_keeps(msgs, target as nat, j),
                i as int,
            ),
    {
        proof {
            lemma_count_take_step(msgs, i as int, CompactionPolicy::DiscardWhenDone);
            lemma_count_take_step(msgs, i as int, CompactionPolicy::CompressFirst);
            lemma_count_take_step(msgs, i as int, CompactionPolicy::Normal);
            lemma_count_le_len(msgs.take(i as int), CompactionPolicy::DiscardWhenDone);
            lemma_count_le_len(msgs.take(i as int), CompactionPolicy::CompressFirst);
            lemma_count_le_len(msgs.take(i as int), CompactionPolicy::Normal);
        }
        let ghost before = out.deep_view();
        let keep_it = match messages[i].meta.policy {
            CompactionPolicy::Pinned => true,
            CompactionPolicy::DiscardWhenDone => {
                let k = rank_d >= rd;
                rank_d = rank_d + 1;
                k
            },
            CompactionPolicy::CompressFirst => {
                let k = rank_c >= rc;
                rank_c = rank_c + 1;
                k
            },
            CompactionPolicy::Normal => {
                let k = rank_n >= rn;
                rank_n = rank_n + 1;
                k
            },
        };
        assert(keep_it == trim_keeps(msgs, target as nat, i as int));
        if keep_it {
            out.push(messages[i].duplicate());
            assert(out.deep_view() =~= before.push(msgs[i as int]));
        }
    }
    out
}

} // verus!
