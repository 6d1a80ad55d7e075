//! One poll cycle of the incremental crawl, as a pure planning function.
//!
//! The orchestrator owns two pieces of state: the session and the
//! watermark, the publish instant of the most recently processed post.
//! Given the fetched posts of one cycle (newest first, as the feed
//! returns them) and the current watermark, the plan names which posts
//! to commit — oldest first, each strictly newer than the running
//! watermark — and the watermark to carry into the next cycle. A failed
//! fetch plans nothing and leaves the watermark alone.

use vstd::prelude::*;

use crate::error::CrawlError;
use crate::models::{Weibo, WeiboView};
use crate::time::{spec_instant, Timestamp};

verus! {

/// The watermark a fresh run starts from: 2000-01-01 01:01:01 UTC, a
/// fixed point far in the past, in seconds since the epoch.
pub const INITIAL_WATERMARK: i64 = 946688461;

/// What one cycle commits: the posts to append and download, oldest
/// first, and the watermark afterwards.
pub struct CyclePlan {
    pub new_posts: Vec<Weibo>,
    pub new_watermark: i64,
}

/// The committed posts and final watermark for fetched posts `posts`
/// (newest first) and watermark `w`: walking the list from its back, a
/// post strictly newer than the running watermark is committed and
/// advances it.
pub open spec fn spec_plan(posts: Seq<WeiboView>, w: int) -> (Seq<WeiboView>, int)
    decreases posts.len(),
{
    if posts.len() == 0 {
        (Seq::empty(), w)
    } else if spec_instant(posts.last().created_at) > w {
        let rest = spec_plan(posts.drop_last(), spec_instant(posts.last().created_at));
        (seq![posts.last()] + rest.0, rest.1)
    } else {
        spec_plan(posts.drop_last(), w)
    }
}

/// Plans one cycle from a successful fetch.
#[verifier::loop_isolation(false)]
pub fn plan_cycle(posts: Vec<Weibo>, watermark: i64) -> (p: CyclePlan)
    requires
        forall|i: int| 0 <= i < posts@.len() ==> posts@[i].created_at.wf(),
    ensures
        (p.new_posts.deep_view(), p.new_watermark as int) == spec_plan(
            posts.deep_view(),
            watermark as int,
        ),
        p.new_watermark >= watermark,
        forall|i: int|
            0 <= i < p.new_posts@.len() ==> spec_instant(#[trigger] p.new_posts@[i].created_at)
                > watermark,
        forall|i: int, j: int|
            0 <= i < j < p.new_posts@.len() ==> spec_instant(p.new_posts@[i].created_at)
                < spec_instant(p.new_posts@[j].created_at),
        forall|i: int| 0 <= i < p.new_posts@.len() ==> #[trigger] p.new_posts@[i].created_at.wf(),
{
    let ghost posts0 = posts.deep_view();
    let ghost w0 = watermark as int;
    let mut rem = posts;
    let mut kept: Vec<Weibo> = Vec::new();
    let mut w: i64 = watermark;
    proof {
        let r0 = spec_plan(posts0, w0);
        assert(kept.deep_view() + r0.0 =~= r0.0);
    }
    loop
        invariant
            rem.deep_view().len() <= posts0.len(),
            forall|i: int| 0 <= i < rem@.len() ==> #[trigger] rem@[i].created_at.wf(),
            forall|i: int| 0 <= i < kept@.len() ==> #[trigger] kept@[i].created_at.wf(),
            w >= watermark,
            forall|i: int|
                0 <= i < kept@.len() ==> watermark < spec_instant(
                    #[trigger] kept@[i].created_at,
                ) <= w,
            forall|i: int, j: int|
                0 <= i < j < kept@.len() ==> spec_instant(kept@[i].created_at) < spec_instant(
                    kept@[j].created_at,
                ),
            spec_plan(posts0, w0) == {
                let r = spec_plan(rem.deep_view(), w as int);
                (kept.deep_view() + r.0, r.1)
            },
        decreases rem@.len(),
    {
        let ghost pre_rem = rem.deep_view();
        let wb = match rem.pop() {
            Some(wb) => wb,
            None => {
                break ;
            },
        };
        let ghost wbv = wb.deep_view();
        proof {
            assert(rem.deep_view() =~= pre_rem.drop_last());
            assert(wbv == pre_rem.last());
        }
        let inst = wb.created_at.instant();
        if inst > w {
            w = inst;
            let ghost old_kept = kept.deep_view();
            kept.push(wb);
            proof {
                assert(kept.deep_view() =~= old_kept.push(wbv));
                let r = spec_plan(rem.deep_view(), w as int);
                assert(old_kept + (seq![wbv] + r.0) =~= old_kept.push(wbv) + r.0);
            }
        }
    }
    proof {
        assert(rem.deep_view().len() == 0);
        assert(kept.deep_view() + Seq::<WeiboView>::empty() =~= kept.deep_view());
    }
    CyclePlan { new_posts: kept, new_watermark: w }
}

/// Plans one cycle from a fetch outcome. A failed fetch commits nothing
/// and leaves the watermark untouched; the cycle simply yields zero new
/// posts.
pub fn cycle_plan(fetch: Result<Vec<Weibo>, CrawlError>, watermark: i64) -> (p: CyclePlan)
    requires
        fetch matches Ok(ps) ==> forall|i: int| 0 <= i < ps@.len() ==> ps@[i].created_at.wf(),
    ensures
        fetch matches Err(_) ==> p.new_posts@.len() == 0 && p.new_watermark == watermark,
        fetch matches Ok(ps) ==> {
            &&& (p.new_posts.deep_view(), p.new_watermark as int) == spec_plan(
                ps.deep_view(),
                watermark as int,
            )
            &&& p.new_watermark >= watermark
            &&& forall|i: int|
                0 <= i < p.new_posts@.len() ==> spec_instant(
                    #[trigger] p.new_posts@[i].created_at,
                ) > watermark
            &&& forall|i: int, j: int|
                0 <= i < j < p.new_posts@.len() ==> spec_instant(p.new_posts@[i].created_at)
                    < spec_instant(p.new_posts@[j].created_at)
            &&& forall|i: int|
                0 <= i < p.new_posts@.len() ==> #[trigger] p.new_posts@[i].created_at.wf()
        },
{
    match fetch {
        Ok(ps) => plan_cycle(ps, watermark),
        Err(_) => CyclePlan { new_posts: Vec::new(), new_watermark: watermark },
    }
}

/// The watermark never moves backwards: one cycle's final watermark is
/// at least its starting one.
pub proof fn lemma_watermark_monotone(posts: Seq<WeiboView>, w: int)
    ensures
        spec_plan(posts, w).1 >= w,
    decreases posts.len(),
{
    if posts.len() != 0 {
        if spec_instant(posts.last().created_at) > w {
            lemma_watermark_monotone(posts.drop_last(), spec_instant(posts.last().created_at));
        } else {
            lemma_watermark_monotone(posts.drop_last(), w);
        }
    }
}

/// Deduplication: every post a cycle commits is strictly newer than the
/// watermark the cycle started from, and the committed posts are
/// strictly ordered by publish instant — so once the watermark has
/// reached an instant, no post at or before it is ever committed again.
pub proof fn lemma_plan_dedup(posts: Seq<WeiboView>, w: int)
    ensures
        forall|i: int|
            0 <= i < spec_plan(posts, w).0.len() ==> spec_instant(
                #[trigger] spec_plan(posts, w).0[i].created_at,
            ) > w,
        forall|i: int, j: int|
            0 <= i < j < spec_plan(posts, w).0.len() ==> spec_instant(
                spec_plan(posts, w).0[i].created_at,
            ) < spec_instant(spec_plan(posts, w).0[j].created_at),
    decreases posts.len(),
{
    if posts.len() != 0 {
        let last = posts.last();
        if spec_instant(last.created_at) > w {
            let inst = spec_instant(last.created_at);
            lemma_plan_dedup(posts.drop_last(), inst);
            let r = spec_plan(posts, w).0;
            let rest = spec_plan(posts.drop_last(), inst).0;
            assert(r == seq![last] + rest);
            assert forall|i: int| 0 <= i < r.len() implies spec_instant(
                #[trigger] r[i].created_at,
            ) > w by {
                if i == 0 {
                    assert(r[0] == last);
                } else {
                    assert(r[i] == rest[i - 1]);
                }
            }
            assert forall|i: int, j: int| 0 <= i < j < r.len() implies spec_instant(
                r[i].created_at,
            ) < spec_instant(r[j].created_at) by {
                if i == 0 {
                    assert(r[j] == rest[j - 1]);
                    assert(spec_instant(rest[j - 1].created_at) > inst);
                } else {
                    assert(r[i] == rest[i - 1]);
                    assert(r[j] == rest[j - 1]);
                }
            }
        } else {
            lemma_plan_dedup(posts.drop_last(), w);
            let r = spec_plan(posts, w).0;
            let rest = spec_plan(posts.drop_last(), w).0;
            assert(r == rest);
            assert forall|i: int| 0 <= i < r.len() implies spec_instant(
                #[trigger] r[i].created_at,
            ) > w by {
                assert(r[i] == rest[i]);
            }
            assert forall|i: int, j: int| 0 <= i < j < r.len() implies spec_instant(
                r[i].created_at,
            ) < spec_instant(r[j].created_at) by {
                assert(r[i] == rest[i]);
                assert(r[j] == rest[j]);
            }
        }
    }
}

/// Across two consecutive cycles: the watermark is non-decreasing, and
/// once it has advanced to an instant, nothing the second cycle commits
/// lies at or below it.
pub proof fn lemma_cycles_no_reprocess(posts1: Seq<WeiboView>, posts2: Seq<WeiboView>, w: int)
    ensures
        spec_plan(posts1, w).1 >= w,
        spec_plan(posts2, spec_plan(posts1, w).1).1 >= spec_plan(posts1, w).1,
        forall|i: int|
            0 <= i < spec_plan(posts2, spec_plan(posts1, w).1).0.len() ==> spec_instant(
                #[trigger] spec_plan(posts2, spec_plan(posts1, w).1).0[i].created_at,
            ) > spec_plan(posts1, w).1,
{
    lemma_watermark_monotone(posts1, w);
    let w1 = spec_plan(posts1, w).1;
    lemma_watermark_monotone(posts2, w1);
    lemma_plan_dedup(posts2, w1);
}

/// The starting watermark is the instant of 2000-01-01 01:01:01 UTC.
pub proof fn lemma_initial_watermark()
    ensures
        INITIAL_WATERMARK == spec_instant(
            Timestamp {
                year: 2000,
                month: 1,
                day: 1,
                hour: 1,
                minute: 1,
                second: 1,
                offset_minutes: 0,
            },
        ),
{
}

/// Idempotence: when nothing fetched is newer than the watermark — as
/// when a cycle re-runs against an unchanged feed — the cycle commits
/// nothing and the watermark stays put.
pub proof fn lemma_idempotent_cycle(posts: Seq<WeiboView>, w: int)
    requires
        forall|i: int| 0 <= i < posts.len() ==> spec_instant(#[trigger] posts[i].created_at) <= w,
    ensures
        spec_plan(posts, w) == (Seq::<WeiboView>::empty(), w),
    decreases posts.len(),
{
    if posts.len() != 0 {
        assert(spec_instant(posts.last().created_at) <= w);
        lemma_idempotent_cycle(posts.drop_last(), w);
    }
}

} // verus!
