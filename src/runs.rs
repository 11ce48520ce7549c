use vstd::prelude::*;
use crate::network::{advance_spec, FindingView, LookupView, RequestView, RetryPolicy};

verus! {

/// The lookup reached and the requests made when findings `fs` come in
/// order, starting from lookup `s`.
pub open spec fn run(p: RetryPolicy, s: LookupView, fs: Seq<FindingView>) -> (LookupView, Seq<RequestView>)
    decreases fs.len(),
{
    if fs.len() == 0 {
        (s, Seq::empty())
    } else {
        let (next, req) = advance_spec(p, s, fs[0]);
        let (last, reqs) = run(p, next, fs.drop_first());
        (last, seq![req] + reqs)
    }
}

/// Every finding in `fs` is a failure: nothing was found.
pub open spec fn all_failures(fs: Seq<FindingView>) -> bool {
    forall|i: int| 0 <= i < fs.len() ==> !(#[trigger] fs[i] is Found)
}

proof fn run_append(p: RetryPolicy, s: LookupView, fs: Seq<FindingView>, gs: Seq<FindingView>)
    ensures
        run(p, s, fs + gs) == (run(p, run(p, s, fs).0, gs).0, run(p, s, fs).1 + run(p, run(p, s, fs).0, gs).1),
    decreases fs.len(),
{
    if fs.len() == 0 {
        assert(fs + gs =~= gs);
        assert(run(p, s, fs).1 + run(p, s, gs).1 =~= run(p, s, gs).1);
    } else {
        let next = advance_spec(p, s, fs[0]).0;
        assert((fs + gs).drop_first() =~= fs.drop_first() + gs);
        run_append(p, next, fs.drop_first(), gs);
        let req = advance_spec(p, s, fs[0]).1;
        assert(seq![req] + (run(p, next, fs.drop_first()).1 + run(p, run(p, next, fs.drop_first()).0, gs).1)
            =~= (seq![req] + run(p, next, fs.drop_first()).1) + run(p, run(p, next, fs.drop_first()).0, gs).1);
    }
}

proof fn failures_stay_on_primary(p: RetryPolicy, t: nat, fs: Seq<FindingView>)
    requires
        all_failures(fs),
        t + fs.len() < p.attempts,
    ensures
        run(p, LookupView::Primary { tried: t }, fs).0 == (LookupView::Primary { tried: t + fs.len() }),
        run(p, LookupView::Primary { tried: t }, fs).1.len() == fs.len(),
        forall|j: int| 0 <= j < fs.len() ==> #[trigger] run(p, LookupView::Primary { tried: t }, fs).1[j] is Primary,
    decreases fs.len(),
{
    if fs.len() > 0 {
        assert(!(fs[0] is Found));
        let rest = fs.drop_first();
        assert(all_failures(rest)) by {
            assert forall|i: int| 0 <= i < rest.len() implies !(#[trigger] rest[i] is Found) by {
                assert(rest[i] == fs[i + 1]);
            }
        }
        failures_stay_on_primary(p, t + 1, rest);
        let reqs = run(p, LookupView::Primary { tried: t }, fs).1;
        assert forall|j: int| 0 <= j < fs.len() implies #[trigger] reqs[j] is Primary by {
            if j > 0 {
                assert(reqs[j] == run(p, LookupView::Primary { tried: t + 1 }, rest).1[j - 1]);
            }
        }
    }
}

/// An address found on the exit-confirmation endpoint at any attempt within
/// the budget is looked up for its country at once; the fallback endpoint is
/// never asked.
pub proof fn primary_success_skips_fallback(p: RetryPolicy, fs: Seq<FindingView>, ip: Seq<char>)
    requires
        all_failures(fs),
        fs.len() < p.attempts,
    ensures
        ({
            let (last, reqs) = run(p, LookupView::Primary { tried: 0 }, fs.push(FindingView::Found(ip)));
            &&& last == (LookupView::Country { ip })
            &&& reqs.len() == fs.len() + 1
            &&& reqs.last() == (RequestView::Country { ip })
            &&& forall|j: int| 0 <= j < reqs.len() ==> !(#[trigger] reqs[j] is Fallback)
        }),
{
    let start = LookupView::Primary { tried: 0 };
    let found = seq![FindingView::Found(ip)];
    assert(fs.push(FindingView::Found(ip)) =~= fs + found);
    failures_stay_on_primary(p, 0, fs);
    run_append(p, start, fs, found);
    let mid = run(p, start, fs).0;
    assert(found.drop_first() =~= Seq::<FindingView>::empty());
    assert(mid == (LookupView::Primary { tried: fs.len() }));
    let after = advance_spec(p, mid, found[0]);
    assert(after == (LookupView::Country { ip }, RequestView::Country { ip }));
    assert(run(p, after.0, Seq::<FindingView>::empty()) == (after.0, Seq::<RequestView>::empty()));
    assert(run(p, mid, found).1 =~= seq![after.1]);
    let reqs = run(p, start, fs + found).1;
    assert forall|j: int| 0 <= j < reqs.len() implies !(#[trigger] reqs[j] is Fallback) by {
        if j < fs.len() {
            assert(reqs[j] == run(p, start, fs).1[j]);
        } else {
            assert(reqs[j] == run(p, mid, found).1[0]);
        }
    }
}

/// When every attempt on the exit-confirmation endpoint fails, the fallback
/// endpoint is asked once, right after the last attempt.
pub proof fn exhausted_attempts_fall_back(p: RetryPolicy, fs: Seq<FindingView>)
    requires
        all_failures(fs),
        fs.len() == p.attempts,
        p.attempts > 0,
    ensures
        ({
            let (last, reqs) = run(p, LookupView::Primary { tried: 0 }, fs);
            &&& last == LookupView::Fallback
            &&& reqs.len() == fs.len()
            &&& reqs.last() == RequestView::Fallback
            &&& forall|j: int| 0 <= j < reqs.len() - 1 ==> #[trigger] reqs[j] is Primary
        }),
{
    let start = LookupView::Primary { tried: 0 };
    let n = fs.len() - 1;
    let head = fs.take(n as int);
    let tail = fs.skip(n as int);
    assert(fs =~= head + tail);
    assert(all_failures(head)) by {
        assert forall|i: int| 0 <= i < head.len() implies !(#[trigger] head[i] is Found) by {
            assert(head[i] == fs[i]);
        }
    }
    failures_stay_on_primary(p, 0, head);
    run_append(p, start, head, tail);
    assert(tail[0] == fs[n as int]);
    assert(tail.drop_first() =~= Seq::<FindingView>::empty());
    let mid = run(p, start, head).0;
    assert(mid == (LookupView::Primary { tried: n as nat }));
    let after = advance_spec(p, mid, tail[0]);
    assert(after == (LookupView::Fallback, RequestView::Fallback));
    assert(run(p, after.0, Seq::<FindingView>::empty()) == (after.0, Seq::<RequestView>::empty()));
    assert(run(p, mid, tail).1 =~= seq![after.1]);
    let reqs = run(p, start, fs).1;
    assert forall|j: int| 0 <= j < reqs.len() - 1 implies #[trigger] reqs[j] is Primary by {
        assert(reqs[j] == run(p, start, head).1[j]);
    }
}

} // verus!
