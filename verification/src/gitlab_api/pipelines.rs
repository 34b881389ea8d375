//! Pipeline helpers: which pipelines failed, which are finished, and which job
//! logs matter for a fix.

use vstd::prelude::*;

use crate::gitlab_api::{pipeline_views, Job, Pipeline, PipelineView};
use crate::text::str_eq;

verus! {

/// A job and the text of its log.
#[derive(Debug, Clone)]
pub struct JobLog {
    pub job: Job,
    pub log: String,
}

/// The failed pipelines, in order.
pub open spec fn failed_of(v: Seq<PipelineView>) -> Seq<PipelineView>
    decreases v.len(),
{
    if v.len() == 0 {
        Seq::empty()
    } else {
        let r = failed_of(v.drop_last());
        if v.last().status == "failed"@ {
            r.push(v.last())
        } else {
            r
        }
    }
}

/// Where a pipeline with id `id` goes in a list sorted by id, newest first.
pub open spec fn id_pos(s: Seq<PipelineView>, id: u64, i: int) -> int
    decreases s.len() - i,
{
    if i < 0 || i >= s.len() {
        s.len() as int
    } else if s[i].id < id {
        i
    } else {
        id_pos(s, id, i + 1)
    }
}

/// `v` sorted by id, highest first; equal ids keep their order.
pub open spec fn by_id_desc(v: Seq<PipelineView>) -> Seq<PipelineView>
    decreases v.len(),
{
    if v.len() == 0 {
        Seq::empty()
    } else {
        let r = by_id_desc(v.drop_last());
        r.insert(id_pos(r, v.last().id, 0), v.last())
    }
}

/// At most the first `n` items of `s`.
pub open spec fn first_n<A>(s: Seq<A>, n: int) -> Seq<A> {
    if n < s.len() {
        s.take(n)
    } else {
        s
    }
}

/// The newest `count` failed pipelines, newest first.
pub open spec fn filter_failed_spec(v: Seq<PipelineView>, count: int) -> Seq<PipelineView> {
    first_n(by_id_desc(failed_of(v)), count)
}

/// Newest first.
pub open spec fn id_sorted_desc(s: Seq<PipelineView>) -> bool {
    forall|i: int, j: int| 0 <= i <= j < s.len() ==> s[i].id >= s[j].id
}

proof fn lemma_id_pos_split(s: Seq<PipelineView>, id: u64, i: int)
    requires
        0 <= i <= s.len(),
    ensures
        i <= id_pos(s, id, i) <= s.len(),
        forall|j: int| i <= j < id_pos(s, id, i) ==> s[j].id >= id,
        id_pos(s, id, i) < s.len() ==> s[id_pos(s, id, i)].id < id,
    decreases s.len() - i,
{
    if i < s.len() && s[i].id >= id {
        lemma_id_pos_split(s, id, i + 1);
    }
}

proof fn lemma_by_id_desc(v: Seq<PipelineView>)
    ensures
        id_sorted_desc(by_id_desc(v)),
        by_id_desc(v).to_multiset() == v.to_multiset(),
        by_id_desc(v).len() == v.len(),
    decreases v.len(),
{
    if v.len() == 0 {
        assert(v =~= Seq::<PipelineView>::empty());
        assert(by_id_desc(v).to_multiset() =~= v.to_multiset());
    } else {
        let w = v.drop_last();
        let x = v.last();
        lemma_by_id_desc(w);
        let r = by_id_desc(w);
        let k = id_pos(r, x.id, 0);
        lemma_id_pos_split(r, x.id, 0);
        let res = r.insert(k, x);
        assert(by_id_desc(v) == res);
        assert forall|i: int, j: int| 0 <= i <= j < res.len() implies res[i].id >= res[j].id by {
            if j < k {
                assert(res[i] == r[i] && res[j] == r[j]);
            } else if j == k {
                if i < k {
                    assert(res[i] == r[i]);
                }
            } else {
                assert(res[j] == r[j - 1]);
                if i < k {
                    assert(res[i] == r[i]);
                } else if i == k {
                    assert(r[k].id >= r[j - 1].id);
                } else {
                    assert(res[i] == r[i - 1]);
                }
            }
        }
        vstd::seq_lib::to_multiset_insert(r, k, x);
        vstd::seq_lib::to_multiset_build(w, x);
        assert(w.push(x) =~= v);
    }
}

proof fn lemma_failed_of(v: Seq<PipelineView>)
    ensures
        forall|i: int| 0 <= i < failed_of(v).len() ==> (#[trigger] failed_of(v)[i]).status == "failed"@ && v.contains(
            failed_of(v)[i],
        ),
    decreases v.len(),
{
    if v.len() > 0 {
        let w = v.drop_last();
        lemma_failed_of(w);
        assert forall|i: int| 0 <= i < failed_of(v).len() implies (#[trigger] failed_of(v)[i]).status == "failed"@
            && v.contains(failed_of(v)[i]) by {
            if i < failed_of(w).len() {
                assert(failed_of(v)[i] == failed_of(w)[i]);
                let j = choose|j: int| 0 <= j < w.len() && w[j] == failed_of(w)[i];
                assert(v[j] == w[j]);
            } else {
                assert(v[v.len() - 1] == v.last());
            }
        }
    }
}

/// The pipelines `filter_failed` keeps are failed pipelines of its input,
/// newest first, and at most `count` of them.
pub proof fn law_filter_failed(v: Seq<PipelineView>, count: int)
    requires
        count >= 0,
    ensures
        filter_failed_spec(v, count).len() <= count,
        id_sorted_desc(filter_failed_spec(v, count)),
        forall|i: int| 0 <= i < filter_failed_spec(v, count).len() ==> (#[trigger] filter_failed_spec(v, count)[i]).status
            == "failed"@ && v.contains(filter_failed_spec(v, count)[i]),
{
    let f = failed_of(v);
    lemma_failed_of(v);
    lemma_by_id_desc(f);
    let b = by_id_desc(f);
    let r = filter_failed_spec(v, count);
    assert forall|i: int| 0 <= i < r.len() implies (#[trigger] r[i]).status == "failed"@ && v.contains(r[i]) by {
        assert(r[i] == b[i]);
        vstd::seq_lib::to_multiset_contains(b, b[i]);
        assert(b.contains(b[i]));
        vstd::seq_lib::to_multiset_contains(f, b[i]);
        let j = choose|j: int| 0 <= j < f.len() && f[j] == b[i];
        assert(f[j].status == "failed"@);
    }
}

/// A pipeline in `success`, `failed` or `canceled` state has finished.
pub open spec fn is_terminal_status(s: Seq<char>) -> bool {
    s == "success"@ || s == "failed"@ || s == "canceled"@
}

/// The jobs whose status is `failed`, with their logs, in order.
pub open spec fn failed_logs_of(v: Seq<JobLog>) -> Seq<JobLog>
    decreases v.len(),
{
    if v.len() == 0 {
        Seq::empty()
    } else {
        let r = failed_logs_of(v.drop_last());
        if v.last().job.status@ == "failed"@ {
            r.push(v.last())
        } else {
            r
        }
    }
}

/// The `count` newest failed pipelines, newest first.
pub fn filter_failed(pipelines: &[Pipeline], count: usize) -> (r: Vec<Pipeline>)
    ensures
        pipeline_views(r@) == filter_failed_spec(pipeline_views(pipelines@), count as int),
{
    let ghost pv = pipeline_views(pipelines@);
    let mut failed: Vec<Pipeline> = Vec::new();
    let mut i: usize = 0;
    while i < pipelines.len()
        invariant
            i <= pipelines.len(),
            pv == pipeline_views(pipelines@),
            pipeline_views(failed@) == by_id_desc(failed_of(pv.take(i as int))),
        decreases pipelines.len() - i,
    {
        let p = &pipelines[i];
        proof {
            let t = pv.take(i + 1);
            assert(t.drop_last() =~= pv.take(i as int));
            assert(t.last() == p@);
        }
        if str_eq(p.status.as_str(), "failed") {
            let ghost fv = pipeline_views(failed@);
            let mut j: usize = 0;
            while j < failed.len() && failed[j].id >= p.id
                invariant
                    j <= failed.len(),
                    fv == pipeline_views(failed@),
                    id_pos(fv, p.id, j as int) == id_pos(fv, p.id, 0),
                decreases failed.len() - j,
            {
                j = j + 1;
            }
            assert(id_pos(fv, p.id, j as int) == j);
            proof {
                let f = failed_of(pv.take(i as int)).push(p@);
                assert(f.drop_last() =~= failed_of(pv.take(i as int)));
                assert(failed_of(pv.take(i + 1)) == f);
            }
            failed.insert(j, p.copy());
            assert(pipeline_views(failed@) =~= fv.insert(j as int, p@));
        }
        i = i + 1;
    }
    assert(pv.take(pv.len() as int) =~= pv);
    let ghost sorted = pipeline_views(failed@);
    failed.truncate(count);
    proof {
        if (count as int) < sorted.len() {
            assert(pipeline_views(failed@) =~= sorted.take(count as int));
        } else {
            assert(pipeline_views(failed@) =~= sorted);
        }
    }
    failed
}

/// Whether the pipeline has finished (`success`, `failed` or `canceled`).
pub fn is_terminal(pipeline: &Pipeline) -> (r: bool)
    ensures
        r == is_terminal_status(pipeline.status@),
{
    let s = pipeline.status.as_str();
    str_eq(s, "success") || str_eq(s, "failed") || str_eq(s, "canceled")
}

/// Whether the pipeline succeeded.
pub fn is_success(pipeline: &Pipeline) -> (r: bool)
    ensures
        r == (pipeline.status@ == "success"@),
{
    str_eq(pipeline.status.as_str(), "success")
}

/// The logs of the failed jobs, in order.
pub fn failed_job_logs(all: Vec<JobLog>) -> (r: Vec<JobLog>)
    ensures
        r@ == failed_logs_of(all@),
{
    let ghost av = all@;
    let mut out: Vec<JobLog> = Vec::new();
    for jl in it: all
        invariant
            it.seq() == av,
            out@ == failed_logs_of(av.take(it.index() as int)),
    {
        proof {
            let k = it.index() as int;
            assert(av.take(k + 1).drop_last() =~= av.take(k));
            assert(av.take(k + 1).last() == jl);
        }
        if str_eq(jl.job.status.as_str(), "failed") {
            out.push(jl);
        }
    }
    assert(av.take(av.len() as int) =~= av);
    out
}

} // verus!
