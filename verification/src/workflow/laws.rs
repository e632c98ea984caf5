//! Laws of workflow runs.
use crate::coding::Coded;
use crate::form::Recorded;
use crate::json::{formed, is_pretty, parse_depth, plain, pretty, Form, JsonView};
use crate::text::{join_with, lemma_split_join, split_at_char};
use crate::types::vfs::{VfsErrorView, VirtualFs};
use crate::vfs::memory_fs::MemoryFs;
use crate::workflow::error::WorkflowErrorView;
use crate::workflow::run::{adds, answered, any_failed, call_of, called, collects, ended, in_order, key_of, next_number, placed, session_started, unnumbered, CallStepView, SessionView};
use crate::workflow::store::{agent_result_path, bytes_give, decoded, file_gives, is_single_segment, loads, reads_json, results_dir, run_path, sanitized, saved_script_path, script_path_complaint, stores_bytes, stores_json, write_result};
use crate::workflow::types::{MetaView, ResultView, RunView, WorkflowEventView, WorkflowAgentResult, WorkflowRun, WorkflowStatus};
use vstd::prelude::*;

verus! {

broadcast use vstd::seq_lib::group_seq_properties;

// ---- Where things are kept ---------------------------------------------------

/// The path of a saved script is one that scripts are read from.
pub proof fn saved_scripts_can_be_read(name: Seq<char>)
    requires
        is_single_segment(name),
    ensures
        script_path_complaint(saved_script_path(name)) is None,
{
    reveal_strlit("/workflows/");
    reveal_strlit("workflows");
    reveal_strlit(".mjs");
    reveal_strlit("..");
    let path = saved_script_path(name);
    let e = Seq::<char>::empty();
    let parts = seq![e, "workflows"@, name + ".mjs"@];
    assert forall|i: int| 0 <= i < path.len() implies path[i] != '\0' by {
        if 11 <= i < 11 + name.len() {
            assert(path[i] == name[i - 11]);
            assert(name.contains(name[i - 11]));
        }
    }
    assert(!path.contains('\0'));
    assert(path.subrange(path.len() - 4, path.len() as int) =~= ".mjs"@);
    assert(".mjs"@.is_suffix_of(path));
    assert("/workflows/"@.is_prefix_of(path)) by {
        assert(path.subrange(0, 11) =~= "/workflows/"@);
    }
    assert forall|i: int| 0 <= i < parts.len() implies !(#[trigger] parts[i]).contains('/') by {
        if i == 2 {
            assert forall|k: int| 0 <= k < parts[2].len() implies parts[2][k] != '/' by {
                if k < name.len() {
                    assert(name.contains(name[k]));
                }
            }
        }
    }
    lemma_split_join(parts, '/');
    assert(parts.drop_last() =~= seq![e, "workflows"@]);
    assert(parts.drop_last().drop_last() =~= seq![e]);
    assert(seq![e].drop_last() =~= Seq::<Seq<char>>::empty());
    reveal_with_fuel(join_with, 4);
    assert(join_with(parts, '/') =~= path);
    assert(split_at_char(path, '/') == parts);
    assert(!parts.contains(".."@)) by {
        assert(parts[0] != ".."@);
        assert(parts[1] != ".."@) by {
            assert(parts[1].len() == 9);
        }
        assert(parts[2] != ".."@) by {
            assert(parts[2].len() >= 5);
        }
    }
}

/// Whatever a call is labelled, its result is a file right in the directory of the
/// results of its run.
pub proof fn results_stay_in_their_directory(run_id: Seq<char>, key: Seq<char>)
    ensures
        agent_result_path(run_id, key) == results_dir(run_id) + "/"@ + (sanitized(key) + ".json"@),
        !(sanitized(key) + ".json"@).contains('/'),
        !(sanitized(key) + ".json"@).contains('\\'),
        !(sanitized(key) + ".json"@).contains('\0'),
{
    reveal_strlit(".json");
    reveal_strlit("/");
    assert(agent_result_path(run_id, key) =~= results_dir(run_id) + "/"@ + (sanitized(key) + ".json"@));
}

// ---- What is kept is read back -----------------------------------------------

/// A filesystem that wrote `path` gives the same bytes back.
pub open spec fn keeps_what_it_writes<V: VirtualFs>(before: V, path: Seq<char>, after: V) -> bool {
    forall|data: Seq<u8>, read: Result<Seq<u8>, VfsErrorView>|
        #![trigger before.writes(path, data, after, Ok(())), after.reads(path, read)]
        before.writes(path, data, after, Ok(())) && after.reads(path, read) ==> read == Ok::<
            Seq<u8>,
            VfsErrorView,
        >(data)
}

/// A value that was kept as JSON is read back as the same value, where the filesystem keeps
/// what it writes and the JSON is plain.
pub proof fn kept_values_are_read_back<V: VirtualFs, T: Recorded>(
    before: V,
    path: Seq<char>,
    value: T::V,
    after: V,
    out: Result<T::V, WorkflowErrorView>,
)
    requires
        T::stable(value),
        plain(T::enc(value), parse_depth()),
        keeps_what_it_writes(before, path, after),
        stores_json(before, path, T::form(value), after, Ok(())),
        loads::<V, T>(after, path, out),
    ensures
        out == Ok::<T::V, WorkflowErrorView>(value),
{
    let form = T::form(value);
    let data = pretty(form)->Ok_0;
    assert(stores_bytes(before, path, data, after, Ok(())));
    let written = choose|written: Result<(), VfsErrorView>| #[trigger]
        before.writes(path, data, after, written) && Ok::<(), WorkflowErrorView>(())
            == write_result(written);
    assert(write_result(written) is Ok);
    match written {
        Ok(nothing) => assert(nothing == ()),
        Err(_) => {},
    }
    let read = choose|read: Result<Seq<u8>, VfsErrorView>| #[trigger]
        after.reads(path, read) && file_gives::<T>(read, out);
    assert(read == Ok::<Seq<u8>, VfsErrorView>(data));
    assert(bytes_give::<T>(data, out));
    let parse = choose|parse: Result<JsonView, Seq<char>>| #[trigger]
        reads_json(data, parse) && out == decoded::<T>(parse);
    let f = choose|f: Form| (#[trigger] f@) == form;
    T::form_says(value);
    assert(is_pretty(f@, data));
    assert(parse == Ok::<JsonView, Seq<char>>(T::enc(value)));
    T::round_trip(value);
}

/// The state of a run in a filesystem in memory is read back as it was kept.
pub proof fn kept_runs_are_read_back(
    before: MemoryFs,
    run: RunView,
    after: MemoryFs,
    out: Result<RunView, WorkflowErrorView>,
)
    requires
        WorkflowRun::stable(run),
        plain(WorkflowRun::enc(run), parse_depth()),
        stores_json(before, run_path(run.run_id), WorkflowRun::form(run), after, Ok(())),
        loads::<MemoryFs, WorkflowRun>(after, run_path(run.run_id), out),
    ensures
        out == Ok::<RunView, WorkflowErrorView>(run),
{
    let path = run_path(run.run_id);
    assert(keeps_what_it_writes(before, path, after));
    kept_values_are_read_back::<MemoryFs, WorkflowRun>(before, path, run, after, out);
}

/// A result in a filesystem in memory is read back as it was kept.
pub proof fn kept_results_are_read_back(
    before: MemoryFs,
    run_id: Seq<char>,
    result: ResultView,
    after: MemoryFs,
    out: Result<ResultView, WorkflowErrorView>,
)
    requires
        WorkflowAgentResult::stable(result),
        plain(WorkflowAgentResult::enc(result), parse_depth()),
        stores_json(
            before,
            agent_result_path(run_id, result.key),
            WorkflowAgentResult::form(result),
            after,
            Ok(()),
        ),
        loads::<MemoryFs, WorkflowAgentResult>(after, agent_result_path(run_id, result.key), out),
    ensures
        out == Ok::<ResultView, WorkflowErrorView>(result),
{
    let path = agent_result_path(run_id, result.key);
    assert(keeps_what_it_writes(before, path, after));
    kept_values_are_read_back::<MemoryFs, WorkflowAgentResult>(before, path, result, after, out);
}

// ---- Calls -------------------------------------------------------------------

/// Once a run is cancelled, a call starts nothing and records nothing.
pub proof fn cancelled_runs_start_nothing(s: SessionView, parse: Result<JsonView, Seq<char>>)
    requires
        s.cancelled,
    ensures
        called(s, parse) == (s, Err::<CallStepView, WorkflowErrorView>(WorkflowErrorView::Cancelled)),
{
}

/// A call uses up one number, also where its argument is not JSON, and its worker is told
/// that number.
pub proof fn every_call_has_its_number(s: SessionView, parse: Result<JsonView, Seq<char>>)
    requires
        !s.cancelled,
    ensures
        called(s, parse).0.next_index == next_number(s.next_index),
        called(s, parse).1 matches Ok(CallStepView::Work(call)) ==> call.index == s.next_index,
{
}

/// A call whose key has a result of an earlier run is answered with it and not handed to a
/// worker; every other call is.
pub proof fn only_new_calls_are_worked_on(s: SessionView, json: JsonView)
    requires
        !s.cancelled,
    ensures
        ({
            let key = key_of(json, s.next_index);
            let (t, step) = called(s, Ok(json));
            if s.cached.contains_key(key) {
                &&& step == Ok::<CallStepView, WorkflowErrorView>(
                    CallStepView::Reuse(formed(WorkflowAgentResult::form(s.cached[key]))),
                )
                &&& t.results == s.results.push((s.next_index, s.cached[key]))
            } else {
                &&& step == Ok::<CallStepView, WorkflowErrorView>(CallStepView::Work(call_of(json, s.next_index)))
                &&& t.results == s.results
            }
        }),
{
}

/// A result is reused only if the earlier run lists a call that succeeded and whose result
/// was read; it is found under its own key.
pub proof fn only_successes_are_reused<V: VirtualFs>(
    vfs: V,
    run_id: Seq<char>,
    results: Seq<ResultView>,
    cache: Map<Seq<char>, ResultView>,
    key: Seq<char>,
)
    requires
        collects(vfs, run_id, results, cache),
        cache.contains_key(key),
    ensures
        cache[key].key == key,
        exists|i: int|
            0 <= i < results.len() && !(#[trigger] results[i]).is_error && loads::<V, WorkflowAgentResult>(
                vfs,
                agent_result_path(run_id, results[i].key),
                Ok(cache[key]),
            ),
    decreases results.len(),
{
    if results.len() > 0 {
        let init = results.drop_last();
        let last = results.last();
        let before = choose|before: Map<Seq<char>, ResultView>| #[trigger]
            adds(vfs, run_id, last, before, cache) && collects(vfs, run_id, init, before);
        let n = results.len() - 1;
        if before.contains_key(key) && cache[key] == before[key] {
            only_successes_are_reused(vfs, run_id, init, before, key);
            let i = choose|i: int|
                0 <= i < init.len() && !(#[trigger] init[i]).is_error && loads::<V, WorkflowAgentResult>(
                    vfs,
                    agent_result_path(run_id, init[i].key),
                    Ok(before[key]),
                );
            assert(results[i] == init[i]);
        } else {
            assert(!last.is_error);
            assert(results[n] == last);
        }
    }
}

// ---- The end -----------------------------------------------------------------

/// The numbers do not go down.
pub open spec fn ascending(results: Seq<(usize, ResultView)>) -> bool {
    forall|i: int, j: int| 0 <= i < j < results.len() ==> (#[trigger] results[i]).0 <= (#[trigger] results[j]).0
}

/// No number occurs twice.
pub open spec fn distinct_numbers(results: Seq<(usize, ResultView)>) -> bool {
    forall|i: int, j: int| 0 <= i < j < results.len() ==> (#[trigger] results[i]).0 != (#[trigger] results[j]).0
}

/// The results of a session stand for calls that were made, each for another one, and a call
/// that a worker still has is none of them.
pub open spec fn numbers_in_use(s: SessionView) -> bool {
    &&& distinct_numbers(s.results)
    &&& forall|i: int| 0 <= i < s.results.len() ==> (#[trigger] s.results[i]).0 < s.next_index
    &&& forall|i: int| 0 <= i < s.results.len() ==> !s.open.contains_key((#[trigger] s.results[i]).0)
    &&& forall|n: usize| #[trigger] s.open.contains_key(n) ==> n < s.next_index
}

/// Each result of a run stands for another call, as long as the calls can be counted: this
/// holds of a run that starts, and where it holds it holds after the next call, and after the
/// answer to a call that a worker was handed.
pub proof fn each_call_is_answered_once(
    run_id: Seq<char>,
    script_path: Seq<char>,
    meta: MetaView,
    s: SessionView,
    parse: Result<JsonView, Seq<char>>,
    index: usize,
    result: ResultView,
)
    requires
        numbers_in_use(s),
        s.next_index < usize::MAX,
    ensures
        numbers_in_use(session_started(run_id, script_path, meta)),
        numbers_in_use(called(s, parse).0),
        s.open.contains_key(index) ==> numbers_in_use(answered(s, index, result)),
{
}

/// The event of an answer names the call that was handed out: by the key that its worker was
/// told.
pub proof fn answers_name_their_calls(s: SessionView, parse: Result<JsonView, Seq<char>>, result: ResultView)
    requires
        called(s, parse).1 matches Ok(CallStepView::Work(_)),
    ensures
        called(s, parse).1 matches Ok(CallStepView::Work(call)) ==> {
            let t = called(s, parse).0;
            &&& t.open.contains_key(call.index)
            &&& answered(t, call.index, result).events.last() == (WorkflowEventView::AgentCallCompleted {
                run_id: s.run_id,
                key: call.key,
                cached: false,
                is_error: result.is_error,
            })
        },
{
}

/// No number is above `n`.
spec fn at_most(results: Seq<(usize, ResultView)>, n: usize) -> bool {
    forall|i: int| 0 <= i < results.len() ==> (#[trigger] results[i]).0 <= n
}

/// Placing a result keeps the order and adds the result.
proof fn lemma_placed_ascending(results: Seq<(usize, ResultView)>, r: (usize, ResultView))
    requires
        ascending(results),
    ensures
        ascending(placed(results, r)),
        placed(results, r).to_multiset() == results.to_multiset().insert(r),
        placed(results, r).len() == results.len() + 1,
        forall|n: usize| n >= r.0 && at_most(results, n) ==> #[trigger] at_most(placed(results, r), n),
    decreases results.len(),
{
    broadcast use vstd::seq_lib::group_to_multiset_ensures;

    if results.len() == 0 || results.last().0 <= r.0 {
    } else {
        let init = results.drop_last();
        let last = results.last();
        assert(init.push(last) =~= results);
        lemma_placed_ascending(init, r);
        let p = placed(init, r);
        assert(at_most(init, last.0)) by {
            assert forall|i: int| 0 <= i < init.len() implies (#[trigger] init[i]).0 <= last.0 by {
                assert(init[i] == results[i]);
            }
        }
        assert(at_most(p, last.0));
        assert(ascending(p.push(last)));
        assert(p.push(last).to_multiset() == init.to_multiset().insert(r).insert(last));
        assert(results.to_multiset() == init.to_multiset().insert(last));
        assert(init.to_multiset().insert(r).insert(last) =~= init.to_multiset().insert(last).insert(r));
        assert forall|n: usize| n >= r.0 && at_most(results, n) implies #[trigger] at_most(p.push(last), n) by {
            assert(results[results.len() - 1].0 <= n);
            assert forall|i: int| 0 <= i < init.len() implies (#[trigger] init[i]).0 <= n by {
                assert(init[i] == results[i]);
            }
            assert(at_most(init, n));
            assert(at_most(p, n));
        }
    }
}

/// The results of a run are those that came in, in the order of the calls.
pub proof fn results_are_in_call_order(results: Seq<(usize, ResultView)>)
    ensures
        ascending(in_order(results)),
        in_order(results).to_multiset() == results.to_multiset(),
        in_order(results).len() == results.len(),
    decreases results.len(),
{
    broadcast use vstd::seq_lib::group_to_multiset_ensures;

    if results.len() > 0 {
        let init = results.drop_last();
        assert(init.push(results.last()) =~= results);
        results_are_in_call_order(init);
        lemma_placed_ascending(in_order(init), results.last());
    } else {
        assert(in_order(results) =~= results);
    }
}

/// What one list holds the other holds.
proof fn lemma_held(a: Seq<(usize, ResultView)>, b: Seq<(usize, ResultView)>, i: int)
    requires
        a.to_multiset() == b.to_multiset(),
        0 <= i < a.len(),
    ensures
        b.contains(a[i]),
{
    broadcast use vstd::seq_lib::group_to_multiset_ensures;

    assert(a.contains(a[i]));
    assert(a.to_multiset().count(a[i]) > 0);
    assert(b.to_multiset().count(a[i]) > 0);
}

/// Two ascending lists of the same results, no two with the same number, are the same.
proof fn lemma_ascending_unique(a: Seq<(usize, ResultView)>, b: Seq<(usize, ResultView)>)
    requires
        ascending(a),
        ascending(b),
        distinct_numbers(a),
        a.to_multiset() == b.to_multiset(),
        a.len() == b.len(),
    ensures
        a == b,
    decreases a.len(),
{
    broadcast use vstd::seq_lib::group_to_multiset_ensures;

    if a.len() > 0 {
        let n = a.len() - 1;
        lemma_held(a, b, n);
        lemma_held(b, a, n);
        let i = choose|i: int| 0 <= i < b.len() && b[i] == a[n];
        let j = choose|j: int| 0 <= j < a.len() && a[j] == b[n];
        assert(b[i].0 <= b[n].0);
        assert(a[j].0 <= a[n].0);
        assert(a[j].0 == a[n].0);
        assert(j == n);
        assert(a.last() == b.last());
        let x = a.drop_last();
        let y = b.drop_last();
        assert(x.push(a.last()) =~= a);
        assert(y.push(b.last()) =~= b);
        assert(a.to_multiset() == x.to_multiset().insert(a.last()));
        assert(b.to_multiset() == y.to_multiset().insert(b.last()));
        assert(x.to_multiset() =~= a.to_multiset().remove(a.last()));
        assert(y.to_multiset() =~= b.to_multiset().remove(b.last()));
        assert forall|p: int, q: int| 0 <= p < q < x.len() implies (#[trigger] x[p]).0 <= (#[trigger] x[q]).0
            && x[p].0 != x[q].0 by {
            assert(a[p] == x[p] && a[q] == x[q]);
        }
        assert forall|p: int, q: int| 0 <= p < q < y.len() implies (#[trigger] y[p]).0 <= (#[trigger] y[q]).0 by {
            assert(b[p] == y[p] && b[q] == y[q]);
        }
        lemma_ascending_unique(x, y);
    } else {
        assert(a =~= b);
    }
}

/// Where no number occurs twice, none does in any other order.
proof fn lemma_distinct_kept(a: Seq<(usize, ResultView)>, x: Seq<(usize, ResultView)>)
    requires
        a.to_multiset() == x.to_multiset(),
        distinct_numbers(a),
    ensures
        distinct_numbers(x),
{
    assert(a.no_duplicates());
    a.lemma_multiset_has_no_duplicates();
    x.lemma_multiset_has_no_duplicates_conv();
    assert forall|p: int, q: int| 0 <= p < q < x.len() implies (#[trigger] x[p]).0 != (#[trigger] x[q]).0 by {
        lemma_held(x, a, p);
        lemma_held(x, a, q);
        let i = choose|i: int| 0 <= i < a.len() && a[i] == x[p];
        let j = choose|j: int| 0 <= j < a.len() && a[j] == x[q];
        assert(x[p] != x[q]);
        assert(i != j);
        if i < j {
            assert(a[i].0 != a[j].0);
        } else {
            assert(a[j].0 != a[i].0);
        }
    }
}

/// In what order the workers answer makes no difference to the results of a run.
pub proof fn order_of_arrival_does_not_matter(a: Seq<(usize, ResultView)>, b: Seq<(usize, ResultView)>)
    requires
        a.to_multiset() == b.to_multiset(),
        distinct_numbers(a),
    ensures
        in_order(a) == in_order(b),
{
    broadcast use vstd::seq_lib::group_to_multiset_ensures;

    results_are_in_call_order(a);
    results_are_in_call_order(b);
    let x = in_order(a);
    assert(a.len() == a.to_multiset().len());
    assert(b.len() == b.to_multiset().len());
    lemma_distinct_kept(a, x);
    lemma_ascending_unique(x, in_order(b));
}

/// A cancelled run ends as cancelled, with the results that had come in and no others.
pub proof fn cancelled_runs_end_cancelled(s: SessionView, failure: Option<WorkflowErrorView>)
    requires
        s.cancelled,
    ensures
        ended(s, failure).status == WorkflowStatus::Cancelled,
        ended(s, failure).error is None,
        ended(s, failure).results == unnumbered(in_order(s.results)),
{
}

/// A run completes if and only if it was not cancelled, its script did not fail and no
/// call failed.
pub proof fn completion_means_success(s: SessionView, failure: Option<WorkflowErrorView>)
    ensures
        ended(s, failure).status == WorkflowStatus::Completed <==> !s.cancelled && failure is None && !any_failed(
            s.results,
        ),
        ended(s, failure).error is Some <==> ended(s, failure).status == WorkflowStatus::Failed,
{
}

} // verus!
