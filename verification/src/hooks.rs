//! A registry of callbacks that run at named points of the startup.

use crate::app::AppState;
use crate::strings::texts;
use crate::substitute::{joined, lemma_joined_push};
use vstd::prelude::*;

verus! {

/// A moment of the startup at which registered callbacks run.
#[derive(Clone, Copy, Debug, PartialEq, Eq, Structural)]
pub enum HookPoint {
    /// The configuration is final.
    RunInit,
}

/// What the failing callbacks of one run reported, in the order in which
/// they ran.
#[derive(Debug)]
pub struct HookFailures {
    pub messages: Vec<String>,
}

impl HookFailures {
    /// Every message on one line, in order, with `"; "` between them.
    pub fn message(&self) -> (m: String)
        ensures
            m@ == joined(texts(self.messages@), "; "@),
    {
        let mut m = String::new();
        let mut i: usize = 0;
        assert(texts(self.messages@).take(0) =~= Seq::empty());
        while i < self.messages.len()
            invariant
                i <= self.messages.len(),
                m@ == joined(texts(self.messages@).take(i as int), "; "@),
            decreases self.messages.len() - i,
        {
            let ghost done = texts(self.messages@).take(i as int);
            if i > 0 {
                m.append("; ");
            }
            m.append(self.messages[i].as_str());
            proof {
                lemma_joined_push(done, self.messages@[i as int]@, "; "@);
                assert(texts(self.messages@).take(i + 1) =~= done.push(self.messages@[i as int]@));
                assert(m@ =~= joined(done.push(self.messages@[i as int]@), "; "@));
            }
            i += 1;
        }
        assert(texts(self.messages@).take(self.messages.len() as int) =~= texts(self.messages@));
        m
    }
}

/// The messages of the failures among `results`, in order.
pub open spec fn failure_messages(results: Seq<Result<(), String>>) -> Seq<Seq<char>> {
    results.filter(|r: Result<(), String>| r is Err).map_values(
        |r: Result<(), String>| r->Err_0@,
    )
}

/// Whether `results` can be what `callbacks` return, one by one, on `state`.
pub open spec fn is_run_of<F: Fn(&AppState) -> Result<(), String>>(
    callbacks: Seq<F>,
    state: &AppState,
    results: Seq<Result<(), String>>,
) -> bool {
    &&& results.len() == callbacks.len()
    &&& forall|i: int|
        0 <= i < callbacks.len() ==> call_ensures(callbacks[i], (state,), #[trigger] results[i])
}

/// Whether `outcome` reports `results`: success where none failed, else
/// every failure's message in order.
pub open spec fn reports(outcome: Result<(), HookFailures>, results: Seq<Result<(), String>>) -> bool {
    match outcome {
        Ok(_) => failure_messages(results).len() == 0,
        Err(e) => failure_messages(results).len() > 0 && texts(e.messages@) == failure_messages(
            results,
        ),
    }
}

/// One more result adds its message if it is a failure, and nothing if not.
pub proof fn lemma_failure_messages_push(results: Seq<Result<(), String>>, r: Result<(), String>)
    ensures
        failure_messages(results.push(r)) == match r {
            Ok(_) => failure_messages(results),
            Err(m) => failure_messages(results).push(m@),
        },
{
    reveal(Seq::filter);
    let pred = |r: Result<(), String>| r is Err;
    assert(results.push(r).drop_last() =~= results);
    assert(results.push(r).filter(pred) =~= if r is Err {
        results.filter(pred).push(r)
    } else {
        results.filter(pred)
    });
    assert(failure_messages(results.push(r)) =~= match r {
        Ok(_) => failure_messages(results),
        Err(m) => failure_messages(results).push(m@),
    });
}

/// Without results there is no message.
pub proof fn lemma_failure_messages_empty()
    ensures
        failure_messages(Seq::empty()) == Seq::<Seq<char>>::empty(),
{
    reveal(Seq::filter);
    assert(failure_messages(Seq::empty()) =~= Seq::<Seq<char>>::empty());
}

/// Where exactly `k` of the results are failures, exactly `k` messages are
/// kept, and the `j`-th message is that of the `j`-th failure: none where
/// every result is a success, and only there.
pub proof fn lemma_failures_kept(results: Seq<Result<(), String>>)
    ensures
        failure_messages(results).len() == results.filter(|r: Result<(), String>| r is Err).len(),
        failure_messages(results).len() <= results.len(),
        forall|j: int|
            0 <= j < failure_messages(results).len() ==> #[trigger] failure_messages(results)[j]
                == results.filter(|r: Result<(), String>| r is Err)[j]->Err_0@,
        (forall|i: int| 0 <= i < results.len() ==> results[i] is Ok) <==> failure_messages(
            results,
        ).len() == 0,
{
    let pred = |r: Result<(), String>| r is Err;
    results.lemma_filter_len(pred);
    if forall|i: int| 0 <= i < results.len() ==> results[i] is Ok {
        if results.filter(pred).len() > 0 {
            let x = results.filter(pred)[0];
            results.lemma_filter_pred(pred, 0);
            assert(results.filter(pred).contains(x));
            results.lemma_filter_contains_rev(pred, x);
        }
    } else {
        let i = choose|i: int| 0 <= i < results.len() && !(results[i] is Ok);
        assert(pred(results[i]));
        results.lemma_filter_contains(pred, i);
    }
}

/// Gathers the failures of one run.
pub fn aggregate(results: Vec<Result<(), String>>) -> (outcome: Result<(), HookFailures>)
    ensures
        reports(outcome, results@),
{
    let mut messages: Vec<String> = Vec::new();
    let mut i: usize = 0;
    proof {
        lemma_failure_messages_empty();
        assert(results@.take(0) =~= Seq::empty());
    }
    while i < results.len()
        invariant
            i <= results.len(),
            texts(messages@) == failure_messages(results@.take(i as int)),
        decreases results.len() - i,
    {
        proof {
            lemma_failure_messages_push(results@.take(i as int), results@[i as int]);
            assert(results@.take(i + 1) =~= results@.take(i as int).push(results@[i as int]));
        }
        match &results[i] {
            Ok(_) => {},
            Err(m) => {
                let ghost before = messages@;
                messages.push(m.clone());
                assert(texts(messages@) =~= texts(before).push(m@));
            },
        }
        i += 1;
    }
    assert(results@.take(results.len() as int) =~= results@);
    if messages.len() == 0 {
        Ok(())
    } else {
        Err(HookFailures { messages })
    }
}

/// Callbacks by lifecycle point, each list in the order of registration.
pub struct AppHooks<F> {
    pub run_init: Vec<F>,
}

impl<F: Fn(&AppState) -> Result<(), String>> AppHooks<F> {
    /// The callbacks registered for `point`, in the order of registration.
    pub open spec fn callbacks(&self, point: HookPoint) -> Seq<F> {
        match point {
            HookPoint::RunInit => self.run_init@,
        }
    }

    /// Every registered callback can run on every state.
    pub open spec fn wf(&self) -> bool {
        forall|point: HookPoint, i: int, state: &AppState|
            0 <= i < self.callbacks(point).len() ==> #[trigger] call_requires(
                self.callbacks(point)[i],
                (state,),
            )
    }

    /// A registry without callbacks.
    pub fn new() -> (hooks: Self)
        ensures
            hooks.wf(),
            forall|point: HookPoint| hooks.callbacks(point).len() == 0,
    {
        AppHooks { run_init: Vec::new() }
    }

    /// Appends `callback` to the callbacks of `point`. A callback registered
    /// twice runs twice.
    pub fn register_hook(&mut self, point: HookPoint, callback: F)
        requires
            old(self).wf(),
            forall|state: &AppState| call_requires(callback, (state,)),
        ensures
            final(self).wf(),
            final(self).callbacks(point) == old(self).callbacks(point).push(callback),
            forall|other: HookPoint|
                other != point ==> final(self).callbacks(other) == old(self).callbacks(other),
    {
        match point {
            HookPoint::RunInit => {
                self.run_init.push(callback);
            },
        }
        assert forall|p: HookPoint, i: int, state: &AppState|
            0 <= i < self.callbacks(p).len() implies #[trigger] call_requires(
            self.callbacks(p)[i],
            (state,),
        ) by {
            if i < old(self).callbacks(p).len() {
                assert(self.callbacks(p)[i] == old(self).callbacks(p)[i]);
                assert(call_requires(old(self).callbacks(p)[i], (state,)));
            }
        }
    }

    /// The number of callbacks registered for `point`.
    pub fn count(&self, point: HookPoint) -> (n: usize)
        ensures
            n == self.callbacks(point).len(),
    {
        match point {
            HookPoint::RunInit => self.run_init.len(),
        }
    }

    /// Runs every callback of `point` on `state`, in the order of
    /// registration and whatever the earlier ones returned, and reports the
    /// failures together.
    pub fn run_hooks(&self, point: HookPoint, state: &AppState) -> (outcome: Result<
        (),
        HookFailures,
    >)
        requires
            self.wf(),
        ensures
            exists|results: Seq<Result<(), String>>|
                is_run_of(self.callbacks(point), state, results) && reports(outcome, results),
            self.callbacks(point).len() == 0 ==> outcome is Ok,
    {
        let list = match point {
            HookPoint::RunInit => &self.run_init,
        };
        let mut results: Vec<Result<(), String>> = Vec::new();
        let mut i: usize = 0;
        while i < list.len()
            invariant
                self.wf(),
                list@ == self.callbacks(point),
                i <= list.len(),
                results.len() == i,
                forall|k: int|
                    0 <= k < i ==> call_ensures(list@[k], (state,), #[trigger] results@[k]),
            decreases list.len() - i,
        {
            assert(call_requires(self.callbacks(point)[i as int], (state,)));
            let r = (list[i])(state);
            results.push(r);
            i += 1;
        }
        let outcome = aggregate(results);
        proof {
            assert(is_run_of(self.callbacks(point), state, results@));
            if self.callbacks(point).len() == 0 {
                assert(results@ =~= Seq::empty());
                lemma_failure_messages_empty();
            }
        }
        outcome
    }
}

} // verus!
