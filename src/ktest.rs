//! Kernel self-test framework: test outcomes, a bounded append-only
//! registry of them, and the harness that runs a list of tests.

use vstd::prelude::*;

verus! {

/// Number of results a registry can hold; further results are dropped.
pub const REGISTRY_CAPACITY: usize = 64;

/// A self-test that the kernel can run during bring-up.
pub trait KernelTest {
    fn run(&self) -> KernelTestResult;

    fn name(&self) -> &'static str;
}

/// Outcome of a single test case.
///
/// * `name`: name of the test case
/// * `passed`: whether it passed
/// * `message`: failure message, if any
#[derive(Debug, Clone)]
pub struct KernelTestResult {
    pub name: &'static str,
    pub passed: bool,
    pub message: Option<&'static str>,
}

impl KernelTestResult {
    /// A passing outcome for the test called `name`.
    pub fn pass(name: &'static str) -> (r: Self)
        ensures
            r.name == name,
            r.passed,
            r.message == None::<&'static str>,
    {
        Self { name, passed: true, message: None }
    }

    /// A failing outcome for the test called `name`, carrying `message`.
    pub fn fail(name: &'static str, message: &'static str) -> (r: Self)
        ensures
            r.name == name,
            !r.passed,
            r.message == Some(message),
    {
        Self { name, passed: false, message: Some(message) }
    }
}

/// The recorded sequence after offering `result` to a registry holding `s`:
/// appended while there is room, silently dropped once the registry is full.
pub open spec fn register_step(s: Seq<KernelTestResult>, result: KernelTestResult) -> Seq<
    KernelTestResult,
> {
    if s.len() < REGISTRY_CAPACITY {
        s.push(result)
    } else {
        s
    }
}

/// The recorded sequence after offering each of `results`, in order, to a
/// registry holding `s`.
pub open spec fn register_all(s: Seq<KernelTestResult>, results: Seq<KernelTestResult>) -> Seq<
    KernelTestResult,
>
    decreases results.len(),
{
    if results.len() == 0 {
        s
    } else {
        register_step(register_all(s, results.drop_last()), results.last())
    }
}

/// Number of passing outcomes in `s`.
pub open spec fn passed_count(s: Seq<KernelTestResult>) -> nat
    decreases s.len(),
{
    if s.len() == 0 {
        0
    } else {
        passed_count(s.drop_last()) + if s.last().passed {
            1nat
        } else {
            0nat
        }
    }
}

/// Number of failing outcomes in `s`.
pub open spec fn failed_count(s: Seq<KernelTestResult>) -> nat
    decreases s.len(),
{
    if s.len() == 0 {
        0
    } else {
        failed_count(s.drop_last()) + if s.last().passed {
            0nat
        } else {
            1nat
        }
    }
}

/// Offering results to a registry that holds `s` keeps `s` and appends the
/// longest prefix of the offered results that still fits.
proof fn lemma_register_all_prefix(s: Seq<KernelTestResult>, results: Seq<KernelTestResult>)
    requires
        s.len() <= REGISTRY_CAPACITY,
    ensures
        register_all(s, results) == s + results.take(
            if results.len() <= REGISTRY_CAPACITY - s.len() {
                results.len() as int
            } else {
                REGISTRY_CAPACITY - s.len()
            },
        ),
    decreases results.len(),
{
    if results.len() == 0 {
        assert(s + results.take(0) == s);
    } else {
        let prev = results.drop_last();
        lemma_register_all_prefix(s, prev);
        let room = REGISTRY_CAPACITY - s.len();
        if results.len() <= room {
            assert(prev.take(prev.len() as int) == prev);
            assert(results.take(results.len() as int) == results);
            assert(s + prev.push(results.last()) == (s + prev).push(results.last()));
            assert(prev.push(results.last()) == results);
        } else {
            assert(prev.take(room) == results.take(room));
        }
    }
}

/// Registering `k` results one after another into a new registry records
/// them in call order and unaltered when `k` is within capacity; beyond
/// capacity exactly the first `REGISTRY_CAPACITY` of them are recorded and
/// the rest are never observable.
pub proof fn lemma_register_sequence(results: Seq<KernelTestResult>)
    ensures
        results.len() <= REGISTRY_CAPACITY ==> register_all(Seq::empty(), results) == results,
        results.len() > REGISTRY_CAPACITY ==> register_all(Seq::empty(), results) == results.take(
            REGISTRY_CAPACITY as int,
        ),
{
    let e = Seq::<KernelTestResult>::empty();
    lemma_register_all_prefix(e, results);
    if results.len() <= REGISTRY_CAPACITY {
        assert(results.take(results.len() as int) == results);
        assert(e + results == results);
    } else {
        assert(e + results.take(REGISTRY_CAPACITY as int) == results.take(REGISTRY_CAPACITY as int));
    }
}

/// Every recorded result counts as either passed or failed, never both:
/// the two counts always add up to the number of results.
pub proof fn lemma_passed_failed_total(s: Seq<KernelTestResult>)
    ensures
        passed_count(s) + failed_count(s) == s.len(),
    decreases s.len(),
{
    if s.len() > 0 {
        lemma_passed_failed_total(s.drop_last());
    }
}

/// A bounded, append-only store of test outcomes, in insertion order.
pub struct KernelTestRegistry {
    results: Vec<KernelTestResult>,
}

impl View for KernelTestRegistry {
    type V = Seq<KernelTestResult>;

    closed spec fn view(&self) -> Seq<KernelTestResult> {
        self.results@
    }
}

impl KernelTestRegistry {
    /// Well-formedness: never more results than the capacity.
    pub open spec fn wf(&self) -> bool {
        self@.len() <= REGISTRY_CAPACITY
    }

    /// An empty registry.
    pub fn new() -> (r: Self)
        ensures
            r.wf(),
            r@ == Seq::<KernelTestResult>::empty(),
    {
        Self { results: Vec::new() }
    }

    /// Records `result` if there is room; once the registry is full the
    /// result is dropped and nothing recorded changes.
    pub fn register_result(&mut self, result: KernelTestResult)
        requires
            old(self).wf(),
        ensures
            final(self).wf(),
            final(self)@ == register_step(old(self)@, result),
    {
        if self.results.len() < REGISTRY_CAPACITY {
            self.results.push(result);
        }
    }

    /// The recorded results, in the order they were registered.
    pub fn get_results(&self) -> (r: &[KernelTestResult])
        ensures
            r@ == self@,
    {
        self.results.as_slice()
    }

    /// Number of recorded results that passed.
    pub fn num_passed(&self) -> (r: usize)
        requires
            self.wf(),
        ensures
            r == passed_count(self@),
    {
        let results = self.get_results();
        let mut n: usize = 0;
        let mut i: usize = 0;
        while i < results.len()
            invariant
                results@ == self@,
                self@.len() <= REGISTRY_CAPACITY,
                i <= results@.len(),
                n == passed_count(results@.take(i as int)),
                n <= i,
            decreases results@.len() - i,
        {
            assert(results@.take(i + 1).drop_last() == results@.take(i as int));
            if results[i].passed {
                n = n + 1;
            }
            i = i + 1;
        }
        assert(results@.take(i as int) == results@);
        n
    }

    /// Number of recorded results that failed.
    pub fn num_failed(&self) -> (r: usize)
        requires
            self.wf(),
        ensures
            r == failed_count(self@),
    {
        let results = self.get_results();
        let mut n: usize = 0;
        let mut i: usize = 0;
        while i < results.len()
            invariant
                results@ == self@,
                self@.len() <= REGISTRY_CAPACITY,
                i <= results@.len(),
                n == failed_count(results@.take(i as int)),
                n <= i,
            decreases results@.len() - i,
        {
            assert(results@.take(i + 1).drop_last() == results@.take(i as int));
            if !results[i].passed {
                n = n + 1;
            }
            i = i + 1;
        }
        assert(results@.take(i as int) == results@);
        n
    }
}

/// Runs each test of `tests` in order and records its outcome in `registry`.
///
/// The outcomes are whatever the tests report; the registry ends up exactly
/// as if those outcomes had been registered one after another.
pub fn run_all_ktests(tests: &[&dyn KernelTest], registry: &mut KernelTestRegistry)
    requires
        old(registry).wf(),
    ensures
        final(registry).wf(),
        exists|outcomes: Seq<KernelTestResult>|
            outcomes.len() == tests@.len() && final(registry)@ == register_all(
                old(registry)@,
                outcomes,
            ),
{
    let ghost mut outcomes: Seq<KernelTestResult> = Seq::empty();
    let mut i: usize = 0;
    while i < tests.len()
        invariant
            registry.wf(),
            i <= tests@.len(),
            outcomes.len() == i,
            registry@ == register_all(old(registry)@, outcomes),
        decreases tests@.len() - i,
    {
        let result = tests[i].run();
        proof {
            let next = outcomes.push(result);
            assert(next.drop_last() == outcomes);
            outcomes = next;
        }
        registry.register_result(result);
        i = i + 1;
    }
}

} // verus!
