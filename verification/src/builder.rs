//! The pool configuration and its builder: the job function, the limit on
//! concurrent workers, and at most one post-processing hook.
use vstd::prelude::*;

verus! {

/// The hook slot of a pool that runs no hook.
pub struct NoHook;

/// The hook slot of a pool whose hook looks at each output without changing
/// it.
pub struct ReadOnly<H>(pub H);

/// The hook slot of a pool whose hook may rewrite each output in place before
/// it is stored.
pub struct Mutable<H>(pub H);

/// The mathematical view of a builder. The hook slot `K` is one
/// of [`NoHook`], [`ReadOnly`] and [`Mutable`], so a configuration never has
/// two hooks.
pub struct Config<F, K> {
    pub job: F,
    pub limit: nat,
    pub hook: K,
}

impl<F, K> Config<F, K> {
    /// The same configuration with a read-only hook in the hook slot.
    pub open spec fn with_read_only<H>(self, hook: H) -> Config<F, ReadOnly<H>> {
        Config { job: self.job, limit: self.limit, hook: ReadOnly(hook) }
    }

    /// The same configuration with a mutable hook in the hook slot.
    pub open spec fn with_mutable<H>(self, hook: H) -> Config<F, Mutable<H>> {
        Config { job: self.job, limit: self.limit, hook: Mutable(hook) }
    }
}

/// Assembles the configuration of a pool.
pub struct SimpBuilder<F, K> {
    func: F,
    max_threads: usize,
    hook: K,
}

impl<F, K> View for SimpBuilder<F, K> {
    type V = Config<F, K>;

    closed spec fn view(&self) -> Config<F, K> {
        Config { job: self.func, limit: self.max_threads as nat, hook: self.hook }
    }
}

impl<F> SimpBuilder<F, NoHook> {
    /// Registers `func` as the job of a pool that runs at most `max_threads`
    /// jobs at a time, with no hook.
    pub fn register(max_threads: usize, func: F) -> (builder: Self)
        requires
            max_threads > 0,
        ensures
            builder@ == (Config { job: func, limit: max_threads as nat, hook: NoHook }),
    {
        SimpBuilder { func, max_threads, hook: NoHook }
    }

    /// Whether the job may be called on `input`.
    pub open spec fn accepts<A, B>(&self, input: A) -> bool where F: Fn(A) -> B {
        call_requires(self@.job, (input,))
    }

    /// Runs the job on `input` and returns its output, which is what the pool
    /// stores.
    pub fn run_job<A, B>(&self, input: A) -> (stored: B) where F: Fn(A) -> B
        requires
            self.accepts::<A, B>(input),
        ensures
            call_ensures(self@.job, (input,), stored),
    {
        (self.func)(input)
    }
}

impl<F, H> SimpBuilder<F, ReadOnly<H>> {
    /// Whether the job may be called on `input` and the hook on whatever the
    /// job returns for it.
    pub open spec fn accepts<A, B>(&self, input: A) -> bool where F: Fn(A) -> B, H: Fn(&B) {
        &&& call_requires(self@.job, (input,))
        &&& forall|raw: B| #[trigger]
            call_ensures(self@.job, (input,), raw) ==> call_requires(self@.hook.0, (&raw,))
    }

    /// Runs the job on `input`, shows the output to the hook, and returns the
    /// output as the job made it.
    pub fn run_job<A, B>(&self, input: A) -> (stored: B) where F: Fn(A) -> B, H: Fn(&B)
        requires
            self.accepts::<A, B>(input),
        ensures
            call_ensures(self@.job, (input,), stored),
            call_ensures(self@.hook.0, (&stored,), ()),
    {
        let output = (self.func)(input);
        (self.hook.0)(&output);
        output
    }
}

impl<F, H> SimpBuilder<F, Mutable<H>> {
    /// Whether the job may be called on `input` and the hook on whatever the
    /// job returns for it.
    pub open spec fn accepts<A, B>(&self, input: A) -> bool where F: Fn(A) -> B, H: Fn(&mut B) {
        &&& call_requires(self@.job, (input,))
        &&& forall|slot: &mut B|
            call_ensures(self@.job, (input,), *slot) ==> #[trigger] call_requires(
                self@.hook.0,
                (slot,),
            )
    }

    /// Runs the job on `input`, lets the hook rewrite the output in place, and
    /// returns the output as the hook left it.
    pub fn run_job<A, B>(&self, input: A) -> (stored: B) where F: Fn(A) -> B, H: Fn(&mut B)
        requires
            self.accepts::<A, B>(input),
        ensures
            exists|slot: &mut B| #[trigger]
                call_ensures(self@.hook.0, (slot,), ()) && call_ensures(
                    self@.job,
                    (input,),
                    *slot,
                ) && *final(slot) == stored,
    {
        let mut output = (self.func)(input);
        assert(self@.hook == self.hook);
        (self.hook.0)(&mut output);
        output
    }
}

impl<F, K> SimpBuilder<F, K> {
    #[verifier::type_invariant]
    spec fn limit_is_positive(self) -> bool {
        self.max_threads > 0
    }

    /// Sets a read-only hook, in place of whatever hook was set before.
    pub fn and_then<H>(self, and_then: H) -> (builder: SimpBuilder<F, ReadOnly<H>>)
        ensures
            builder@ == self@.with_read_only(and_then),
    {
        proof {
            use_type_invariant(&self);
        }
        SimpBuilder { func: self.func, max_threads: self.max_threads, hook: ReadOnly(and_then) }
    }

    /// Sets a mutable hook, in place of whatever hook was set before.
    pub fn and_then_mut<H>(self, and_then_mut: H) -> (builder: SimpBuilder<F, Mutable<H>>)
        ensures
            builder@ == self@.with_mutable(and_then_mut),
    {
        proof {
            use_type_invariant(&self);
        }
        SimpBuilder { func: self.func, max_threads: self.max_threads, hook: Mutable(and_then_mut) }
    }

    /// The limit on concurrently running jobs.
    pub fn max_threads(&self) -> (limit: usize)
        ensures
            limit == self@.limit,
            limit > 0,
    {
        proof {
            use_type_invariant(self);
        }
        self.max_threads
    }
}

/// Of two hooks set one after the other only the later one is in the
/// configuration, whatever their kinds; the job and the limit stay as they
/// were.
pub proof fn law_last_hook_wins<F, K, H1, H2>(config: Config<F, K>, first: H1, second: H2)
    ensures
        config.with_read_only(first).with_mutable(second) == config.with_mutable(second),
        config.with_mutable(first).with_read_only(second) == config.with_read_only(second),
        config.with_read_only(first).with_read_only(second) == config.with_read_only(second),
        config.with_mutable(first).with_mutable(second) == config.with_mutable(second),
        config.with_mutable(second).hook == Mutable(second),
        config.with_read_only(second).hook == ReadOnly(second),
        config.with_mutable(second).job == config.job,
        config.with_read_only(second).job == config.job,
        config.with_mutable(second).limit == config.limit,
        config.with_read_only(second).limit == config.limit,
{
}

} // verus!
