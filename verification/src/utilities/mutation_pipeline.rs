//! The mutation contract and the ordered pipeline that folds mutations over a
//! name.

use vstd::prelude::*;

verus! {

/// A text transform applied to one file name, with a flag that switches it
/// on and off.
///
/// `transforms(input, output)` says what the transform does when it is
/// switched on: it holds of every `output` that `mutate` may then return for
/// `input`. A mutation that says nothing of itself is always on and may
/// return anything. A mutation is total: `mutate` returns for every input.
pub trait Mutation {
    /// Whether the mutation is switched on.
    open spec fn enabled(&self) -> bool {
        true
    }

    /// Whether `output` is an admissible result of mutating `input` when the
    /// mutation is switched on.
    open spec fn transforms(&self, input: Seq<char>, output: Seq<char>) -> bool {
        true
    }

    /// Transforms `input`; returns it as it is when the mutation is switched
    /// off.
    fn mutate(&self, input: &str) -> (output: String)
        ensures
            self.enabled() ==> self.transforms(input@, output@),
            !self.enabled() ==> output@ == input@,
    ;
}

/// Whether `output` is an admissible result of mutating `input`: what the
/// mutation says of itself when it is switched on, and `input` itself when
/// it is switched off.
pub open spec fn relates<M: Mutation + ?Sized>(
    mutation: &M,
    input: Seq<char>,
    output: Seq<char>,
) -> bool {
    if mutation.enabled() {
        mutation.transforms(input, output)
    } else {
        output == input
    }
}

/// A mutation given by a function from names to names.
pub struct FunctionMutation<F: Fn(&str) -> String> {
    function: F,
}

impl<F: Fn(&str) -> String> FunctionMutation<F> {
    /// The function is callable on every name.
    #[verifier::type_invariant]
    spec fn callable(self) -> bool {
        forall|input: &str| call_requires(self.function, (input,))
    }

    /// The wrapped function.
    pub closed spec fn function(&self) -> F {
        self.function
    }

    /// Wraps `function`, which must accept every name.
    pub fn new(function: F) -> (mutation: Self)
        requires
            forall|input: &str| call_requires(function, (input,)),
        ensures
            mutation.function() == function,
    {
        FunctionMutation { function }
    }
}

impl<F: Fn(&str) -> String> Mutation for FunctionMutation<F> {
    open spec fn transforms(&self, input: Seq<char>, output: Seq<char>) -> bool {
        exists|i: &str, o: String|
            i@ == input && o@ == output && #[trigger] call_ensures(self.function(), (i,), o)
    }

    fn mutate(&self, input: &str) -> (output: String) {
        proof {
            use_type_invariant(self);
        }
        let output = (self.function)(input);
        assert(call_ensures(self.function(), (input,), output));
        output
    }
}

/// A boxed mutation is the mutation in the box. With it a pipeline can hold
/// mutations of different types as `Box<dyn Mutation>`.
impl<M: Mutation + ?Sized> Mutation for Box<M> {
    open spec fn enabled(&self) -> bool {
        (**self).enabled()
    }

    open spec fn transforms(&self, input: Seq<char>, output: Seq<char>) -> bool {
        (**self).transforms(input, output)
    }

    fn mutate(&self, input: &str) -> (output: String) {
        (**self).mutate(input)
    }
}

/// Whether folding `stages` left to right can take `input` to `output`:
/// the empty sequence leaves the name unchanged, and a longer one applies its
/// last stage to a result of the stages before it.
pub open spec fn chain_relates<M: Mutation>(
    stages: Seq<M>,
    input: Seq<char>,
    output: Seq<char>,
) -> bool
    decreases stages.len(),
{
    if stages.len() == 0 {
        output == input
    } else {
        exists|mid: Seq<char>|
            chain_relates(stages.drop_last(), input, mid) && #[trigger] relates(
                &stages.last(),
                mid,
                output,
            )
    }
}

/// A pipeline with no stage leaves every name as it is.
pub proof fn lemma_empty_pipeline_is_identity<M: Mutation>(
    stages: Seq<M>,
    input: Seq<char>,
    output: Seq<char>,
)
    requires
        stages.len() == 0,
    ensures
        chain_relates(stages, input, output) <==> output == input,
{
}

/// A pipeline of one stage does what that stage does.
pub proof fn lemma_single_stage<M: Mutation>(stage: M, input: Seq<char>, output: Seq<char>)
    ensures
        chain_relates(seq![stage], input, output) <==> relates(&stage, input, output),
{
    let stages = seq![stage];
    assert(stages.drop_last() == Seq::<M>::empty());
    assert(stages.last() == stage);
    if chain_relates(stages, input, output) {
        let mid = choose|mid: Seq<char>|
            chain_relates(stages.drop_last(), input, mid) && #[trigger] relates(
                &stages.last(),
                mid,
                output,
            );
        assert(mid == input);
    }
    if relates(&stage, input, output) {
        assert(chain_relates(stages.drop_last(), input, input));
    }
}

/// A single stage that is switched off, applied alone, leaves every name as
/// it is.
pub proof fn lemma_single_disabled_stage_is_identity<M: Mutation>(
    stage: M,
    input: Seq<char>,
    output: Seq<char>,
)
    requires
        !stage.enabled(),
    ensures
        chain_relates(seq![stage], input, output) <==> output == input,
{
    lemma_single_stage(stage, input, output);
}

/// A stage that is switched off is a no-op step of the fold: the pipeline
/// does exactly what it does without that stage.
pub proof fn lemma_disabled_stage_is_skipped<M: Mutation>(
    stages: Seq<M>,
    at: int,
    input: Seq<char>,
    output: Seq<char>,
)
    requires
        0 <= at < stages.len(),
        !stages[at].enabled(),
    ensures
        chain_relates(stages, input, output) <==> chain_relates(stages.remove(at), input, output),
    decreases stages.len(),
{
    let front = stages.drop_last();
    let without = stages.remove(at);
    if at == stages.len() - 1 {
        assert(without == front);
        if chain_relates(stages, input, output) {
            let mid = choose|mid: Seq<char>|
                chain_relates(front, input, mid) && #[trigger] relates(&stages.last(), mid, output);
            assert(mid == output);
        }
        if chain_relates(without, input, output) {
            assert(relates(&stages.last(), output, output));
        }
    } else {
        assert(without.drop_last() == front.remove(at));
        assert(without.last() == stages.last());
        assert(front[at] == stages[at]);
        if chain_relates(stages, input, output) {
            let mid = choose|mid: Seq<char>|
                chain_relates(front, input, mid) && #[trigger] relates(&stages.last(), mid, output);
            lemma_disabled_stage_is_skipped(front, at, input, mid);
            assert(chain_relates(without.drop_last(), input, mid) && relates(
                &without.last(),
                mid,
                output,
            ));
        }
        if chain_relates(without, input, output) {
            let mid = choose|mid: Seq<char>|
                chain_relates(without.drop_last(), input, mid) && #[trigger] relates(
                    &without.last(),
                    mid,
                    output,
                );
            lemma_disabled_stage_is_skipped(front, at, input, mid);
            assert(chain_relates(front, input, mid) && relates(&stages.last(), mid, output));
        }
    }
}

/// An ordered sequence of mutations, applied first to last.
pub struct MutationPipeline<M: Mutation> {
    mutations: Vec<M>,
}

impl<M: Mutation> View for MutationPipeline<M> {
    type V = Seq<M>;

    closed spec fn view(&self) -> Seq<M> {
        self.mutations@
    }
}

impl<M: Mutation> MutationPipeline<M> {
    /// The pipeline with no stage.
    pub fn new() -> (pipeline: Self)
        ensures
            pipeline@ == Seq::<M>::empty(),
    {
        MutationPipeline { mutations: Vec::new() }
    }

    /// Appends `mutation` as the last stage.
    pub fn add_mutation(&mut self, mutation: M)
        ensures
            final(self)@ == old(self)@.push(mutation),
    {
        self.mutations.push(mutation);
    }

    /// Folds every stage over `input`, first to last. With no stage the
    /// result is `input`.
    pub fn apply_mutation(&self, input: &str) -> (output: String)
        ensures
            chain_relates(self@, input@, output@),
            self@.len() == 0 ==> output@ == input@,
    {
        let mut acc: String = input.to_owned();
        let mut i: usize = 0;
        while i < self.mutations.len()
            invariant
                i <= self.mutations@.len(),
                chain_relates(self.mutations@.take(i as int), input@, acc@),
            decreases self.mutations@.len() - i,
        {
            let next = self.mutations[i].mutate(acc.as_str());
            proof {
                let done = self.mutations@.take(i as int + 1);
                assert(done.drop_last() == self.mutations@.take(i as int));
                assert(relates(&done.last(), acc@, next@));
            }
            acc = next;
            i = i + 1;
        }
        proof {
            assert(self.mutations@.take(i as int) == self.mutations@);
        }
        acc
    }
}

} // verus!
