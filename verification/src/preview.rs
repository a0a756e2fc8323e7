//! One refresh of the rename preview: the pipeline is bound to the current
//! configuration and applied to every name of the selection set.

use crate::components::add::AddMutation;
use crate::components::auto_date::{AutoDateAt, AutoDateMutation, Moments};
use crate::components::case::{CaseMutation, CaseType};
use crate::components::file_browser::{
    index_of_path, BrowserView, DirectorySnapshot, EntryView, FileBrowser, ProposedRenames,
    SelectionSet,
};
use crate::components::numbering::{NumberingAt, NumberingMutation};
use crate::components::regex::{regex_compiles, RegexMutation};
use crate::components::remove::RemoveMutation;
use crate::components::replace::ReplaceMutation;
use crate::utilities::mutation_pipeline::{
    chain_relates, lemma_disabled_stage_is_skipped, lemma_single_stage, relates, Mutation,
    MutationPipeline,
};
use crate::utilities::path_map::{distinct_paths, pairs_map, PathMap};
use vstd::prelude::*;

verus! {

/// One stage of the preview pipeline: any of the mutations the preview knows,
/// bound to the configuration it is read from.
pub enum Stage<'a> {
    Regex(&'a RegexMutation),
    Case(CaseMutation),
    Replace(&'a ReplaceMutation),
    Remove(&'a RemoveMutation),
    Add(&'a AddMutation),
    AutoDate(AutoDateAt<'a>),
    Numbering(NumberingAt<'a>),
}

impl<'a> Mutation for Stage<'a> {
    open spec fn enabled(&self) -> bool {
        match self {
            Stage::Regex(mutation) => mutation.enabled(),
            Stage::Case(mutation) => mutation.enabled(),
            Stage::Replace(mutation) => mutation.enabled(),
            Stage::Remove(mutation) => mutation.enabled(),
            Stage::Add(mutation) => mutation.enabled(),
            Stage::AutoDate(mutation) => mutation.enabled(),
            Stage::Numbering(mutation) => mutation.enabled(),
        }
    }

    open spec fn transforms(&self, input: Seq<char>, output: Seq<char>) -> bool {
        match self {
            Stage::Regex(mutation) => mutation.transforms(input, output),
            Stage::Case(mutation) => mutation.transforms(input, output),
            Stage::Replace(mutation) => mutation.transforms(input, output),
            Stage::Remove(mutation) => mutation.transforms(input, output),
            Stage::Add(mutation) => mutation.transforms(input, output),
            Stage::AutoDate(mutation) => mutation.transforms(input, output),
            Stage::Numbering(mutation) => mutation.transforms(input, output),
        }
    }

    fn mutate(&self, input: &str) -> (output: String) {
        match self {
            Stage::Regex(mutation) => mutation.mutate(input),
            Stage::Case(mutation) => mutation.mutate(input),
            Stage::Replace(mutation) => mutation.mutate(input),
            Stage::Remove(mutation) => mutation.mutate(input),
            Stage::Add(mutation) => mutation.mutate(input),
            Stage::AutoDate(mutation) => mutation.mutate(input),
            Stage::Numbering(mutation) => mutation.mutate(input),
        }
    }
}

/// The configuration of every mutation, as it is read at the start of a
/// cycle.
pub struct MutationConfig {
    pub regex: RegexMutation,
    pub case: CaseMutation,
    pub replace: ReplaceMutation,
    pub remove: RemoveMutation,
    pub add: AddMutation,
    pub auto_date: AutoDateMutation,
    pub numbering: NumberingMutation,
}

impl Default for MutationConfig {
    /// The regex stage is switched on with an empty pattern, every other
    /// stage is switched off: the default configuration changes no name.
    fn default() -> (config: Self)
        ensures
            config.regex.enabled,
            config.regex.pattern@ == Seq::<char>::empty(),
            config.regex.substitution@ == Seq::<char>::empty(),
            !config.regex.including_extension,
            !config.case.enabled,
            config.case.case_type == CaseType::Identity,
            !config.replace.enabled,
            !config.remove.enabled,
            !config.add.enabled,
            !config.auto_date.enabled,
            !config.numbering.enabled,
    {
        MutationConfig {
            regex: RegexMutation::default(),
            case: CaseMutation::default(),
            replace: ReplaceMutation::default(),
            remove: RemoveMutation::default(),
            add: AddMutation::default(),
            auto_date: AutoDateMutation::default(),
            numbering: NumberingMutation::default(),
        }
    }
}

impl MutationConfig {
    /// The stages for the name at position `ordinal` of the selection, of an
    /// entry with the times `moments`, in the order in which they are
    /// applied.
    pub open spec fn stages_at<'a>(&'a self, ordinal: u64, moments: Moments) -> Seq<Stage<'a>> {
        seq![
            Stage::Regex(&self.regex),
            Stage::Case(self.case),
            Stage::Replace(&self.replace),
            Stage::Remove(&self.remove),
            Stage::Add(&self.add),
            Stage::AutoDate(AutoDateAt { auto_date: &self.auto_date, moments }),
            Stage::Numbering(NumberingAt { numbering: &self.numbering, ordinal }),
        ]
    }

    /// A fresh pipeline bound to this configuration, for the name at
    /// position `ordinal` of the selection.
    pub fn pipeline_at<'a>(&'a self, ordinal: u64, moments: Moments) -> (pipeline: MutationPipeline<
        Stage<'a>,
    >)
        ensures
            pipeline@ == self.stages_at(ordinal, moments),
    {
        let mut pipeline = MutationPipeline::new();
        pipeline.add_mutation(Stage::Regex(&self.regex));
        pipeline.add_mutation(Stage::Case(self.case));
        pipeline.add_mutation(Stage::Replace(&self.replace));
        pipeline.add_mutation(Stage::Remove(&self.remove));
        pipeline.add_mutation(Stage::Add(&self.add));
        pipeline.add_mutation(Stage::AutoDate(AutoDateAt { auto_date: &self.auto_date, moments }));
        pipeline.add_mutation(
            Stage::Numbering(NumberingAt { numbering: &self.numbering, ordinal }),
        );
        pipeline
    }
}

/// Where every stage but the regex stage is switched off, the pipeline of a
/// configuration does exactly what its regex stage does alone: the stages
/// that are switched off change nothing.
pub proof fn lemma_only_regex_enabled(
    config: MutationConfig,
    ordinal: u64,
    moments: Moments,
    input: Seq<char>,
    output: Seq<char>,
)
    requires
        !config.case.enabled,
        !config.replace.enabled,
        !config.remove.enabled,
        !config.add.enabled,
        !config.auto_date.enabled,
        !config.numbering.enabled,
    ensures
        chain_relates(config.stages_at(ordinal, moments), input, output) <==> relates(
            &config.regex,
            input,
            output,
        ),
{
    let all = config.stages_at(ordinal, moments);
    let six = all.remove(6);
    let five = six.remove(5);
    let four = five.remove(4);
    let three = four.remove(3);
    let two = three.remove(2);
    let one = two.remove(1);
    lemma_disabled_stage_is_skipped(all, 6, input, output);
    lemma_disabled_stage_is_skipped(six, 5, input, output);
    lemma_disabled_stage_is_skipped(five, 4, input, output);
    lemma_disabled_stage_is_skipped(four, 3, input, output);
    lemma_disabled_stage_is_skipped(three, 2, input, output);
    lemma_disabled_stage_is_skipped(two, 1, input, output);
    assert(one == seq![Stage::Regex(&config.regex)]);
    lemma_single_stage(Stage::Regex(&config.regex), input, output);
}

/// Where only the regex stage is switched on and its pattern compiles, the
/// pipeline of a configuration gives every name its substituted name, and
/// nothing else.
pub proof fn lemma_only_regex_substitutes(
    config: MutationConfig,
    ordinal: u64,
    moments: Moments,
    input: Seq<char>,
    output: Seq<char>,
)
    requires
        config.regex.active(),
        regex_compiles(config.regex.pattern@),
        !config.case.enabled,
        !config.replace.enabled,
        !config.remove.enabled,
        !config.add.enabled,
        !config.auto_date.enabled,
        !config.numbering.enabled,
    ensures
        chain_relates(config.stages_at(ordinal, moments), input, output) <==> output
            == config.regex.substituted(input),
{
    lemma_only_regex_enabled(config, ordinal, moments, input, output);
}

/// Where every stage is switched off, the pipeline of a configuration
/// leaves every name as it is.
pub proof fn lemma_disabled_configuration_is_identity(
    config: MutationConfig,
    ordinal: u64,
    moments: Moments,
    input: Seq<char>,
    output: Seq<char>,
)
    requires
        !config.regex.enabled,
        !config.case.enabled,
        !config.replace.enabled,
        !config.remove.enabled,
        !config.add.enabled,
        !config.auto_date.enabled,
        !config.numbering.enabled,
    ensures
        chain_relates(config.stages_at(ordinal, moments), input, output) <==> output == input,
{
    lemma_only_regex_enabled(config, ordinal, moments, input, output);
}

/// Whether `proposed` holds, for exactly the paths of `selection`, a name
/// that `stages` can make of the selected name.
pub open spec fn proposes<M: Mutation>(
    stages: Seq<M>,
    selection: Map<Seq<char>, Seq<char>>,
    proposed: Map<Seq<char>, Seq<char>>,
) -> bool {
    &&& proposed.dom() == selection.dom()
    &&& forall|path: Seq<char>| #[trigger]
        selection.contains_key(path) ==> chain_relates(stages, selection[path], proposed[path])
}

/// Applies `pipeline` to every name of `selection`.
pub fn propose_names<M: Mutation>(
    pipeline: &MutationPipeline<M>,
    selection: &SelectionSet,
) -> (proposed: ProposedRenames)
    ensures
        proposes(pipeline@, selection@, proposed@),
{
    let mut proposed = PathMap::new();
    let count = selection.len();
    let mut i: usize = 0;
    while i < count
        invariant
            i <= count,
            count == selection.entries().len(),
            proposes(pipeline@, pairs_map(selection.entries().take(i as int)), proposed@),
        decreases count - i,
    {
        let pair = selection.entry(i);
        let new_name = pipeline.apply_mutation(pair.1.as_str());
        proof {
            let done = selection.entries().take(i as int + 1);
            assert(done.drop_last() == selection.entries().take(i as int));
        }
        proposed.insert(pair.0.clone(), new_name);
        i = i + 1;
    }
    proof {
        assert(selection.entries().take(i as int) == selection.entries());
    }
    proposed
}

/// The times known of the entry with the absolute path `path`, at a refresh
/// at the time `now`: those of the first such entry of the snapshot, none
/// where the snapshot holds no such entry.
pub open spec fn moments_of(entries: Seq<EntryView>, path: Seq<char>, now: i64) -> Moments {
    match index_of_path(entries, path) {
        Some(index) => Moments {
            created: entries[index].created_at,
            modified: entries[index].modified_at,
            current: now,
        },
        None => Moments { created: None, modified: None, current: now },
    }
}

/// Whether `proposed` holds, for exactly the paths of `selection`, a name
/// that the stages of `config` can make of the selected name, each name
/// taken with its position in the selection and with the times of its entry.
pub open spec fn proposes_each(
    config: &MutationConfig,
    entries: Seq<EntryView>,
    now: i64,
    selection: Seq<(Seq<char>, Seq<char>)>,
    proposed: Map<Seq<char>, Seq<char>>,
) -> bool {
    &&& proposed.dom() == pairs_map(selection).dom()
    &&& forall|i: int|
        0 <= i < selection.len() ==> chain_relates(
            config.stages_at(i as u64, moments_of(entries, selection[i].0, now)),
            (#[trigger] selection[i]).1,
            proposed[selection[i].0],
        )
}

/// The times known of the entry with the absolute path `path`.
pub fn moments(snapshot: &DirectorySnapshot, path: &str, now: i64) -> (moments: Moments)
    ensures
        moments == moments_of(snapshot@.entries, path@, now),
{
    match snapshot.position(path) {
        Some(index) => {
            proof {
                crate::components::file_browser::lemma_index_of_path(snapshot@.entries, path@);
            }
            let entry = snapshot.entry(index);
            Moments { created: entry.created_at, modified: entry.modified_at, current: now }
        },
        None => Moments { created: None, modified: None, current: now },
    }
}

/// Applies the pipeline of `config` to every name of `selection`: the name
/// at each position with the number of that position and with the times
/// that `snapshot` holds for its path.
pub fn propose_each(
    config: &MutationConfig,
    snapshot: &DirectorySnapshot,
    now: i64,
    selection: &SelectionSet,
) -> (proposed: ProposedRenames)
    ensures
        proposes_each(config, snapshot@.entries, now, selection.entries(), proposed@),
{
    let mut proposed = PathMap::new();
    let count = selection.len();
    let ghost pairs = selection.entries();
    let mut i: usize = 0;
    while i < count
        invariant
            i <= count,
            count == pairs.len(),
            pairs == selection.entries(),
            distinct_paths(pairs),
            proposes_each(config, snapshot@.entries, now, pairs.take(i as int), proposed@),
        decreases count - i,
    {
        let pair = selection.entry(i);
        let pipeline = config.pipeline_at(i as u64, moments(snapshot, pair.0.as_str(), now));
        let new_name = pipeline.apply_mutation(pair.1.as_str());
        proposed.insert(pair.0.clone(), new_name);
        proof {
            let done = pairs.take(i as int + 1);
            assert(done.drop_last() == pairs.take(i as int));
        }
        i = i + 1;
    }
    proof {
        assert(pairs.take(i as int) == pairs);
    }
    proposed
}

/// One refresh of the preview, at the time `now`: takes the selection set
/// that waits in the browser, if there is one, applies the pipeline of
/// `config` to each of its names and leaves the proposed names for the
/// browser. Without a waiting selection set nothing is done.
pub fn update(config: &MutationConfig, browser: &mut FileBrowser, now: i64) -> (refreshed: bool)
    ensures
        match old(browser)@.selected_files {
            Some(selection) => {
                &&& refreshed
                &&& final(browser)@.new_names matches Some(proposed)
                &&& proposes_each(config, old(browser)@.snapshot.entries, now, selection, proposed)
                &&& final(browser)@ == (BrowserView {
                    selected_files: None,
                    new_names: Some(proposed),
                    ..old(browser)@
                })
            },
            None => !refreshed && final(browser)@ == old(browser)@,
        },
{
    match browser.take_selection() {
        Some(selection) => {
            let proposed = propose_each(config, browser.snapshot(), now, &selection);
            browser.publish_new_names(proposed);
            true
        },
        None => false,
    }
}

} // verus!
