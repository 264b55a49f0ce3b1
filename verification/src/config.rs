//! The release channels, and the filters that say which pipelines and builds belong to them.

use crate::gitlab::PipelineUpdate;
use crate::text::same_text;
use vstd::prelude::*;

verus! {

/// A condition on a pipeline event and one of its builds.
#[derive(Debug)]
pub enum Filter {
    /// The pipeline ran on this branch.
    BranchEquals(String),
    /// The pipeline ran for a tag (`true`) or not (`false`).
    TagIs(bool),
    /// The build belongs to this stage.
    StageEquals(String),
    /// Both conditions hold.
    And(Box<Filter>, Box<Filter>),
    /// At least one of the conditions holds.
    Or(Box<Filter>, Box<Filter>),
}

impl Filter {
    /// Whether the condition holds of `event` and its build number `index`. A condition on
    /// the build fails where the event has no build of that number.
    pub open spec fn applies(&self, event: &PipelineUpdate, index: int) -> bool
        decreases self,
    {
        match self {
            Filter::BranchEquals(branch) => event.object_attributes.branch@ == branch@,
            Filter::TagIs(tag) => event.object_attributes.tag == *tag,
            Filter::StageEquals(stage) => 0 <= index < event.builds@.len()
                && event.builds@[index].stage@ == stage@,
            Filter::And(left, right) => left.applies(event, index) && right.applies(
                event,
                index,
            ),
            Filter::Or(left, right) => left.applies(event, index) || right.applies(event, index),
        }
    }

    /// Evaluates the condition on `event` and its build number `index`.
    pub fn apply(&self, event: &PipelineUpdate, index: usize) -> (hit: bool)
        ensures
            hit == self.applies(event, index as int),
        decreases self,
    {
        match self {
            Filter::BranchEquals(branch) => same_text(
                event.object_attributes.branch.as_str(),
                branch.as_str(),
            ),
            Filter::TagIs(tag) => event.object_attributes.tag == *tag,
            Filter::StageEquals(stage) => index < event.builds.len() && same_text(
                event.builds[index].stage.as_str(),
                stage.as_str(),
            ),
            Filter::And(left, right) => left.apply(event, index) && right.apply(event, index),
            Filter::Or(left, right) => left.apply(event, index) || right.apply(event, index),
        }
    }
}

/// A target that builds are made for.
#[derive(Debug, Clone)]
pub struct Platform {
    pub os: String,
    pub arch: String,
}

/// Says which builds are made for a platform.
#[derive(Debug)]
pub struct PlatformFilter {
    pub platform: Platform,
    pub filter: Filter,
}

/// A named release track.
#[derive(Debug)]
pub struct Channel {
    pub name: String,
    /// A pipeline belongs to the channel where at least one of these holds of it.
    pub channel_filters: Vec<Filter>,
    /// The platforms of the channel, each with the condition that picks its builds.
    pub build_map: Vec<PlatformFilter>,
}

impl Channel {
    /// Whether the pipeline belongs to this channel: one of the channel's filters holds of
    /// the event, with the first build standing for all.
    pub open spec fn selects(&self, event: &PipelineUpdate) -> bool {
        exists|k: int|
            0 <= k < self.channel_filters@.len() && #[trigger] self.channel_filters@[k].applies(
                event,
                0,
            )
    }

    /// Decides whether the pipeline belongs to this channel.
    pub fn matches(&self, event: &PipelineUpdate) -> (hit: bool)
        ensures
            hit == self.selects(event),
    {
        let mut k: usize = 0;
        while k < self.channel_filters.len()
            invariant
                k <= self.channel_filters@.len(),
                forall|j: int| 0 <= j < k ==> !(#[trigger] self.channel_filters@[j].applies(event, 0)),
            decreases self.channel_filters@.len() - k,
        {
            if self.channel_filters[k].apply(event, 0) {
                return true;
            }
            k += 1;
        }
        false
    }
}

/// The configuration of the service: its channels in the order in which they are tried,
/// and what identifies it to the CI provider and the local store.
#[derive(Debug)]
pub struct Config {
    pub channels: Vec<Channel>,
    /// The project at the CI provider whose builds are fetched.
    pub project_id: u64,
    /// What the local store puts in front of a file name to form its download path.
    pub download_prefix: String,
}

impl Config {
    /// Whether `i` is the first channel that the pipeline belongs to.
    pub open spec fn first_selecting(&self, event: &PipelineUpdate, i: int) -> bool {
        &&& 0 <= i < self.channels@.len()
        &&& self.channels@[i].selects(event)
        &&& forall|j: int| 0 <= j < i ==> !(#[trigger] self.channels@[j]).selects(event)
    }

    /// Whether the pipeline belongs to none of the channels.
    pub open spec fn none_selects(&self, event: &PipelineUpdate) -> bool {
        forall|j: int| 0 <= j < self.channels@.len() ==> !(#[trigger] self.channels@[j]).selects(event)
    }

    /// Whether `i` is the first channel called `name`.
    pub open spec fn first_named(&self, name: Seq<char>, i: int) -> bool {
        &&& 0 <= i < self.channels@.len()
        &&& self.channels@[i].name@ == name
        &&& forall|j: int| 0 <= j < i ==> (#[trigger] self.channels@[j]).name@ != name
    }

    /// Whether a channel is called `name`.
    pub open spec fn has_channel(&self, name: Seq<char>) -> bool {
        exists|i: int| 0 <= i < self.channels@.len() && (#[trigger] self.channels@[i]).name@ == name
    }

    /// The position of the first channel that the pipeline belongs to.
    pub fn find_selecting(&self, event: &PipelineUpdate) -> (found: Option<usize>)
        ensures
            match found {
                Some(i) => self.first_selecting(event, i as int),
                None => self.none_selects(event),
            },
    {
        let mut i: usize = 0;
        while i < self.channels.len()
            invariant
                i <= self.channels@.len(),
                forall|j: int| 0 <= j < i ==> !(#[trigger] self.channels@[j]).selects(event),
            decreases self.channels@.len() - i,
        {
            if self.channels[i].matches(event) {
                return Some(i);
            }
            i += 1;
        }
        None
    }

    /// The position of the first channel called `name`.
    pub fn find_channel(&self, name: &str) -> (found: Option<usize>)
        ensures
            found is Some <==> self.has_channel(name@),
            found is Some ==> self.first_named(name@, found->0 as int),
    {
        let mut i: usize = 0;
        while i < self.channels.len()
            invariant
                i <= self.channels@.len(),
                forall|j: int| 0 <= j < i ==> (#[trigger] self.channels@[j]).name@ != name@,
            decreases self.channels@.len() - i,
        {
            if same_text(self.channels[i].name.as_str(), name) {
                return Some(i);
            }
            i += 1;
        }
        None
    }
}

/// Where no pipeline belongs to two channels, the order of the channels plays no part:
/// the channel chosen for a pipeline is the one channel that it belongs to.
pub proof fn lemma_exclusive_choice(config: &Config, event: &PipelineUpdate, i: int)
    requires
        forall|a: int, b: int|
            0 <= a < b < config.channels@.len() ==> !((#[trigger] config.channels@[a]).selects(event)
                && (#[trigger] config.channels@[b]).selects(event)),
        0 <= i < config.channels@.len(),
    ensures
        config.first_selecting(event, i) <==> config.channels@[i].selects(event),
{
    if config.channels@[i].selects(event) {
        assert forall|j: int| 0 <= j < i implies !(#[trigger] config.channels@[j]).selects(event) by {
            assert(!(config.channels@[j].selects(event) && config.channels@[i].selects(event)));
        }
    }
}

} // verus!
