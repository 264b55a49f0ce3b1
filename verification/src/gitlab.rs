//! The pipeline event that the CI provider sends when a pipeline finishes.

use crate::artifact::{described, wrapped_id, Artifact, ArtifactView};
use crate::config::{Channel, Config};
use crate::text::same_text;
use crate::timestamp::Timestamp;
use vstd::prelude::*;

verus! {

/// One finished pipeline: what ran, for which commit, and the builds it was made of.
#[derive(Debug, Clone)]
pub struct PipelineUpdate {
    pub object_kind: String,
    pub object_attributes: ObjectAttributes,
    pub user: User,
    pub project: Project,
    pub commit: Commit,
    pub builds: Vec<Build>,
}

#[derive(Debug, Clone)]
pub struct Variable {
    pub key: String,
    pub value: String,
}

#[derive(Debug, Clone)]
pub struct ObjectAttributes {
    pub id: u64,
    pub branch: String,
    pub tag: bool,
    pub sha: String,
    pub before_sha: String,
    pub status: String,
    pub stages: Vec<String>,
    pub created_at: Option<String>,
    pub finished_at: Option<String>,
    pub duration: Option<u64>,
    pub variables: Vec<Variable>,
}

#[derive(Debug, Clone)]
pub struct User {
    pub name: String,
    pub username: String,
    pub avatar_url: String,
}

#[derive(Debug, Clone)]
pub struct Author {
    pub name: String,
    pub email: String,
}

#[derive(Debug, Clone)]
pub struct Project {
    pub id: u64,
    pub name: String,
    pub description: String,
    pub web_url: String,
    pub avatar_url: Option<String>,
    pub git_ssh_url: String,
    pub git_http_url: String,
    pub namespace: String,
    pub visibility_level: u64,
    pub path_with_namespace: String,
    pub default_branch: String,
}

#[derive(Debug, Clone)]
pub struct Commit {
    pub id: String,
    pub message: String,
    pub timestamp: Timestamp,
    pub url: String,
    pub author: Author,
}

/// One job of the pipeline. Only a build with an artifact file can be published.
#[derive(Debug, Clone)]
pub struct Build {
    pub id: u64,
    pub stage: String,
    pub name: String,
    pub created_at: String,
    pub started_at: Option<String>,
    pub finished_at: Option<String>,
    pub when: String,
    pub manual: bool,
    pub user: User,
    pub runner: Option<Runner>,
    pub artifacts_file: ArtifactsFile,
}

#[derive(Debug, Clone)]
pub struct Runner {
    pub id: u64,
    pub description: String,
    pub active: bool,
    pub is_shared: Option<bool>,
}

impl Default for Runner {
    fn default() -> (runner: Runner)
        ensures
            runner.id == 0,
            runner.description@ == Seq::<char>::empty(),
            !runner.active,
            runner.is_shared is None,
    {
        Runner { id: 0, description: String::new(), active: false, is_shared: None }
    }
}

/// The bundle a build left behind, where it left one.
#[derive(Debug, Clone)]
pub struct ArtifactsFile {
    pub filename: Option<String>,
    pub size: Option<u64>,
}

impl Build {
    /// Whether the build left an artifact file behind.
    pub open spec fn has_artifact(&self) -> bool {
        self.artifacts_file.filename is Some
    }
}

/// A channel together with the files that a pipeline publishes on it.
#[derive(Debug)]
pub struct Publication {
    pub channel: String,
    pub artifacts: Vec<Artifact>,
}

/// What a list of records says, record by record.
pub open spec fn artifact_views(records: Seq<Artifact>) -> Seq<ArtifactView> {
    records.map_values(|record: Artifact| record@)
}

impl PipelineUpdate {
    /// Whether the pipeline ended with the status `success`.
    pub open spec fn succeeded(&self) -> bool {
        self.object_attributes.status@ == "success"@
    }

    /// Whether build `i` is published for the platform at position `j` of the channel:
    /// the platform's filter holds of the build, and the build left an artifact file.
    pub open spec fn yields(&self, channel: &Channel, i: int, j: int) -> bool {
        &&& 0 <= i < self.builds@.len()
        &&& 0 <= j < channel.build_map@.len()
        &&& channel.build_map@[j].filter.applies(self, i)
        &&& self.builds@[i].has_artifact()
    }

    /// The record for build `i` on the platform at position `j` of the channel.
    pub open spec fn artifact_at(
        &self,
        channel: &Channel,
        prefix: Seq<char>,
        i: int,
        j: int,
    ) -> ArtifactView {
        described(self, channel, &self.builds@[i], &channel.build_map@[j].platform, prefix)
    }

    /// The records that build `i` yields on the first `count` platforms of the channel,
    /// in the platforms' order.
    pub open spec fn build_artifacts(
        &self,
        channel: &Channel,
        prefix: Seq<char>,
        i: int,
        count: int,
    ) -> Seq<ArtifactView>
        decreases count,
    {
        if count <= 0 {
            Seq::empty()
        } else {
            let before = self.build_artifacts(channel, prefix, i, count - 1);
            if self.yields(channel, i, count - 1) {
                before.push(self.artifact_at(channel, prefix, i, count - 1))
            } else {
                before
            }
        }
    }

    /// The records that the first `count` builds yield on the channel, build by build.
    pub open spec fn artifacts_upto(
        &self,
        channel: &Channel,
        prefix: Seq<char>,
        count: int,
    ) -> Seq<ArtifactView>
        decreases count,
    {
        if count <= 0 {
            Seq::empty()
        } else {
            self.artifacts_upto(channel, prefix, count - 1) + self.build_artifacts(
                channel,
                prefix,
                count - 1,
                channel.build_map@.len() as int,
            )
        }
    }

    /// The records of everything the pipeline publishes on the channel: for each build
    /// in turn, one record for each platform of the channel that it is published for.
    pub open spec fn expected_artifacts(
        &self,
        channel: &Channel,
        prefix: Seq<char>,
    ) -> Seq<ArtifactView> {
        self.artifacts_upto(channel, prefix, self.builds@.len() as int)
    }

    /// The name of the channel that the pipeline is published on: the first channel of
    /// the configuration with a filter that holds of it. A pipeline that did not succeed
    /// is published nowhere.
    pub fn channel(&self, config: &Config) -> (name: Option<String>)
        ensures
            !self.succeeded() ==> name is None,
            match name {
                Some(chosen) => self.succeeded() && exists|i: int|
                    config.first_selecting(self, i) && chosen@ == (
                    #[trigger] config.channels@[i]).name@,
                None => !self.succeeded() || config.none_selects(self),
            },
    {
        if !same_text(self.object_attributes.status.as_str(), "success") {
            return None;
        }
        match config.find_selecting(self) {
            Some(i) => Some(config.channels[i].name.clone()),
            None => None,
        }
    }

    /// The records of everything the pipeline publishes on `channel`.
    pub fn artifacts_in(&self, channel: &Channel, download_prefix: &str) -> (found: Vec<Artifact>)
        ensures
            artifact_views(found@) == self.expected_artifacts(channel, download_prefix@),
    {
        let mut found: Vec<Artifact> = Vec::new();
        let ghost prefix = download_prefix@;
        let mut i: usize = 0;
        proof {
            assert(artifact_views(found@) =~= Seq::<ArtifactView>::empty());
        }
        while i < self.builds.len()
            invariant
                i <= self.builds@.len(),
                prefix == download_prefix@,
                artifact_views(found@) == self.artifacts_upto(channel, prefix, i as int),
            decreases self.builds@.len() - i,
        {
            let mut j: usize = 0;
            proof {
                assert(self.artifacts_upto(channel, prefix, i as int) + self.build_artifacts(
                    channel,
                    prefix,
                    i as int,
                    0,
                ) =~= self.artifacts_upto(channel, prefix, i as int));
            }
            while j < channel.build_map.len()
                invariant
                    i < self.builds@.len(),
                    j <= channel.build_map@.len(),
                    prefix == download_prefix@,
                    artifact_views(found@) == self.artifacts_upto(channel, prefix, i as int)
                        + self.build_artifacts(channel, prefix, i as int, j as int),
                decreases channel.build_map@.len() - j,
            {
                let ghost before = found@;
                let ghost sofar = self.build_artifacts(channel, prefix, i as int, j as int);
                if channel.build_map[j].filter.apply(self, i) {
                    match Artifact::try_from(
                        self,
                        channel,
                        &self.builds[i],
                        &channel.build_map[j].platform,
                        download_prefix,
                    ) {
                        Some(artifact) => {
                            found.push(artifact);
                            proof {
                                assert(artifact_views(found@) =~= artifact_views(before).push(
                                    artifact@,
                                ));
                                assert(self.artifacts_upto(channel, prefix, i as int) + sofar.push(
                                    artifact@,
                                ) =~= (self.artifacts_upto(channel, prefix, i as int)
                                    + sofar).push(artifact@));
                            }
                        },
                        None => {},
                    }
                }
                j += 1;
            }
            i += 1;
        }
        found
    }

    /// The records of everything the pipeline publishes on the channel called `channel`,
    /// the first of that name where several share it.
    pub fn artifacts(&self, config: &Config, channel: &str) -> (found: Vec<Artifact>)
        requires
            config.has_channel(channel@),
        ensures
            exists|c: int|
                config.first_named(channel@, c) && artifact_views(found@)
                    == self.expected_artifacts(
                    &(#[trigger] config.channels@[c]),
                    config.download_prefix@,
                ),
    {
        match config.find_channel(channel) {
            Some(c) => self.artifacts_in(&config.channels[c], config.download_prefix.as_str()),
            None => Vec::new(),
        }
    }

    /// What the pipeline publishes: the channel it belongs to and the records of its
    /// files there. A pipeline that did not succeed, or that no channel takes, publishes
    /// nothing.
    pub fn publication(&self, config: &Config) -> (plan: Option<Publication>)
        ensures
            !self.succeeded() ==> plan is None,
            match plan {
                Some(made) => self.succeeded() && exists|i: int|
                    config.first_selecting(self, i) && made.channel@ == (
                    #[trigger] config.channels@[i]).name@ && artifact_views(made.artifacts@)
                        == self.expected_artifacts(
                        &config.channels@[i],
                        config.download_prefix@,
                    ),
                None => !self.succeeded() || config.none_selects(self),
            },
    {
        if !same_text(self.object_attributes.status.as_str(), "success") {
            return None;
        }
        match config.find_selecting(self) {
            Some(i) => {
                let artifacts = self.artifacts_in(
                    &config.channels[i],
                    config.download_prefix.as_str(),
                );
                Some(Publication { channel: config.channels[i].name.clone(), artifacts })
            },
            None => None,
        }
    }
}

/// Different build numbers stay different in the records.
pub proof fn lemma_wrapped_id_injective(a: u64, b: u64)
    requires
        a != b,
    ensures
        wrapped_id(a) != wrapped_id(b),
{
}

/// Each record that build `i` yields belongs to a platform of the channel whose filter
/// holds of the build, and the build left an artifact file.
pub proof fn lemma_build_artifacts_sound(
    event: &PipelineUpdate,
    channel: &Channel,
    prefix: Seq<char>,
    i: int,
    count: int,
    k: int,
)
    requires
        0 <= k < event.build_artifacts(channel, prefix, i, count).len(),
    ensures
        exists|j: int|
            0 <= j < count && #[trigger] event.yields(channel, i, j) && event.build_artifacts(
                channel,
                prefix,
                i,
                count,
            )[k] == event.artifact_at(channel, prefix, i, j),
    decreases count,
{
    if count > 0 {
        let before = event.build_artifacts(channel, prefix, i, count - 1);
        if k < before.len() {
            lemma_build_artifacts_sound(event, channel, prefix, i, count - 1, k);
            let j = choose|j: int|
                0 <= j < count - 1 && #[trigger] event.yields(channel, i, j) && before[k]
                    == event.artifact_at(channel, prefix, i, j);
            assert(event.yields(channel, i, j));
        } else {
            assert(event.yields(channel, i, count - 1));
        }
    }
}

/// Each record among those of the first `count` builds stems from one of these builds
/// and a platform of the channel: the platform's filter holds of the build, and the
/// build left an artifact file.
pub proof fn lemma_artifacts_upto_sound(
    event: &PipelineUpdate,
    channel: &Channel,
    prefix: Seq<char>,
    count: int,
    k: int,
)
    requires
        0 <= k < event.artifacts_upto(channel, prefix, count).len(),
    ensures
        exists|i: int, j: int|
            0 <= i < count && #[trigger] event.yields(channel, i, j) && event.artifacts_upto(
                channel,
                prefix,
                count,
            )[k] == event.artifact_at(channel, prefix, i, j),
    decreases count,
{
    if count > 0 {
        let before = event.artifacts_upto(channel, prefix, count - 1);
        let width = channel.build_map@.len() as int;
        if k < before.len() {
            lemma_artifacts_upto_sound(event, channel, prefix, count - 1, k);
            let (i, j) = choose|i: int, j: int|
                0 <= i < count - 1 && #[trigger] event.yields(channel, i, j) && before[k]
                    == event.artifact_at(channel, prefix, i, j);
            assert(event.yields(channel, i, j));
        } else {
            lemma_build_artifacts_sound(event, channel, prefix, count - 1, width, k - before.len());
            let j = choose|j: int|
                0 <= j < width && #[trigger] event.yields(channel, count - 1, j)
                    && event.build_artifacts(channel, prefix, count - 1, width)[k - before.len()]
                    == event.artifact_at(channel, prefix, count - 1, j);
            assert(event.yields(channel, count - 1, j));
        }
    }
}

/// No record is made for a build without an artifact file, whatever the filters say:
/// every record of a publication stems from a build that left one, and from a platform
/// whose filter holds of that build.
pub proof fn lemma_artifacts_have_files(
    event: &PipelineUpdate,
    channel: &Channel,
    prefix: Seq<char>,
    k: int,
)
    requires
        0 <= k < event.expected_artifacts(channel, prefix).len(),
    ensures
        exists|i: int, j: int|
            0 <= i < event.builds@.len() && 0 <= j < channel.build_map@.len()
                && event.builds@[i].has_artifact() && channel.build_map@[j].filter.applies(event, i)
                && #[trigger] event.yields(channel, i, j) && event.expected_artifacts(
                channel,
                prefix,
            )[k] == event.artifact_at(channel, prefix, i, j),
{
    lemma_artifacts_upto_sound(event, channel, prefix, event.builds@.len() as int, k);
    let (i, j) = choose|i: int, j: int|
        0 <= i < event.builds@.len() && #[trigger] event.yields(channel, i, j)
            && event.expected_artifacts(channel, prefix)[k] == event.artifact_at(
            channel,
            prefix,
            i,
            j,
        );
    assert(event.yields(channel, i, j));
}

/// Where the builds of a pipeline carry different numbers, no record bears the number
/// of a build that left no artifact file.
pub proof fn lemma_no_artifact_without_file(
    event: &PipelineUpdate,
    channel: &Channel,
    prefix: Seq<char>,
    b: int,
    k: int,
)
    requires
        0 <= b < event.builds@.len(),
        !event.builds@[b].has_artifact(),
        forall|x: int, y: int|
            0 <= x < y < event.builds@.len() ==> event.builds@[x].id != event.builds@[y].id,
        0 <= k < event.expected_artifacts(channel, prefix).len(),
    ensures
        event.expected_artifacts(channel, prefix)[k].build_id != wrapped_id(event.builds@[b].id),
{
    lemma_artifacts_have_files(event, channel, prefix, k);
    let (i, j) = choose|i: int, j: int|
        0 <= i < event.builds@.len() && 0 <= j < channel.build_map@.len()
            && event.builds@[i].has_artifact() && channel.build_map@[j].filter.applies(event, i)
            && #[trigger] event.yields(channel, i, j) && event.expected_artifacts(
            channel,
            prefix,
        )[k] == event.artifact_at(channel, prefix, i, j);
    assert(i != b);
    if i < b {
        assert(event.builds@[i].id != event.builds@[b].id);
    } else {
        assert(event.builds@[b].id != event.builds@[i].id);
    }
    lemma_wrapped_id_injective(event.builds@[i].id, event.builds@[b].id);
}

/// A build that left an artifact file gets a record for each platform of the channel
/// whose filter holds of it.
pub proof fn lemma_artifacts_complete(
    event: &PipelineUpdate,
    channel: &Channel,
    prefix: Seq<char>,
    i: int,
    j: int,
)
    requires
        event.yields(channel, i, j),
    ensures
        event.expected_artifacts(channel, prefix).contains(
            event.artifact_at(channel, prefix, i, j),
        ),
{
    let width = channel.build_map@.len() as int;
    let record = event.artifact_at(channel, prefix, i, j);
    lemma_build_artifacts_hold(event, channel, prefix, i, j, width);
    lemma_artifacts_upto_hold(event, channel, prefix, i, event.builds@.len() as int, record);
}

/// The records of build `i` on the first `count` platforms hold the one for platform `j`.
proof fn lemma_build_artifacts_hold(
    event: &PipelineUpdate,
    channel: &Channel,
    prefix: Seq<char>,
    i: int,
    j: int,
    count: int,
)
    requires
        event.yields(channel, i, j),
        j < count,
    ensures
        event.build_artifacts(channel, prefix, i, count).contains(
            event.artifact_at(channel, prefix, i, j),
        ),
    decreases count,
{
    let all = event.build_artifacts(channel, prefix, i, count);
    let before = event.build_artifacts(channel, prefix, i, count - 1);
    let record = event.artifact_at(channel, prefix, i, j);
    if j == count - 1 {
        assert(all[all.len() - 1] == record);
    } else {
        lemma_build_artifacts_hold(event, channel, prefix, i, j, count - 1);
        let at = choose|at: int| 0 <= at < before.len() && before[at] == record;
        assert(all[at] == record);
    }
}

/// What build `i` yields is among the records of the first `count` builds, for `i < count`.
proof fn lemma_artifacts_upto_hold(
    event: &PipelineUpdate,
    channel: &Channel,
    prefix: Seq<char>,
    i: int,
    count: int,
    record: ArtifactView,
)
    requires
        0 <= i < count,
        event.build_artifacts(channel, prefix, i, channel.build_map@.len() as int).contains(
            record,
        ),
    ensures
        event.artifacts_upto(channel, prefix, count).contains(record),
    decreases count,
{
    let all = event.artifacts_upto(channel, prefix, count);
    let before = event.artifacts_upto(channel, prefix, count - 1);
    let last = event.build_artifacts(
        channel,
        prefix,
        count - 1,
        channel.build_map@.len() as int,
    );
    if i == count - 1 {
        let at = choose|at: int| 0 <= at < last.len() && last[at] == record;
        assert(all[before.len() + at] == record);
    } else {
        lemma_artifacts_upto_hold(event, channel, prefix, i, count - 1, record);
        let at = choose|at: int| 0 <= at < before.len() && before[at] == record;
        assert(all[at] == record);
    }
}

} // verus!
