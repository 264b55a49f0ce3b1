use artifact_relay::artifact::{Artifact, DbArtifact};
use artifact_relay::config::{Channel, Filter, Platform, PlatformFilter};
use artifact_relay::gitlab::{
    ArtifactsFile, Author, Build, Commit, ObjectAttributes, PipelineUpdate, Project, User,
};
use artifact_relay::timestamp::Timestamp;

fn text(s: &str) -> String {
    s.to_string()
}

fn someone(name: &str) -> User {
    User { name: text(name), username: text("user"), avatar_url: text("") }
}

fn a_build(id: u64, file: Option<&str>) -> Build {
    Build {
        id,
        stage: text("build"),
        name: text("linux"),
        created_at: text("2021-03-04 05:00:00 UTC"),
        started_at: None,
        finished_at: None,
        when: text("on_success"),
        manual: false,
        user: someone("Builder"),
        runner: None,
        artifacts_file: ArtifactsFile { filename: file.map(text), size: file.map(|_| 1024) },
    }
}

fn an_event(at: Timestamp, builds: Vec<Build>) -> PipelineUpdate {
    PipelineUpdate {
        object_kind: text("pipeline"),
        object_attributes: ObjectAttributes {
            id: 31,
            branch: text("master"),
            tag: false,
            sha: text("bcbb5ec396a2c0f828686f14fac9b80b780504f2"),
            before_sha: text("0000000000000000000000000000000000000000"),
            status: text("success"),
            stages: vec![text("build")],
            created_at: None,
            finished_at: None,
            duration: Some(63),
            variables: vec![],
        },
        user: someone("Merger"),
        project: Project {
            id: 1,
            name: text("Game"),
            description: text(""),
            web_url: text("https://gitlab.com/game/game"),
            avatar_url: None,
            git_ssh_url: text(""),
            git_http_url: text(""),
            namespace: text("game"),
            visibility_level: 20,
            path_with_namespace: text("game/game"),
            default_branch: text("master"),
        },
        commit: Commit {
            id: text("bcbb5ec396a2c0f828686f14fac9b80b780504f2"),
            message: text("test"),
            timestamp: at,
            url: text(""),
            author: Author { name: text("Writer"), email: text("writer@example.com") },
        },
        builds,
    }
}

fn a_channel(name: &str) -> Channel {
    Channel {
        name: text(name),
        channel_filters: vec![Filter::BranchEquals(text("master"))],
        build_map: vec![PlatformFilter {
            platform: linux(),
            filter: Filter::StageEquals(text("build")),
        }],
    }
}

fn linux() -> Platform {
    Platform { os: text("linux"), arch: text("x86_64") }
}

#[test]
fn try_from_describes_the_build() {
    let at = Timestamp::new(2021, 3, 4, 5, 6, 7).unwrap();
    let event = an_event(at, vec![a_build(42, Some("out.zip"))]);
    let made = Artifact::try_from(&event, &a_channel("nightly"), &event.builds[0], &linux(), "nightly/")
        .unwrap();
    assert_eq!(made.build_id, 42);
    assert_eq!(made.date.year(), 2021);
    assert_eq!(made.date.second(), 7);
    assert_eq!(made.hash, "bcbb5ec396a2c0f828686f14fac9b80b780504f2");
    assert_eq!(made.author, "Writer");
    assert_eq!(made.merged_by, "Merger");
    assert_eq!(made.platform, "linux");
    assert_eq!(made.channel, "nightly");
    assert_eq!(made.file_name, "nightly-linux-2021-03-04-05_06.zip");
    assert_eq!(made.download_uri, "/nightly/nightly-linux-2021-03-04-05_06.zip");
    assert_eq!(made.extension(), "zip");
}

#[test]
fn try_from_refuses_a_build_without_artifact_file() {
    let at = Timestamp::new(2021, 3, 4, 5, 6, 7).unwrap();
    let event = an_event(at, vec![a_build(42, None)]);
    assert!(Artifact::try_from(&event, &a_channel("nightly"), &event.builds[0], &linux(), "").is_none());
}

#[test]
fn file_name_is_the_same_within_a_minute() {
    let channel = a_channel("weekly");
    let early = an_event(Timestamp::new(2022, 7, 15, 10, 30, 0).unwrap(), vec![a_build(1, Some("a.zip"))]);
    let late = an_event(Timestamp::new(2022, 7, 15, 10, 30, 59).unwrap(), vec![a_build(2, Some("b.zip"))]);
    let first = Artifact::try_from(&early, &channel, &early.builds[0], &linux(), "").unwrap();
    let second = Artifact::try_from(&late, &channel, &late.builds[0], &linux(), "").unwrap();
    assert_eq!(first.file_name, second.file_name);
    assert_eq!(first.file_name.as_bytes(), second.file_name.as_bytes());
    assert_eq!(first.file_name, "weekly-linux-2022-07-15-10_30.zip");
    let again = Artifact::try_from(&early, &channel, &early.builds[0], &linux(), "").unwrap();
    assert_eq!(first.file_name, again.file_name);
}

#[test]
fn file_name_differs_with_channel_platform_or_minute() {
    let at = Timestamp::new(2022, 7, 15, 10, 30, 0).unwrap();
    let event = an_event(at, vec![a_build(1, Some("a.zip"))]);
    let base = Artifact::try_from(&event, &a_channel("weekly"), &event.builds[0], &linux(), "").unwrap();
    let other_channel =
        Artifact::try_from(&event, &a_channel("nightly"), &event.builds[0], &linux(), "").unwrap();
    let windows = Platform { os: text("windows"), arch: text("x86_64") };
    let other_os = Artifact::try_from(&event, &a_channel("weekly"), &event.builds[0], &windows, "").unwrap();
    let next = an_event(Timestamp::new(2022, 7, 15, 10, 31, 0).unwrap(), vec![a_build(1, Some("a.zip"))]);
    let other_minute =
        Artifact::try_from(&next, &a_channel("weekly"), &next.builds[0], &linux(), "").unwrap();
    assert_ne!(base.file_name, other_channel.file_name);
    assert_ne!(base.file_name, other_os.file_name);
    assert_ne!(base.file_name, other_minute.file_name);
    assert_eq!(other_os.file_name, "weekly-windows-2022-07-15-10_30.zip");
}

#[test]
fn build_numbers_keep_their_bits() {
    let at = Timestamp::new(2021, 3, 4, 5, 6, 7).unwrap();
    let event = an_event(
        at,
        vec![
            a_build(i64::MAX as u64, Some("a.zip")),
            a_build(i64::MAX as u64 + 1, Some("b.zip")),
            a_build(u64::MAX, Some("c.zip")),
        ],
    );
    let channel = a_channel("nightly");
    let ids: Vec<i64> = event
        .builds
        .iter()
        .map(|build| Artifact::try_from(&event, &channel, build, &linux(), "").unwrap().build_id)
        .collect();
    assert_eq!(ids, vec![i64::MAX, i64::MIN, -1]);
}

fn a_record(build_id: i64, file_name: &str) -> Artifact {
    Artifact {
        build_id,
        date: Timestamp::new(2021, 3, 4, 5, 6, 7).unwrap(),
        hash: text("abc"),
        author: text("Writer"),
        merged_by: text("Merger"),
        platform: text("linux"),
        channel: text("nightly"),
        file_name: text(file_name),
        download_uri: text("/x"),
    }
}

#[test]
fn artifact_url_names_project_and_build() {
    let record = a_record(42, "out.zip");
    assert_eq!(record.endpoint(10174980), "https://gitlab.com/api/v4/projects/10174980/jobs/42/artifacts");
    assert_eq!(
        record.get_artifact_url(10174980),
        Some(text("https://gitlab.com/api/v4/projects/10174980/jobs/42/artifacts"))
    );
    assert_eq!(
        a_record(0, "out.zip").get_artifact_url(0),
        Some(text("https://gitlab.com/api/v4/projects/0/jobs/0/artifacts"))
    );
}

#[test]
fn artifact_url_keeps_the_sign_of_the_build_number() {
    assert_eq!(
        a_record(-1, "out.zip").endpoint(7),
        "https://gitlab.com/api/v4/projects/7/jobs/-1/artifacts"
    );
    assert_eq!(
        a_record(i64::MIN, "out.zip").endpoint(u64::MAX),
        "https://gitlab.com/api/v4/projects/18446744073709551615/jobs/-9223372036854775808/artifacts"
    );
    assert_eq!(
        a_record(i64::MAX, "out.zip").endpoint(1),
        "https://gitlab.com/api/v4/projects/1/jobs/9223372036854775807/artifacts"
    );
}

#[test]
fn extension_defaults_to_zip() {
    assert_eq!(a_record(1, "out.zip").extension(), "zip");
    assert_eq!(a_record(1, "out.tar.gz").extension(), "gz");
    assert_eq!(a_record(1, "out").extension(), "zip");
    assert_eq!(a_record(1, ".out").extension(), "zip");
    assert_eq!(a_record(1, "").extension(), "zip");
    assert_eq!(a_record(1, "out.").extension(), "");
}

#[test]
fn extension_looks_at_the_last_part_of_the_name() {
    assert_eq!(a_record(1, "a.b/c").extension(), "zip");
    assert_eq!(a_record(1, "..").extension(), "zip");
    assert_eq!(a_record(1, "a.b/").extension(), "b");
    assert_eq!(a_record(1, "a.b/c.tar").extension(), "tar");
}

#[test]
fn generated_names_have_the_extension_zip_whatever_the_channel_is_called() {
    let at = Timestamp::new(2021, 3, 4, 5, 6, 7).unwrap();
    let event = an_event(at, vec![a_build(42, Some("out.zip"))]);
    for name in ["nightly", "a/b", "a.b/", "..", "", "x.y"] {
        let made =
            Artifact::try_from(&event, &a_channel(name), &event.builds[0], &linux(), "").unwrap();
        assert_eq!(made.extension(), "zip", "{:?}", made.file_name);
    }
}

#[test]
fn record_of_a_row_is_the_row_without_its_number() {
    let row = DbArtifact {
        id: 9,
        build_id: 42,
        date: Timestamp::new(2021, 3, 4, 5, 6, 7).unwrap(),
        hash: text("abc"),
        author: text("Writer"),
        merged_by: text("Merger"),
        platform: text("linux"),
        channel: text("nightly"),
        file_name: text("nightly-linux-2021-03-04-05_06.zip"),
        download_uri: text("/nightly/nightly-linux-2021-03-04-05_06.zip"),
    };
    let record = Artifact::from(&row);
    assert_eq!(record.build_id, 42);
    assert_eq!(record.date.minute(), 6);
    assert_eq!(record.hash, "abc");
    assert_eq!(record.author, "Writer");
    assert_eq!(record.merged_by, "Merger");
    assert_eq!(record.platform, "linux");
    assert_eq!(record.channel, "nightly");
    assert_eq!(record.file_name, "nightly-linux-2021-03-04-05_06.zip");
    assert_eq!(record.download_uri, "/nightly/nightly-linux-2021-03-04-05_06.zip");
}

#[test]
fn duplicate_copies_every_field() {
    let record = a_record(42, "out.zip");
    let copy = record.duplicate();
    assert_eq!(copy.build_id, record.build_id);
    assert_eq!(copy.file_name, record.file_name);
    assert_eq!(copy.download_uri, record.download_uri);
    assert_eq!(copy.hash, record.hash);
    assert_eq!(copy.channel, record.channel);
}
