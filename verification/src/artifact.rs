//! The record of one distributable file: which build it came from, for which channel and
//! platform, under which name it is stored and where it is fetched from.

use crate::address::{parse_url, parsed_url};
use crate::config::{Channel, Platform};
use crate::gitlab::{Build, PipelineUpdate};
use crate::text::{
    decimal, digit_char, extension_of, extension_text, file_name_of, last_index,
    lemma_last_dot_before_dotless, lemma_last_index, push_decimal, signed_decimal,
};
use crate::timestamp::{CivilTime, Timestamp};
use vstd::prelude::*;
use vstd::string::StringExecFns;

verus! {

/// One distributable file. `hash` is the commit the build was made from, not a hash of
/// the file's content.
#[derive(Debug, Clone)]
pub struct Artifact {
    pub build_id: i64,
    pub date: Timestamp,
    pub hash: String,
    pub author: String,
    pub merged_by: String,
    pub platform: String,
    pub channel: String,
    pub file_name: String,
    pub download_uri: String,
}

/// A record as the database keeps it: the record itself, and the number the database
/// gave it.
#[derive(Debug, Clone)]
pub struct DbArtifact {
    pub id: i64,
    pub build_id: i64,
    pub date: Timestamp,
    pub hash: String,
    pub author: String,
    pub merged_by: String,
    pub platform: String,
    pub channel: String,
    pub file_name: String,
    pub download_uri: String,
}

impl From<&DbArtifact> for Artifact {
    fn from(db: &DbArtifact) -> (record: Artifact) {
        Artifact {
            build_id: db.build_id,
            date: db.date,
            hash: db.hash.clone(),
            author: db.author.clone(),
            merged_by: db.merged_by.clone(),
            platform: db.platform.clone(),
            channel: db.channel.clone(),
            file_name: db.file_name.clone(),
            download_uri: db.download_uri.clone(),
        }
    }
}

impl vstd::std_specs::convert::FromSpecImpl<&DbArtifact> for Artifact {
    open spec fn obeys_from_spec() -> bool {
        true
    }

    /// The record of a row is the row without its number.
    open spec fn from_spec(db: &DbArtifact) -> Artifact {
        Artifact {
            build_id: db.build_id,
            date: db.date,
            hash: db.hash,
            author: db.author,
            merged_by: db.merged_by,
            platform: db.platform,
            channel: db.channel,
            file_name: db.file_name,
            download_uri: db.download_uri,
        }
    }
}

/// What an `Artifact` says, in mathematical values.
pub struct ArtifactView {
    pub build_id: int,
    pub date: CivilTime,
    pub hash: Seq<char>,
    pub author: Seq<char>,
    pub merged_by: Seq<char>,
    pub platform: Seq<char>,
    pub channel: Seq<char>,
    pub file_name: Seq<char>,
    pub download_uri: Seq<char>,
}

impl View for Artifact {
    type V = ArtifactView;

    open spec fn view(&self) -> ArtifactView {
        ArtifactView {
            build_id: self.build_id as int,
            date: self.date@,
            hash: self.hash@,
            author: self.author@,
            merged_by: self.merged_by@,
            platform: self.platform@,
            channel: self.channel@,
            file_name: self.file_name@,
            download_uri: self.download_uri@,
        }
    }
}

/// The text `zip`.
pub open spec fn zip_text() -> Seq<char> {
    seq!['z', 'i', 'p']
}

/// A build's number as the record keeps it: the same 64 bits read as a signed number.
pub open spec fn wrapped_id(id: u64) -> int {
    if id <= i64::MAX {
        id as int
    } else {
        id - 0x1_0000_0000_0000_0000
    }
}

/// The name of the file published for a channel and an operating system from a commit
/// made at `time`: `{channel}-{os}-{minute stamp}.zip`.
pub open spec fn file_name_text(channel: Seq<char>, os: Seq<char>, time: CivilTime) -> Seq<char> {
    channel + seq!['-'] + os + seq!['-'] + time.minute_text() + seq!['.'] + zip_text()
}

/// Where the CI provider serves the bundle of build `build_id` of project `project_id`.
pub open spec fn endpoint_text(project_id: nat, build_id: int) -> Seq<char> {
    "https://gitlab.com/api/v4/projects/"@ + decimal(project_id) + "/jobs/"@ + signed_decimal(
        build_id,
    ) + "/artifacts"@
}

/// The extension of the file that a name names, and `zip` where there is none.
pub open spec fn extension_or_zip(file_name: Seq<char>) -> Seq<char> {
    match extension_of(file_name) {
        Some(ext) => ext,
        None => zip_text(),
    }
}

/// The record for `build` of `pipe` on `platform` in `channel`, with download paths
/// starting with `prefix`.
pub open spec fn described(
    pipe: &PipelineUpdate,
    channel: &Channel,
    build: &Build,
    platform: &Platform,
    prefix: Seq<char>,
) -> ArtifactView {
    let file_name = file_name_text(channel.name@, platform.os@, pipe.commit.timestamp@);
    ArtifactView {
        build_id: wrapped_id(build.id),
        date: pipe.commit.timestamp@,
        hash: pipe.object_attributes.sha@,
        author: pipe.commit.author.name@,
        merged_by: pipe.user.name@,
        platform: platform.os@,
        channel: channel.name@,
        file_name,
        download_uri: seq!['/'] + prefix + file_name,
    }
}

/// File names depend on the channel, the operating system and the minute of the commit,
/// and on nothing else: the same three give the same name, character for character.
pub proof fn lemma_file_name_deterministic(
    channel_a: Seq<char>,
    os_a: Seq<char>,
    time_a: CivilTime,
    channel_b: Seq<char>,
    os_b: Seq<char>,
    time_b: CivilTime,
)
    requires
        channel_a == channel_b,
        os_a == os_b,
        time_a.at_minute() == time_b.at_minute(),
    ensures
        file_name_text(channel_a, os_a, time_a) == file_name_text(channel_b, os_b, time_b),
{
}

/// Every generated file name has the extension `zip`.
pub proof fn lemma_file_name_extension(channel: Seq<char>, os: Seq<char>, time: CivilTime)
    ensures
        extension_of(file_name_text(channel, os, time)) == Some(zip_text()),
        extension_or_zip(file_name_text(channel, os, time)) == zip_text(),
{
    let stem = channel + seq!['-'] + os + seq!['-'] + time.minute_text();
    let name = file_name_text(channel, os, time);
    assert(name =~= stem + seq!['.'] + zip_text());
    // The stem ends in a digit, so the last part of the name begins within the stem.
    assert(stem.last() == digit_char(time.minute % 10));
    lemma_last_index(name, '/');
    let begin = last_index(name, '/') + 1;
    if begin >= stem.len() {
        assert(name[begin - 1] == '/');
    }
    let head = stem.skip(begin);
    let part = name.skip(begin);
    assert(part =~= head + seq!['.'] + zip_text());
    assert(part.len() >= 5);
    assert(file_name_of(name) == Some(part));
    lemma_last_dot_before_dotless(head, zip_text());
    assert(part.skip(head.len() as int + 1) =~= zip_text());
}

fn wrap_id(id: u64) -> (wrapped: i64)
    ensures
        wrapped == wrapped_id(id),
{
    if id <= 0x7fff_ffff_ffff_ffff {
        id as i64
    } else {
        ((id - 0x8000_0000_0000_0000) as i64) + i64::MIN
    }
}

/// Appends the decimal numeral of `v`, with its sign where it is negative.
fn push_signed_decimal(out: &mut String, v: i64)
    ensures
        final(out)@ == old(out)@ + signed_decimal(v as int),
{
    if v < 0 {
        let magnitude: u64 = if v == i64::MIN {
            0x8000_0000_0000_0000
        } else {
            (-v) as u64
        };
        out.push('-');
        push_decimal(out, magnitude);
        proof {
            assert(old(out)@.push('-') + decimal(magnitude as nat) =~= old(out)@ + (seq!['-']
                + decimal(magnitude as nat)));
        }
    } else {
        push_decimal(out, v as u64);
    }
}

impl Artifact {
    /// Describes the file that `build` of `pipe` yields on `platform` in `channel`.
    /// A build without an artifact file yields none.
    pub fn try_from(
        pipe: &PipelineUpdate,
        channel: &Channel,
        build: &Build,
        platform: &Platform,
        download_prefix: &str,
    ) -> (made: Option<Artifact>)
        ensures
            made is Some <==> build.has_artifact(),
            made is Some ==> made->0@ == described(pipe, channel, build, platform, download_prefix@),
    {
        if build.artifacts_file.filename.is_none() {
            return None;
        }
        let stamp = pipe.commit.timestamp.minute_stamp();
        let mut file_name = channel.name.clone();
        file_name.push('-');
        file_name.append(platform.os.as_str());
        file_name.push('-');
        file_name.append(stamp.as_str());
        file_name.push('.');
        file_name.push('z');
        file_name.push('i');
        file_name.push('p');
        let mut download_uri = String::new();
        download_uri.push('/');
        download_uri.append(download_prefix);
        download_uri.append(file_name.as_str());
        proof {
            assert(file_name@ =~= file_name_text(
                channel.name@,
                platform.os@,
                pipe.commit.timestamp@,
            ));
            assert(download_uri@ =~= seq!['/'] + download_prefix@ + file_name@);
        }
        Some(
            Artifact {
                build_id: wrap_id(build.id),
                date: pipe.commit.timestamp,
                hash: pipe.object_attributes.sha.clone(),
                author: pipe.commit.author.name.clone(),
                merged_by: pipe.user.name.clone(),
                platform: platform.os.clone(),
                channel: channel.name.clone(),
                file_name,
                download_uri,
            },
        )
    }

    /// The text of the address at which the CI provider serves this build's bundle.
    pub fn endpoint(&self, project_id: u64) -> (text: String)
        ensures
            text@ == endpoint_text(project_id as nat, self.build_id as int),
    {
        let mut text = String::new();
        text.append("https://gitlab.com/api/v4/projects/");
        push_decimal(&mut text, project_id);
        text.append("/jobs/");
        push_signed_decimal(&mut text, self.build_id);
        text.append("/artifacts");
        proof {
            assert(text@ =~= endpoint_text(project_id as nat, self.build_id as int));
        }
        text
    }

    /// The address at which the CI provider serves this build's bundle, in normal form.
    /// `None` where the `url` crate does not take the text for a URL.
    pub fn get_artifact_url(&self, project_id: u64) -> (url: Option<String>)
        ensures
            url is Some <==> parsed_url(
                endpoint_text(project_id as nat, self.build_id as int),
            ) is Some,
            url is Some ==> url->0@ == parsed_url(
                endpoint_text(project_id as nat, self.build_id as int),
            )->0,
    {
        let text = self.endpoint(project_id);
        parse_url(text.as_str())
    }

    /// The extension of the file name, without the dot; `zip` where the name has none.
    pub fn extension(&self) -> (ext: String)
        ensures
            ext@ == extension_or_zip(self.file_name@),
    {
        match extension_text(self.file_name.as_str()) {
            Some(ext) => ext,
            None => {
                let mut ext = String::new();
                ext.push('z');
                ext.push('i');
                ext.push('p');
                proof {
                    assert(ext@ =~= zip_text());
                }
                ext
            },
        }
    }

    /// A copy of the record.
    pub fn duplicate(&self) -> (copy: Artifact)
        ensures
            copy@ == self@,
    {
        Artifact {
            build_id: self.build_id,
            date: self.date,
            hash: self.hash.clone(),
            author: self.author.clone(),
            merged_by: self.merged_by.clone(),
            platform: self.platform.clone(),
            channel: self.channel.clone(),
            file_name: self.file_name.clone(),
            download_uri: self.download_uri.clone(),
        }
    }
}

} // verus!
