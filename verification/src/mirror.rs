//! The upload of a published file to the release host: find the release that belongs to
//! the configured tag, create it where the host has none, and post the file to it.

use crate::address::{attachable, parse_url, parsed_url, url_with_query, with_query};
use crate::text::{same_text, strip_pattern, without_pattern};
use crate::webhook::{bump, bumped, TransferError};
use vstd::prelude::*;
use vstd::string::StringExecFns;

verus! {

/// What the upload needs of a release on the release host: its number, and host and
/// path of the address that the host gives out for uploads to it.
#[derive(Debug, Clone)]
pub struct Release {
    pub id: u64,
    pub upload_host: Option<String>,
    pub upload_path: String,
}

/// The answer of the release host to the question for the release of a tag.
#[derive(Debug)]
pub enum Lookup {
    Found(Release),
    /// The host answered with an error of its own, and this message.
    Refused { message: String },
    /// The question did not get through.
    Failed,
}

/// What to do about the release after the host has answered.
#[derive(Debug)]
pub enum ReleaseDecision {
    Use(Release),
    Create,
    GiveUp,
}

impl Lookup {
    /// A release that was found is used. Where the host says `Not Found`, the release
    /// is created. Every other answer ends the upload.
    pub open spec fn decision(self) -> ReleaseDecision {
        match self {
            Lookup::Found(release) => ReleaseDecision::Use(release),
            Lookup::Refused { message } => if message@ == "Not Found"@ {
                ReleaseDecision::Create
            } else {
                ReleaseDecision::GiveUp
            },
            Lookup::Failed => ReleaseDecision::GiveUp,
        }
    }
}

/// Decides what to do about the release after the host has answered.
pub fn decide_release(answer: Lookup) -> (decision: ReleaseDecision)
    ensures
        decision == answer.decision(),
{
    match answer {
        Lookup::Found(release) => ReleaseDecision::Use(release),
        Lookup::Refused { message } => {
            if same_text(message.as_str(), "Not Found") {
                ReleaseDecision::Create
            } else {
                ReleaseDecision::GiveUp
            }
        },
        Lookup::Failed => ReleaseDecision::GiveUp,
    }
}

/// The release host as far as releases go: which release belongs to which tag.
pub type Releases = Map<Seq<char>, Release>;

/// Whether `answer` is what a host with these releases says when asked for `tag`:
/// the release of the tag, or that there is none.
pub open spec fn answers(host: Releases, tag: Seq<char>, answer: Lookup) -> bool {
    if host.dom().contains(tag) {
        answer == Lookup::Found(host[tag])
    } else {
        answer.decision() is Create
    }
}

/// The releases of the host once the decision on `answer` is carried out; `created` is
/// the release that the host makes where it is asked to.
pub open spec fn host_after(host: Releases, tag: Seq<char>, answer: Lookup, created: Release) -> Releases {
    if answer.decision() is Create {
        host.insert(tag, created)
    } else {
        host
    }
}

/// The release that the upload goes to once the decision on `answer` is carried out.
pub open spec fn ensured(answer: Lookup, created: Release) -> Option<Release> {
    match answer.decision() {
        ReleaseDecision::Use(release) => Some(release),
        ReleaseDecision::Create => Some(created),
        ReleaseDecision::GiveUp => None,
    }
}

/// Making sure twice, one time after the other, that the release of a tag exists gives
/// the same release both times: the second time the host has it, nothing is created,
/// and the host keeps the releases it had after the first.
pub proof fn lemma_release_ensured_once(
    host: Releases,
    tag: Seq<char>,
    first: Lookup,
    created: Release,
    second: Lookup,
    created_again: Release,
)
    requires
        answers(host, tag, first),
        answers(host_after(host, tag, first, created), tag, second),
    ensures
        ensured(first, created) is Some,
        ensured(second, created_again) == ensured(first, created),
        !(second.decision() is Create),
        host_after(host_after(host, tag, first, created), tag, second, created_again)
            == host_after(host, tag, first, created),
{
}

/// Whether `answers` are what the host says when it is asked for `tag` time after time,
/// each decision being carried out before the next question. `created` holds, for each
/// time, the release that the host makes where it is asked to.
pub open spec fn answered_in_turn(
    host: Releases,
    tag: Seq<char>,
    answers: Seq<Lookup>,
    created: Seq<Release>,
) -> bool
    decreases answers.len(),
{
    if answers.len() == 0 {
        true
    } else {
        &&& created.len() == answers.len()
        &&& self::answers(host, tag, answers[0])
        &&& answered_in_turn(
            host_after(host, tag, answers[0], created[0]),
            tag,
            answers.skip(1),
            created.skip(1),
        )
    }
}

/// However often it is made sure, one time after the other, that the release of a tag
/// exists, every time gives the release that the first time gave, and only the first
/// time can create one.
pub proof fn lemma_release_ensured_by_all(
    host: Releases,
    tag: Seq<char>,
    answers: Seq<Lookup>,
    created: Seq<Release>,
    i: int,
)
    requires
        answered_in_turn(host, tag, answers, created),
        0 <= i < answers.len(),
    ensures
        ensured(answers[0], created[0]) is Some,
        ensured(answers[i], created[i]) == ensured(answers[0], created[0]),
        i > 0 ==> !(answers[i].decision() is Create),
    decreases answers.len(),
{
    if i > 0 {
        let later = host_after(host, tag, answers[0], created[0]);
        let rest = answers.skip(1);
        let made = created.skip(1);
        reveal_with_fuel(answered_in_turn, 2);
        assert(answered_in_turn(later, tag, rest, made));
        assert(self::answers(later, tag, rest[0]));
        lemma_release_ensured_once(host, tag, answers[0], created[0], rest[0], made[0]);
        lemma_release_ensured_by_all(later, tag, rest, made, i - 1);
    }
}

/// Where uploads to a release go before the file is named: `https://`, the host, and
/// the path without the `%7B` that the host's template leaves in it.
pub open spec fn upload_base(host: Seq<char>, path: Seq<char>) -> Seq<char> {
    "https://"@ + host + without_pattern(path, "%7B"@)
}

/// The query that names the uploaded file.
pub open spec fn name_query(file_name: Seq<char>) -> Seq<char> {
    "name="@ + file_name
}

/// The address to post the file called `file_name` to. There is none where the
/// release's upload address has no host, where address or query is too long for the
/// query to be attached, or where the `url` crate does not take the address for a URL.
pub open spec fn upload_endpoint_text(release: &Release, file_name: Seq<char>) -> Option<Seq<char>> {
    match release.upload_host {
        None => None,
        Some(host) => if attachable(
            upload_base(host@, release.upload_path@),
            name_query(file_name),
        ) {
            url_with_query(upload_base(host@, release.upload_path@), name_query(file_name))
        } else {
            None
        },
    }
}

/// What an optional text says.
pub open spec fn text_of(text: Option<String>) -> Option<Seq<char>> {
    match text {
        Some(t) => Some(t@),
        None => None,
    }
}

/// The address to post the file called `file_name` to.
pub fn upload_endpoint(release: &Release, file_name: &str) -> (endpoint: Option<String>)
    ensures
        text_of(endpoint) == upload_endpoint_text(release, file_name@),
{
    match &release.upload_host {
        None => None,
        Some(host) => {
            let path = strip_pattern(release.upload_path.as_str(), "%7B");
            let mut base = String::from_str("https://");
            base.append(host.as_str());
            base.append(path.as_str());
            let mut query = String::from_str("name=");
            query.append(file_name);
            with_query(base.as_str(), query.as_str())
        },
    }
}

/// The content type that uploads are posted with.
pub fn upload_content_type() -> (kind: &'static str)
    ensures
        kind@ == "application/octet-stream"@,
{
    "application/octet-stream"
}

/// The step of an upload whose result is awaited.
#[derive(Clone, Copy, Debug, PartialEq, Eq, Structural)]
pub enum MirrorStep {
    /// Ask the host for the release of the tag.
    Lookup,
    /// Have the host create the release of the tag.
    Create,
    /// Post the file to `endpoint`.
    Upload,
    /// Nothing: the upload has ended.
    Done,
}

/// How the awaited step of an upload went, with what it brought.
#[derive(Debug)]
pub enum MirrorEvent {
    Looked(Lookup),
    Created(Release),
    /// The host took the file, and says where it can be downloaded.
    Uploaded { browser_download_url: String },
    Failed,
}

/// The state of one upload to the release host.
#[derive(Debug)]
pub struct Mirror {
    pub step: MirrorStep,
    pub file_name: String,
    /// The release that the file goes to, once it is known.
    pub release: Option<Release>,
    /// How often the host was asked to create the release.
    pub creations: u8,
    /// The address to post the file to, once it is known.
    pub endpoint: Option<String>,
    /// Where the uploaded file can be downloaded, once the host has said so.
    pub download_url: Option<String>,
    pub error: Option<TransferError>,
}

impl Mirror {
    /// Whether `self` is `before`, ended without success.
    pub open spec fn gave_up(self, before: Mirror) -> bool {
        &&& self.step == MirrorStep::Done
        &&& self.release == before.release
        &&& self.creations == before.creations
        &&& self.endpoint == before.endpoint
        &&& self.download_url is None
        &&& self.error == Some(TransferError::UploadProvider)
    }

    /// Whether `self` is `before` with `release` as the release to upload to, and
    /// `creations` creations: the upload is awaited at the address that belongs to the
    /// release, and has ended without success where there is no such address.
    pub open spec fn resolved(self, before: Mirror, release: Release, creations: u8) -> bool {
        &&& self.release == Some(release)
        &&& self.creations == creations
        &&& self.download_url is None
        &&& text_of(self.endpoint) == upload_endpoint_text(&release, before.file_name@)
        &&& match self.endpoint {
            Some(_) => self.step == MirrorStep::Upload && self.error is None,
            None => self.step == MirrorStep::Done && self.error == Some(
                TransferError::UploadProvider,
            ),
        }
    }

    /// Whether `next` is the state after the awaited step went as `event` says.
    ///
    /// The answer to the lookup decides as `Lookup::decision` says. A release is
    /// created only after the host said that there is none. The upload has succeeded
    /// when the host names a download address that is a URL. Whatever else is reported
    /// ends the upload without success.
    pub open spec fn leads_to(self, event: MirrorEvent, next: Mirror) -> bool {
        &&& next.file_name == self.file_name
        &&& match self.step {
            MirrorStep::Lookup => match event {
                MirrorEvent::Looked(answer) => match answer.decision() {
                    ReleaseDecision::Use(release) => next.resolved(self, release, self.creations),
                    ReleaseDecision::Create => next == Mirror { step: MirrorStep::Create, ..self },
                    ReleaseDecision::GiveUp => next.gave_up(self),
                },
                _ => next.gave_up(self),
            },
            MirrorStep::Create => match event {
                MirrorEvent::Created(release) => next.resolved(self, release, bump(self.creations)),
                _ => next.gave_up(self),
            },
            MirrorStep::Upload => match event {
                MirrorEvent::Uploaded { browser_download_url } => match parsed_url(
                    browser_download_url@,
                ) {
                    Some(url) => {
                        &&& next.step == MirrorStep::Done
                        &&& next.release == self.release
                        &&& next.creations == self.creations
                        &&& next.endpoint == self.endpoint
                        &&& text_of(next.download_url) == Some(url)
                        &&& next.error is None
                    },
                    None => next.gave_up(self),
                },
                _ => next.gave_up(self),
            },
            MirrorStep::Done => next == self,
        }
    }

    /// Whether the state fits its step: a release is known from the upload on, and the
    /// host was asked to create one at most once, and only before the upload.
    pub open spec fn wf(self) -> bool {
        match self.step {
            MirrorStep::Lookup => self.creations == 0 && self.release is None && self.endpoint
                is None && self.download_url is None && self.error is None,
            MirrorStep::Create => self.creations == 0 && self.release is None && self.endpoint
                is None && self.download_url is None && self.error is None,
            MirrorStep::Upload => self.creations <= 1 && self.release is Some && self.endpoint
                is Some && self.download_url is None && self.error is None,
            MirrorStep::Done => self.creations <= 1 && (self.download_url is Some
                <==> self.error is None) && (self.download_url is Some ==> self.release is Some
                && self.endpoint is Some),
        }
    }

    /// Begins the upload of the file called `file_name`: the lookup is awaited.
    pub fn new(file_name: String) -> (mirror: Mirror)
        ensures
            mirror == (Mirror {
                step: MirrorStep::Lookup,
                file_name,
                release: None,
                creations: 0,
                endpoint: None,
                download_url: None,
                error: None,
            }),
            mirror.wf(),
    {
        Mirror {
            step: MirrorStep::Lookup,
            file_name,
            release: None,
            creations: 0,
            endpoint: None,
            download_url: None,
            error: None,
        }
    }

    /// How the upload ended: where the file can be downloaded, or why it cannot.
    /// `None` while the upload is under way.
    pub fn result(&self) -> (result: Option<Result<String, TransferError>>)
        ensures
            match result {
                None => self.step != MirrorStep::Done || (self.download_url is None
                    && self.error is None),
                Some(Ok(url)) => self.step == MirrorStep::Done && self.download_url == Some(url),
                Some(Err(error)) => self.step == MirrorStep::Done && self.download_url is None
                    && self.error == Some(error),
            },
    {
        match self.step {
            MirrorStep::Done => match &self.download_url {
                Some(url) => Some(Ok(url.clone())),
                None => match self.error {
                    Some(error) => Some(Err(error)),
                    None => None,
                },
            },
            _ => None,
        }
    }

    fn give_up(&mut self)
        ensures
            final(self).gave_up(*old(self)),
            final(self).file_name == old(self).file_name,
    {
        self.step = MirrorStep::Done;
        self.download_url = None;
        self.error = Some(TransferError::UploadProvider);
    }

    fn resolve(&mut self, release: Release, creations: u8)
        ensures
            final(self).resolved(*old(self), release, creations),
            final(self).file_name == old(self).file_name,
    {
        let endpoint = upload_endpoint(&release, self.file_name.as_str());
        self.creations = creations;
        self.download_url = None;
        match endpoint {
            Some(address) => {
                self.step = MirrorStep::Upload;
                self.error = None;
                self.endpoint = Some(address);
            },
            None => {
                self.step = MirrorStep::Done;
                self.error = Some(TransferError::UploadProvider);
                self.endpoint = None;
            },
        }
        self.release = Some(release);
    }

    /// Takes in what the awaited step brought, and says which step is awaited next.
    pub fn advance(&mut self, event: MirrorEvent) -> (next: MirrorStep)
        ensures
            old(self).leads_to(event, *final(self)),
            next == final(self).step,
            old(self).wf() ==> final(self).wf(),
    {
        match self.step {
            MirrorStep::Lookup => match event {
                MirrorEvent::Looked(answer) => match decide_release(answer) {
                    ReleaseDecision::Use(release) => {
                        let creations = self.creations;
                        self.resolve(release, creations);
                    },
                    ReleaseDecision::Create => {
                        self.step = MirrorStep::Create;
                    },
                    ReleaseDecision::GiveUp => {
                        self.give_up();
                    },
                },
                _ => {
                    self.give_up();
                },
            },
            MirrorStep::Create => match event {
                MirrorEvent::Created(release) => {
                    let creations = bumped(self.creations);
                    self.resolve(release, creations);
                },
                _ => {
                    self.give_up();
                },
            },
            MirrorStep::Upload => match event {
                MirrorEvent::Uploaded { browser_download_url } => {
                    match parse_url(browser_download_url.as_str()) {
                        Some(url) => {
                            self.step = MirrorStep::Done;
                            self.error = None;
                            self.download_url = Some(url);
                        },
                        None => {
                            self.give_up();
                        },
                    }
                },
                _ => {
                    self.give_up();
                },
            },
            MirrorStep::Done => {},
        }
        self.step
    }
}

/// A step keeps the state of an upload fitting. So in every upload the host is asked
/// at most once to create the release, and only after it said that there is none.
pub proof fn lemma_leads_to_keeps_wf(before: Mirror, event: MirrorEvent, next: Mirror)
    requires
        before.wf(),
        before.leads_to(event, next),
    ensures
        next.wf(),
        next.creations <= 1,
        next.creations > before.creations ==> before.step == MirrorStep::Create && event is Created,
        next.step == MirrorStep::Create && before.step != MirrorStep::Create ==> before.step
            == MirrorStep::Lookup && event is Looked && event->Looked_0.decision() is Create,
{
}

} // verus!
