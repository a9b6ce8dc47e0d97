use vstd::prelude::*;
use crate::base::address::opt_str_view;
use crate::base::digest::{content_hash, sha256_digest, spec_hex_lower};
use crate::base::path::{path_join, spec_path_join, spec_trim_start_matches, trim_start_matches};
use crate::outbound::tofu_cli::concat;

verus! {

/// What the library reads of an OCI reference.
#[derive(Debug, PartialEq, Eq)]
pub struct OciReference {
    /// The full form of the reference, registry and default tag included.
    pub whole: String,
    pub registry: String,
    pub repository: String,
    pub tag: Option<String>,
    pub digest: Option<String>,
}

/// The mathematical model of an [`OciReference`].
pub struct OciReferenceView {
    pub whole: Seq<char>,
    pub registry: Seq<char>,
    pub repository: Seq<char>,
    pub tag: Option<Seq<char>>,
    pub digest: Option<Seq<char>>,
}

impl View for OciReference {
    type V = OciReferenceView;

    open spec fn view(&self) -> OciReferenceView {
        OciReferenceView {
            whole: self.whole@,
            registry: self.registry@,
            repository: self.repository@,
            tag: opt_str_view(self.tag),
            digest: opt_str_view(self.digest),
        }
    }
}

/// The reference that `oci_client::Reference`'s `FromStr` makes of `input`,
/// `None` where it refuses it.
pub uninterp spec fn oci_reference_parse(input: Seq<char>) -> Option<OciReferenceView>;

/// Calls `str::parse::<oci_client::Reference>` and reads the parts of the
/// result. Claims only that the outcome is the one `oci_reference_parse`
/// names; which strings are references is left to `oci_client`.
#[verifier::external_body]
fn parse_oci_reference(input: &str) -> (r: Option<OciReference>)
    ensures
        r is Some <==> oci_reference_parse(input@) is Some,
        r matches Some(x) ==> oci_reference_parse(input@) == Some(x@),
{
    match input.parse::<oci_client::Reference>() {
        Ok(reference) => Some(OciReference {
            whole: reference.whole(),
            registry: reference.registry().to_string(),
            repository: reference.repository().to_string(),
            tag: reference.tag().map(|t| t.to_string()),
            digest: reference.digest().map(|d| d.to_string()),
        }),
        Err(_) => None,
    }
}

/// The registry that serves a reference parsed from text: Docker Hub's
/// `docker.io` is served from `index.docker.io`, any other registry from
/// itself.
pub open spec fn spec_resolved_registry(registry: Seq<char>) -> Seq<char> {
    if registry == "docker.io"@ {
        "index.docker.io"@
    } else {
        registry
    }
}

/// The server whose credentials are looked up: the resolved registry
/// without one trailing `/`.
pub open spec fn spec_registry_server(registry: Seq<char>) -> Seq<char> {
    let resolved = spec_resolved_registry(registry);
    if resolved.len() > 0 && resolved.last() == '/' {
        resolved.drop_last()
    } else {
        resolved
    }
}

impl OciReference {
    pub fn clone_reference(&self) -> (r: OciReference)
        ensures
            r@ == self@,
    {
        OciReference {
            whole: self.whole.clone(),
            registry: self.registry.clone(),
            repository: self.repository.clone(),
            tag: crate::base::address::clone_opt_string(&self.tag),
            digest: crate::base::address::clone_opt_string(&self.digest),
        }
    }

    /// Parses an OCI reference.
    pub fn parse(input: &str) -> (r: Option<OciReference>)
        ensures
            r is Some <==> oci_reference_parse(input@) is Some,
            r matches Some(x) ==> oci_reference_parse(input@) == Some(x@),
    {
        parse_oci_reference(input)
    }

    /// The registry that serves the reference, as `Reference::resolve_registry`
    /// gives it for a reference without a mirror.
    pub fn resolve_registry(&self) -> (r: String)
        ensures
            r@ == spec_resolved_registry(self.registry@),
    {
        proof {
            reveal_strlit("docker.io");
            reveal_strlit("index.docker.io");
        }
        let docker = String::from_str("docker.io");
        if self.registry == docker {
            String::from_str("index.docker.io")
        } else {
            self.registry.clone()
        }
    }
}

/// Why an artifact's location could not be read; no input gives one.
#[derive(Debug)]
pub enum ArtifactSourceParseError {
    PathParseError(oci_client::ParseError),
}

/// Where a plugin artifact is: a file on disk, or an image in an OCI registry.
#[derive(Debug, PartialEq, Eq)]
pub enum ArtifactSource {
    Local(String),
    OCI(OciReference),
}

/// A location is an OCI image when it parses as an OCI reference, and a
/// file otherwise, named by the location without its leading `file://`.
pub open spec fn source_holds(path: Seq<char>, s: ArtifactSource) -> bool {
    match oci_reference_parse(path) {
        Some(v) => s matches ArtifactSource::OCI(x) && x@ == v,
        None => s matches ArtifactSource::Local(p) && p@ == spec_trim_start_matches(
            path,
            "file://"@,
        ),
    }
}

impl ArtifactSource {
    /// Reads the location of an artifact; it never fails.
    pub fn parse(path: String) -> (r: Result<ArtifactSource, ArtifactSourceParseError>)
        ensures
            r matches Ok(s) && source_holds(path@, s),
    {
        match OciReference::parse(path.as_str()) {
            Some(reference) => Ok(ArtifactSource::OCI(reference)),
            None => {
                proof {
                    reveal_strlit("file://");
                }
                Ok(ArtifactSource::Local(trim_start_matches(path.as_str(), "file://")))
            },
        }
    }
}

/// A registry credential, as the Docker credential store gives it.
#[derive(Debug)]
pub enum DockerCredential {
    UsernamePassword(String, String),
    IdentityToken(String),
}

/// How to authenticate to a registry.
#[derive(Debug, PartialEq, Eq)]
pub enum RegistryAuth {
    Anonymous,
    Basic(String, String),
}

/// Where an artifact with content hash `hash` is stored: `<dir>/<hash>.wasm`.
pub open spec fn spec_hash_path(dir: Seq<char>, hash: Seq<char>) -> Seq<char> {
    spec_path_join(dir, hash + ".wasm"@)
}

/// Fetches plugin artifacts into a local store, keyed by content hash.
#[derive(Debug)]
pub struct Downloader {
    storage_dir: String,
}

/// Where a pull of an artifact stands. `key` is the location the pull was
/// asked for: the content hash is recorded and looked up under it.
#[derive(Debug)]
pub enum PullState {
    Start,
    AwaitingHash { key: String, reference: OciReference },
    AwaitingProbe { key: String, reference: OciReference, file_path: String },
    AwaitingDownload { key: String, reference: OciReference },
    AwaitingStore { file_path: String },
    Finished,
}

/// What the outside world reports to a pull.
#[derive(Debug)]
pub enum PullEvent {
    /// The pull of the artifact at this location is asked for.
    Requested(String),
    /// The content hash recorded for the reference, if any.
    HashRetrieved(Option<String>),
    /// Whether the file asked about exists.
    Probed(bool),
    /// The content of the artifact's first layer.
    Downloaded(Vec<u8>),
    /// The content was written and recorded.
    Stored,
}

/// What a pull asks the outside world to do next.
#[derive(Debug)]
pub enum PullAction {
    /// Look up the content hash recorded under this key.
    RetrieveHash(String),
    /// Tell whether this file exists.
    ProbeFile(String),
    /// Download the artifact.
    Download(OciReference),
    /// Write `content` to `file_path` and record `hash` under `key`.
    Store { key: String, file_path: String, content: Vec<u8>, hash: String },
    /// The pull is over: the artifact is at this path.
    Return(String),
    /// The event does not fit the state.
    Unexpected,
}

/// One step of a pull. A local artifact is returned as it is. An OCI
/// artifact is returned from the store when a hash is recorded for it and
/// the stored file exists; otherwise it is downloaded, stored under the hash
/// of its content, and returned from there.
pub open spec fn pull_step_holds(
    dir: Seq<char>,
    state: PullState,
    event: PullEvent,
    next: PullState,
    action: PullAction,
) -> bool {
    match (state, event) {
        (PullState::Start, PullEvent::Requested(path)) => match oci_reference_parse(path@) {
            Some(v) => {
                &&& (next matches PullState::AwaitingHash { key, reference } && key@ == path@
                    && reference@ == v)
                &&& (action matches PullAction::RetrieveHash(key) && key@ == path@)
            },
            None => {
                &&& next is Finished
                &&& (action matches PullAction::Return(p) && p@ == spec_trim_start_matches(
                    path@,
                    "file://"@,
                ))
            },
        },
        (PullState::AwaitingHash { key, reference }, PullEvent::HashRetrieved(Some(hash))) => {
            &&& (next matches PullState::AwaitingProbe { key: k2, reference: r2, file_path } && k2@
                == key@ && r2@ == reference@ && file_path@ == spec_hash_path(dir, hash@))
            &&& (action matches PullAction::ProbeFile(p) && p@ == spec_hash_path(dir, hash@))
        },
        (PullState::AwaitingHash { key, reference }, PullEvent::HashRetrieved(None)) => {
            &&& (next matches PullState::AwaitingDownload { key: k2, reference: r2 } && k2@ == key@
                && r2@ == reference@)
            &&& (action matches PullAction::Download(r3) && r3@ == reference@)
        },
        (PullState::AwaitingProbe { key, reference, file_path }, PullEvent::Probed(exists)) => if exists {
            &&& next is Finished
            &&& (action matches PullAction::Return(p) && p@ == file_path@)
        } else {
            &&& (next matches PullState::AwaitingDownload { key: k2, reference: r2 } && k2@ == key@
                && r2@ == reference@)
            &&& (action matches PullAction::Download(r3) && r3@ == reference@)
        },
        (PullState::AwaitingDownload { key, reference }, PullEvent::Downloaded(content)) => {
            let hash = spec_hex_lower(sha256_digest(content@));
            &&& (next matches PullState::AwaitingStore { file_path } && file_path@
                == spec_hash_path(dir, hash))
            &&& (action matches PullAction::Store { key: k, file_path, content: c, hash: h } && k@
                == key@ && file_path@ == spec_hash_path(dir, hash) && c@ == content@ && h@ == hash)
        },
        (PullState::AwaitingStore { file_path }, PullEvent::Stored) => {
            &&& next is Finished
            &&& (action matches PullAction::Return(p) && p@ == file_path@)
        },
        _ => next is Finished && action is Unexpected,
    }
}

/// A downloaded artifact lands where its content names it: once the download
/// is reported and its storing is then reported, the pull returns
/// `<dir>/<hex sha256 of the content>.wasm`, the file the content was
/// written to, and the hash is recorded under the key the pull was asked for.
pub proof fn law_download_lands_at_content_path(
    dir: Seq<char>,
    key: String,
    reference: OciReference,
    content: Vec<u8>,
    s1: PullState,
    a1: PullAction,
    s2: PullState,
    a2: PullAction,
)
    requires
        pull_step_holds(dir, PullState::AwaitingDownload { key, reference }, PullEvent::Downloaded(content), s1, a1),
        pull_step_holds(dir, s1, PullEvent::Stored, s2, a2),
    ensures
        a2 matches PullAction::Return(p) && p@ == spec_hash_path(
            dir,
            spec_hex_lower(sha256_digest(content@)),
        ),
        a1 matches PullAction::Store { key: k, file_path, hash, .. } && k@ == key@ && file_path@
            == spec_hash_path(dir, spec_hex_lower(sha256_digest(content@))) && hash@
            == spec_hex_lower(sha256_digest(content@)),
        s2 is Finished,
{
}

/// A recorded artifact whose file is present is returned from the store
/// without being downloaded: the pull returns `<dir>/<hash>.wasm` for the
/// recorded hash.
pub proof fn law_cached_artifact_is_reused(
    dir: Seq<char>,
    key: String,
    reference: OciReference,
    hash: String,
    s1: PullState,
    a1: PullAction,
    s2: PullState,
    a2: PullAction,
)
    requires
        pull_step_holds(dir, PullState::AwaitingHash { key, reference }, PullEvent::HashRetrieved(Some(hash)), s1, a1),
        pull_step_holds(dir, s1, PullEvent::Probed(true), s2, a2),
    ensures
        a1 matches PullAction::ProbeFile(probed) && probed@ == spec_hash_path(dir, hash@),
        a2 matches PullAction::Return(p) && p@ == spec_hash_path(dir, hash@),
        s2 is Finished,
{
}

/// Pulling the same OCI location twice gives the same file without a second
/// download. The first pull finds nothing recorded, downloads `content`,
/// stores it and records its hash under the location; the second pull looks
/// the hash up under that same location, and when the record gives back the
/// stored hash and the file is present, it returns the first pull's file
/// and asks for no download and no store.
pub proof fn law_second_pull_reuses_first(
    dir: Seq<char>,
    location: String,
    content: Vec<u8>,
    s1: PullState,
    a1: PullAction,
    s2: PullState,
    a2: PullAction,
    s3: PullState,
    a3: PullAction,
    s4: PullState,
    a4: PullAction,
    again: String,
    recorded: String,
    t1: PullState,
    b1: PullAction,
    t2: PullState,
    b2: PullAction,
    t3: PullState,
    b3: PullAction,
)
    requires
        oci_reference_parse(location@) is Some,
        pull_step_holds(dir, PullState::Start, PullEvent::Requested(location), s1, a1),
        pull_step_holds(dir, s1, PullEvent::HashRetrieved(None), s2, a2),
        pull_step_holds(dir, s2, PullEvent::Downloaded(content), s3, a3),
        pull_step_holds(dir, s3, PullEvent::Stored, s4, a4),
        again@ == location@,
        pull_step_holds(dir, PullState::Start, PullEvent::Requested(again), t1, b1),
        a3 matches PullAction::Store { hash, .. } && recorded@ == hash@,
        pull_step_holds(dir, t1, PullEvent::HashRetrieved(Some(recorded)), t2, b2),
        pull_step_holds(dir, t2, PullEvent::Probed(true), t3, b3),
    ensures
        a3 matches PullAction::Store { key, .. } && b1 matches PullAction::RetrieveHash(lookup)
            && key@ == location@ && lookup@ == key@,
        a4 matches PullAction::Return(first) && b3 matches PullAction::Return(second) && first@
            == second@,
        b2 is ProbeFile && t3 is Finished,
{
}

impl Downloader {
    pub fn new(storage_dir: String) -> (r: Self)
        ensures
            r.storage_dir() == storage_dir@,
    {
        Downloader { storage_dir }
    }

    pub closed spec fn storage_dir(&self) -> Seq<char> {
        self.storage_dir@
    }

    /// Where the artifact whose content hash is `hash` is stored.
    pub fn hash_to_path(&self, hash: &String) -> (r: String)
        ensures
            r@ == spec_hash_path(self.storage_dir(), hash@),
    {
        proof {
            reveal_strlit(".wasm");
        }
        let name = concat(hash.as_str(), ".wasm");
        path_join(self.storage_dir.as_str(), name.as_str())
    }

    /// The server whose credentials authenticate pulls of `reference`.
    pub fn registry_server(&self, reference: &OciReference) -> (r: String)
        ensures
            r@ == spec_registry_server(reference.registry@),
    {
        let resolved = reference.resolve_registry();
        let n = resolved.as_str().unicode_len();
        if n > 0 && resolved.as_str().get_char(n - 1) == '/' {
            let r = String::from_str(resolved.as_str().substring_char(0, n - 1));
            assert(r@ =~= resolved@.drop_last());
            r
        } else {
            resolved
        }
    }

    /// How to authenticate a pull, given what the credential store answered
    /// for the registry server (`None` where it had no credential): a user
    /// name and password are used; anything else pulls anonymously.
    pub fn build_auth(&self, credential: Option<DockerCredential>) -> (r: RegistryAuth)
        ensures
            match credential {
                Some(DockerCredential::UsernamePassword(u, p)) => r == RegistryAuth::Basic(u, p),
                _ => r == RegistryAuth::Anonymous,
            },
    {
        match credential {
            Some(DockerCredential::UsernamePassword(username, password)) => RegistryAuth::Basic(
                username,
                password,
            ),
            Some(DockerCredential::IdentityToken(_)) => RegistryAuth::Anonymous,
            None => RegistryAuth::Anonymous,
        }
    }

    /// Takes one step of a pull.
    pub fn pull_step(&self, state: PullState, event: PullEvent) -> (r: (PullState, PullAction))
        ensures
            pull_step_holds(self.storage_dir(), state, event, r.0, r.1),
    {
        match (state, event) {
            (PullState::Start, PullEvent::Requested(path)) => {
                let key = path.clone();
                let lookup = path.clone();
                match ArtifactSource::parse(path) {
                    Ok(ArtifactSource::Local(local)) => (PullState::Finished, PullAction::Return(local)),
                    Ok(ArtifactSource::OCI(reference)) => (
                        PullState::AwaitingHash { key, reference },
                        PullAction::RetrieveHash(lookup),
                    ),
                    Err(_) => (PullState::Finished, PullAction::Unexpected),
                }
            },
            (PullState::AwaitingHash { key, reference }, PullEvent::HashRetrieved(Some(hash))) => {
                let file_path = self.hash_to_path(&hash);
                let probe = file_path.clone();
                (PullState::AwaitingProbe { key, reference, file_path }, PullAction::ProbeFile(probe))
            },
            (PullState::AwaitingHash { key, reference }, PullEvent::HashRetrieved(None)) => {
                let download = reference.clone_reference();
                (PullState::AwaitingDownload { key, reference }, PullAction::Download(download))
            },
            (PullState::AwaitingProbe { key, reference, file_path }, PullEvent::Probed(exists)) => {
                if exists {
                    (PullState::Finished, PullAction::Return(file_path))
                } else {
                    let download = reference.clone_reference();
                    (PullState::AwaitingDownload { key, reference }, PullAction::Download(download))
                }
            },
            (PullState::AwaitingDownload { key, reference }, PullEvent::Downloaded(content)) => {
                let hash = content_hash(content.as_slice());
                let file_path = self.hash_to_path(&hash);
                let stored = file_path.clone();
                (
                    PullState::AwaitingStore { file_path: stored },
                    PullAction::Store { key, file_path, content, hash },
                )
            },
            (PullState::AwaitingStore { file_path }, PullEvent::Stored) => {
                (PullState::Finished, PullAction::Return(file_path))
            },
            _ => (PullState::Finished, PullAction::Unexpected),
        }
    }
}

} // verus!
