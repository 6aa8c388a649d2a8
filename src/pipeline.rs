use vstd::prelude::*;

use crate::checksum::{checksum_verdict, sha512_of, verify_checksum, VerificationOutcome};
use crate::download::{is_last_segment_of, is_success_status, artifact_file_name, download_verdict, staged_artifact, DownloadReport, StagedArtifact};
use crate::error::ResolveError;
use crate::manifest::{descriptor_from_manifest, manifest_outcome, ArtifactDescriptor};
use crate::registry::{
    download_url_from_reply, is_trimmed_end_of, manifest_api_path, manifest_path_of,
    manifest_to_store, reply_download_url, PackageReference, RegistryReply,
};

verus! {

/// Where the resolution of one package stands.
#[derive(Debug, PartialEq, Eq)]
pub enum Stage {
    /// Waiting for the registry's answer about the manifest.
    AwaitingMetadata,
    /// Waiting for the manifest text.
    AwaitingManifest,
    /// Waiting for the manifest text, trimmed, to be written locally.
    StoringManifest(String),
    /// Waiting for the artifact's transfer to end.
    Downloading(ArtifactDescriptor),
    /// Waiting for the staged file's contents.
    Verifying(ArtifactDescriptor, StagedArtifact),
    /// The artifact matched its checksum and was promoted.
    Verified(StagedArtifact),
    /// Resolution failed for this reason.
    Failed(ResolveError),
}

/// What the outside world reports back after an action.
#[derive(Debug, PartialEq, Eq)]
pub enum Event {
    MetadataFetched(RegistryReply),
    ManifestFetched(Result<String, ResolveError>),
    ManifestStored(Result<(), ResolveError>),
    DownloadFinished(DownloadReport),
    ArtifactRead(Result<Vec<u8>, ResolveError>),
}

/// What the caller must do next.
#[derive(Debug, PartialEq, Eq)]
pub enum Action {
    /// GET this path of the registry's content API.
    FetchMetadata(String),
    /// GET the manifest text at this URL.
    FetchManifest(String),
    /// Write this text to the local manifest file, replacing any earlier copy.
    StoreManifest(String),
    /// Reset the staging directory and stream the artifact at `url` into `file_name`.
    Download { url: String, file_name: String },
    /// Read the staged file's contents.
    ReadStaged(String),
    /// Keep the staged artifact: it is verified.
    Promote(StagedArtifact),
    /// Delete the staged file, then report the error.
    Discard { file_name: String, error: ResolveError },
    /// Report the error; nothing is staged.
    Fail(ResolveError),
    /// The event does not belong to this stage: nothing to do.
    Nothing,
}

pub open spec fn fails_with(next: Stage, action: Action, e: ResolveError) -> bool {
    next == Stage::Failed(e) && action == Action::Fail(e)
}

pub open spec fn discards_with(next: Stage, action: Action, file_name: String, e: ResolveError) -> bool {
    next == Stage::Failed(e) && action == (Action::Discard { file_name, error: e })
}

/// The outcome of judging the staged artifact's contents against the descriptor's checksum.
pub open spec fn verification_step(
    verdict: Result<VerificationOutcome, ResolveError>,
    a: StagedArtifact,
    next: Stage,
    action: Action,
) -> bool {
    match verdict {
        Ok(VerificationOutcome::Verified) => next == Stage::Verified(a) && action
            == Action::Promote(a),
        Ok(VerificationOutcome::ChecksumMismatch) => discards_with(
            next,
            action,
            a.file_name,
            ResolveError::ChecksumMismatch,
        ),
        Ok(VerificationOutcome::UnsupportedAlgorithm) => discards_with(
            next,
            action,
            a.file_name,
            ResolveError::UnsupportedAlgorithm,
        ),
        Err(e) => discards_with(next, action, a.file_name, e),
    }
}

/// How a stage and an event lead to the next stage and action.
pub open spec fn step_post(stage: Stage, event: Event, next: Stage, action: Action) -> bool {
    match (stage, event) {
        (Stage::AwaitingMetadata, Event::MetadataFetched(reply)) => match reply_download_url(
            reply,
        ) {
            Ok(u) => {
                &&& next == Stage::AwaitingManifest
                &&& (action matches Action::FetchManifest(s) && s@ == u)
            },
            Err(e) => fails_with(next, action, e),
        },
        (Stage::AwaitingManifest, Event::ManifestFetched(Ok(body))) => {
            &&& (next matches Stage::StoringManifest(t) && is_trimmed_end_of(body@, t@))
            &&& (action matches Action::StoreManifest(s) && next == Stage::StoringManifest(s))
        },
        (Stage::AwaitingManifest, Event::ManifestFetched(Err(e))) => fails_with(next, action, e),
        (Stage::StoringManifest(text), Event::ManifestStored(Ok(_))) => match manifest_outcome(
            text@,
        ) {
            Ok((c, u)) => {
                &&& (next matches Stage::Downloading(d) && d.checksum@ == c && d.url@ == u)
                &&& (action matches Action::Download { url, file_name } && url@ == u
                    && is_last_segment_of(u, file_name@))
            },
            Err(e) => fails_with(next, action, e),
        },
        (Stage::StoringManifest(_), Event::ManifestStored(Err(e))) => fails_with(next, action, e),
        (Stage::Downloading(d), Event::DownloadFinished(report)) => match download_verdict(report) {
            Ok(n) => {
                &&& (next matches Stage::Verifying(d2, a) && d2 == d && a.length == n
                    && is_last_segment_of(d.url@, a.file_name@))
                &&& (action matches Action::ReadStaged(f) && next matches Stage::Verifying(_, a)
                    && f@ == a.file_name@)
            },
            Err(e) => {
                &&& next == Stage::Failed(e)
                &&& (action matches Action::Discard { file_name, error } && error == e
                    && is_last_segment_of(d.url@, file_name@))
            },
        },
        (Stage::Verifying(d, a), Event::ArtifactRead(Ok(bytes))) => verification_step(
            checksum_verdict(sha512_of(bytes@), d.checksum@),
            a,
            next,
            action,
        ),
        (Stage::Verifying(_, a), Event::ArtifactRead(Err(e))) => discards_with(
            next,
            action,
            a.file_name,
            e,
        ),
        (stage, _) => next == stage && action == Action::Nothing,
    }
}

/// The first stage and action of resolving `package`.
pub fn begin(package: &PackageReference) -> (r: (Stage, Action))
    ensures
        r.0 == Stage::AwaitingMetadata,
        r.1 matches Action::FetchMetadata(p) && p@ == manifest_path_of(
            package.name@,
            package.version@,
        ),
{
    (Stage::AwaitingMetadata, Action::FetchMetadata(manifest_api_path(package)))
}

fn copy_staged(a: &StagedArtifact) -> (r: StagedArtifact)
    ensures
        r == *a,
{
    StagedArtifact { file_name: a.file_name.clone(), length: a.length }
}

fn fail(e: ResolveError) -> (r: (Stage, Action))
    ensures
        fails_with(r.0, r.1, e),
{
    (Stage::Failed(e), Action::Fail(e))
}

fn discard(file_name: String, e: ResolveError) -> (r: (Stage, Action))
    ensures
        discards_with(r.0, r.1, file_name, e),
{
    (Stage::Failed(e), Action::Discard { file_name, error: e })
}

/// Decides the next stage and action from the current stage and what just happened.
pub fn step(stage: Stage, event: Event) -> (r: (Stage, Action))
    ensures
        step_post(stage, event, r.0, r.1),
{
    match (stage, event) {
        (Stage::AwaitingMetadata, Event::MetadataFetched(reply)) => {
            match download_url_from_reply(&reply) {
                Ok(u) => (Stage::AwaitingManifest, Action::FetchManifest(u)),
                Err(e) => fail(e),
            }
        },
        (Stage::AwaitingManifest, Event::ManifestFetched(Ok(body))) => {
            let text = manifest_to_store(body.as_str());
            let stored = text.clone();
            proof {
                assert(stored == text);
            }
            (Stage::StoringManifest(text), Action::StoreManifest(stored))
        },
        (Stage::AwaitingManifest, Event::ManifestFetched(Err(e))) => fail(e),
        (Stage::StoringManifest(text), Event::ManifestStored(Ok(_))) => {
            let found = descriptor_from_manifest(text.as_str());
            match found {
                Ok(d) => {
                    let url = d.url.clone();
                    let file_name = artifact_file_name(d.url.as_str());
                    (Stage::Downloading(d), Action::Download { url, file_name })
                },
                Err(e) => fail(e),
            }
        },
        (Stage::StoringManifest(_), Event::ManifestStored(Err(e))) => fail(e),
        (Stage::Downloading(d), Event::DownloadFinished(report)) => {
            match staged_artifact(d.url.as_str(), &report) {
                Ok(a) => {
                    let f = a.file_name.clone();
                    (Stage::Verifying(d, a), Action::ReadStaged(f))
                },
                Err(e) => discard(artifact_file_name(d.url.as_str()), e),
            }
        },
        (Stage::Verifying(d, a), Event::ArtifactRead(Ok(bytes))) => {
            match verify_checksum(bytes.as_slice(), d.checksum.as_str()) {
                Ok(VerificationOutcome::Verified) => {
                    let kept = copy_staged(&a);
                    (Stage::Verified(a), Action::Promote(kept))
                },
                Ok(VerificationOutcome::ChecksumMismatch) => discard(
                    a.file_name,
                    ResolveError::ChecksumMismatch,
                ),
                Ok(VerificationOutcome::UnsupportedAlgorithm) => discard(
                    a.file_name,
                    ResolveError::UnsupportedAlgorithm,
                ),
                Err(e) => discard(a.file_name, e),
            }
        },
        (Stage::Verifying(_, a), Event::ArtifactRead(Err(e))) => discard(a.file_name, e),
        (stage, _) => (stage, Action::Nothing),
    }
}


/// An artifact is promoted only in the step that reads its staged contents and finds
/// that their SHA-512 digest matches the descriptor's checksum.
pub proof fn lemma_promotion_requires_verification(
    stage: Stage,
    event: Event,
    next: Stage,
    action: Action,
)
    requires
        step_post(stage, event, next, action),
        action is Promote,
    ensures
        stage matches Stage::Verifying(d, _) && event matches Event::ArtifactRead(Ok(bytes))
            && checksum_verdict(sha512_of(bytes@), d.checksum@) == Ok::<
            VerificationOutcome,
            ResolveError,
        >(VerificationOutcome::Verified),
{
}

/// Staged contents whose digest differs from the checksum are reported as a mismatch,
/// and the staged file is deleted rather than promoted.
pub proof fn lemma_mismatch_discards(
    d: ArtifactDescriptor,
    a: StagedArtifact,
    bytes: Vec<u8>,
    next: Stage,
    action: Action,
)
    requires
        step_post(Stage::Verifying(d, a), Event::ArtifactRead(Ok(bytes)), next, action),
        checksum_verdict(sha512_of(bytes@), d.checksum@) == Ok::<
            VerificationOutcome,
            ResolveError,
        >(VerificationOutcome::ChecksumMismatch),
    ensures
        next == Stage::Failed(ResolveError::ChecksumMismatch),
        action == (Action::Discard { file_name: a.file_name, error: ResolveError::ChecksumMismatch }),
{
}

/// A transfer that ends before its declared length leaves a staged file that is
/// deleted, and resolution fails with a transport error.
pub proof fn lemma_short_download_discards(
    d: ArtifactDescriptor,
    report: DownloadReport,
    next: Stage,
    action: Action,
)
    requires
        step_post(Stage::Downloading(d), Event::DownloadFinished(report), next, action),
        !report.interrupted,
        is_success_status(report.status),
        !report.write_failed,
        report.declared matches Some(n) && report.received < n,
    ensures
        next == Stage::Failed(ResolveError::TransportError),
        action is Discard,
{
}

} // verus!
