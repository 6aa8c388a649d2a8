use cozy::checksum::sha512_checksum;
use cozy::download::{DownloadReport, StagedArtifact};
use cozy::error::ResolveError;
use cozy::manifest::ArtifactDescriptor;
use cozy::pipeline::{begin, step, Action, Event, Stage};
use cozy::registry::{DownloadUrlField, PackageReference, RegistryReply};

const ARTIFACT: &[u8] = b"the source archive";

fn package() -> PackageReference {
    PackageReference { name: "fmt".to_string(), version: "0.9.0".to_string() }
}

fn manifest_for(content: &[u8]) -> String {
    format!(
        "opam-version: \"2.0\"\nurl {{\n  src: \"https://example.org/pkg-1.0.0.tar.gz\"\n  checksum: \"{}\"\n}}\n\n",
        sha512_checksum(content)
    )
}

/// Runs the steps up to the end of the download and returns the stage then reached.
fn up_to_download(manifest: String) -> (Stage, Action) {
    let (stage, action) = begin(&package());
    assert_eq!(
        action,
        Action::FetchMetadata("/repos/ocaml/opam-repository/contents/packages/fmt/fmt.0.9.0/opam".to_string())
    );
    let reply = RegistryReply::Answer(DownloadUrlField::Text("https://host/manifest".to_string()));
    let (stage, action) = step(stage, Event::MetadataFetched(reply));
    assert_eq!(action, Action::FetchManifest("https://host/manifest".to_string()));
    let (stage, action) = step(stage, Event::ManifestFetched(Ok(manifest.clone())));
    assert_eq!(action, Action::StoreManifest(manifest.trim_end().to_string()));
    step(stage, Event::ManifestStored(Ok(())))
}

#[test]
fn metadata_answer_leads_to_one_manifest_fetch() {
    let (stage, _) = begin(&package());
    let reply = RegistryReply::Answer(DownloadUrlField::Text("https://host/manifest".to_string()));
    let (stage, action) = step(stage, Event::MetadataFetched(reply));
    assert_eq!(stage, Stage::AwaitingManifest);
    assert_eq!(action, Action::FetchManifest("https://host/manifest".to_string()));
    let (stage, action) = step(stage, Event::ManifestFetched(Ok("body text  \n".to_string())));
    assert_eq!(action, Action::StoreManifest("body text".to_string()));
    assert_eq!(stage, Stage::StoringManifest("body text".to_string()));
}

#[test]
fn verified_artifact_is_promoted() {
    let (stage, action) = up_to_download(manifest_for(ARTIFACT));
    assert_eq!(
        action,
        Action::Download {
            url: "https://example.org/pkg-1.0.0.tar.gz".to_string(),
            file_name: "pkg-1.0.0.tar.gz".to_string(),
        }
    );
    let len = ARTIFACT.len() as u64;
    let done = DownloadReport { status: 200, received: len, declared: Some(len), interrupted: false, write_failed: false };
    let (stage, action) = step(stage, Event::DownloadFinished(done));
    assert_eq!(action, Action::ReadStaged("pkg-1.0.0.tar.gz".to_string()));
    let (stage, action) = step(stage, Event::ArtifactRead(Ok(ARTIFACT.to_vec())));
    let staged = StagedArtifact { file_name: "pkg-1.0.0.tar.gz".to_string(), length: len };
    assert_eq!(action, Action::Promote(staged.clone()));
    assert_eq!(stage, Stage::Verified(staged));
}

#[test]
fn mismatching_artifact_is_discarded() {
    let (stage, _) = up_to_download(manifest_for(b"what the manifest promised"));
    let len = ARTIFACT.len() as u64;
    let done = DownloadReport { status: 200, received: len, declared: None, interrupted: false, write_failed: false };
    let (stage, _) = step(stage, Event::DownloadFinished(done));
    let (stage, action) = step(stage, Event::ArtifactRead(Ok(ARTIFACT.to_vec())));
    assert_eq!(
        action,
        Action::Discard { file_name: "pkg-1.0.0.tar.gz".to_string(), error: ResolveError::ChecksumMismatch }
    );
    assert_eq!(stage, Stage::Failed(ResolveError::ChecksumMismatch));
}

#[test]
fn interrupted_download_is_discarded_and_restarts() {
    let (stage, _) = up_to_download(manifest_for(ARTIFACT));
    let half = DownloadReport { status: 200, received: 50, declared: Some(100), interrupted: false, write_failed: false };
    let (stage, action) = step(stage, Event::DownloadFinished(half));
    assert_eq!(
        action,
        Action::Discard { file_name: "pkg-1.0.0.tar.gz".to_string(), error: ResolveError::TransportError }
    );
    assert_eq!(stage, Stage::Failed(ResolveError::TransportError));
    let (_, action) = step(stage, Event::ArtifactRead(Ok(ARTIFACT.to_vec())));
    assert_eq!(action, Action::Nothing);
    let (stage, _) = up_to_download(manifest_for(ARTIFACT));
    match stage {
        Stage::Downloading(d) => assert_eq!(
            d,
            ArtifactDescriptor {
                checksum: sha512_checksum(ARTIFACT),
                url: "https://example.org/pkg-1.0.0.tar.gz".to_string(),
            }
        ),
        other => panic!("expected a fresh download, got {:?}", other),
    }
}

#[test]
fn failures_before_download_stage_nothing() {
    let (stage, _) = begin(&package());
    let (stage, action) = step(stage, Event::MetadataFetched(RegistryReply::NotFound));
    assert_eq!(action, Action::Fail(ResolveError::PackageNotFound));
    assert_eq!(stage, Stage::Failed(ResolveError::PackageNotFound));

    let (_, action) = up_to_download("url {".to_string());
    assert_eq!(action, Action::Fail(ResolveError::MalformedManifest));
    let (_, action) = up_to_download("name: \"x\"".to_string());
    assert_eq!(action, Action::Fail(ResolveError::DescriptorNotFound));
}

#[test]
fn http_error_discards_partial_file() {
    let (stage, _) = up_to_download(manifest_for(ARTIFACT));
    let bad = DownloadReport { status: 503, received: 0, declared: None, interrupted: false, write_failed: false };
    let (stage, action) = step(stage, Event::DownloadFinished(bad));
    assert_eq!(
        action,
        Action::Discard { file_name: "pkg-1.0.0.tar.gz".to_string(), error: ResolveError::HttpError }
    );
    assert_eq!(stage, Stage::Failed(ResolveError::HttpError));
}
