use vstd::prelude::*;

use crate::error::ResolveError;

verus! {

/// A package to resolve: its name and its version.
#[derive(Debug, Clone, PartialEq, Eq)]
pub struct PackageReference {
    pub name: String,
    pub version: String,
}

/// The registry's content path of a package version's manifest:
/// `<contents root>packages/<name>/<name>.<version>/opam`.
pub open spec fn manifest_path_of(name: Seq<char>, version: Seq<char>) -> Seq<char> {
    "/repos/ocaml/opam-repository/contents/packages/"@ + name + seq!['/'] + name + seq!['.']
        + version + "/opam"@
}

/// The path, under the registry's content API, of the manifest of `package`.
pub fn manifest_api_path(package: &PackageReference) -> (r: String)
    ensures
        r@ == manifest_path_of(package.name@, package.version@),
{
    let mut r = String::from_str("/repos/ocaml/opam-repository/contents/packages/");
    r.append(package.name.as_str());
    r.append("/");
    r.append(package.name.as_str());
    r.append(".");
    r.append(package.version.as_str());
    r.append("/opam");
    proof {
        reveal_strlit("/");
        reveal_strlit(".");
    }
    assert(r@ =~= manifest_path_of(package.name@, package.version@));
    r
}

/// The `download_url` field of the registry's answer, as the answer holds it.
#[derive(Debug, Clone, PartialEq, Eq)]
pub enum DownloadUrlField {
    /// The answer is not an object, or has no such field.
    Absent,
    /// The field holds something other than a string.
    NotText,
    /// The field holds this string.
    Text(String),
}

/// How the registry answered the request for a manifest's metadata.
#[derive(Debug, Clone, PartialEq, Eq)]
pub enum RegistryReply {
    /// The request did not reach the registry, or the connection failed.
    Unreachable,
    /// The registry has nothing at that path.
    NotFound,
    /// The registry answered with a JSON document; this is its `download_url` field.
    Answer(DownloadUrlField),
}

pub open spec fn reply_download_url(reply: RegistryReply) -> Result<Seq<char>, ResolveError> {
    match reply {
        RegistryReply::Unreachable => Err(ResolveError::RegistryUnavailable),
        RegistryReply::NotFound => Err(ResolveError::PackageNotFound),
        RegistryReply::Answer(DownloadUrlField::Absent) => Err(ResolveError::PackageNotFound),
        RegistryReply::Answer(DownloadUrlField::NotText) => Err(ResolveError::MalformedResponse),
        RegistryReply::Answer(DownloadUrlField::Text(u)) => Ok(u@),
    }
}

/// The location of the manifest text that the registry's answer points to.
pub fn download_url_from_reply(reply: &RegistryReply) -> (r: Result<String, ResolveError>)
    ensures
        match reply_download_url(*reply) {
            Ok(u) => r matches Ok(s) && s@ == u,
            Err(e) => r == Err::<String, ResolveError>(e),
        },
{
    match reply {
        RegistryReply::Unreachable => Err(ResolveError::RegistryUnavailable),
        RegistryReply::NotFound => Err(ResolveError::PackageNotFound),
        RegistryReply::Answer(DownloadUrlField::Absent) => Err(ResolveError::PackageNotFound),
        RegistryReply::Answer(DownloadUrlField::NotText) => Err(ResolveError::MalformedResponse),
        RegistryReply::Answer(DownloadUrlField::Text(u)) => Ok(u.clone()),
    }
}

/// The characters that have Unicode's `White_Space` property.
pub open spec fn is_white_space(c: char) -> bool {
    ('\u{9}' <= c && c <= '\u{d}') || c == ' ' || c == '\u{85}' || c == '\u{a0}' || c
        == '\u{1680}' || ('\u{2000}' <= c && c <= '\u{200a}') || c == '\u{2028}' || c
        == '\u{2029}' || c == '\u{202f}' || c == '\u{205f}' || c == '\u{3000}'
}

/// `r` is `s` without its trailing white space.
pub open spec fn is_trimmed_end_of(s: Seq<char>, r: Seq<char>) -> bool {
    &&& r.len() <= s.len()
    &&& r == s.take(r.len() as int)
    &&& forall|i: int| r.len() <= i < s.len() ==> is_white_space(#[trigger] s[i])
    &&& r.len() > 0 ==> !is_white_space(r[r.len() - 1])
}

fn is_white_space_char(c: char) -> (r: bool)
    ensures
        r == is_white_space(c),
{
    ('\u{9}' <= c && c <= '\u{d}') || c == ' ' || c == '\u{85}' || c == '\u{a0}' || c
        == '\u{1680}' || ('\u{2000}' <= c && c <= '\u{200a}') || c == '\u{2028}' || c
        == '\u{2029}' || c == '\u{202f}' || c == '\u{205f}' || c == '\u{3000}'
}

/// The manifest text as it is stored locally: the fetched body without trailing white space.
pub fn manifest_to_store(body: &str) -> (r: String)
    ensures
        is_trimmed_end_of(body@, r@),
{
    let n = body.unicode_len();
    let mut i: usize = n;
    while i > 0 && is_white_space_char(body.get_char(i - 1))
        invariant
            n == body@.len(),
            i <= n,
            forall|j: int| i <= j < n ==> is_white_space(#[trigger] body@[j]),
        decreases i,
    {
        i -= 1;
    }
    let r = String::from_str(body.substring_char(0, i));
    assert(r@ =~= body@.take(i as int));
    r
}

} // verus!
