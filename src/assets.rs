//! The embedded web client: which file answers a path that no API route takes.
use vstd::prelude::*;
use vstd::string::*;

verus! {

/// The file that answers a path with no file of its own.
pub const INDEX_ASSET: &'static str = "200.html";

/// `s` without the `/` characters it starts with.
pub open spec fn trim_leading_slashes(s: Seq<char>) -> Seq<char>
    decreases s.len(),
{
    if s.len() > 0 && s[0] == '/' {
        trim_leading_slashes(s.drop_first())
    } else {
        s
    }
}

/// The content type guessed from the extension of `path`, or
/// `application/octet-stream` when none is known.
pub uninterp spec fn guessed_content_type(path: Seq<char>) -> Seq<char>;

/// Relies on mime_guess's `from_path` and `MimeGuess::first_or_octet_stream`:
/// the guess depends on the path alone.
#[verifier::external_body]
fn content_type(path: &str) -> (r: String)
    ensures
        r@ == guessed_content_type(path@),
{
    mime_guess::from_path(path).first_or_octet_stream().as_ref().to_string()
}

/// The asset path that a request path names: the path without its leading `/`s.
pub fn asset_path(uri_path: &str) -> (r: String)
    ensures
        r@ == trim_leading_slashes(uri_path@),
{
    let n = uri_path.unicode_len();
    let mut i: usize = 0;
    assert(uri_path@.subrange(0, n as int) =~= uri_path@);
    while i < n && uri_path.get_char(i) == '/'
        invariant
            n == uri_path@.len(),
            i <= n,
            trim_leading_slashes(uri_path@) == trim_leading_slashes(
                uri_path@.subrange(i as int, n as int),
            ),
        decreases n - i,
    {
        assert(uri_path@.subrange(i as int, n as int).drop_first() =~= uri_path@.subrange(
            i + 1,
            n as int,
        ));
        i += 1;
    }
    uri_path.substring_char(i, n).to_owned()
}

/// How a request for an asset is answered.
#[derive(Clone, Debug)]
pub enum AssetPlan {
    /// Send the embedded file at `path`, with this content type.
    Serve { path: String, content_type: String },
    /// Answer 404 with the body `404`.
    NotFound,
}

/// Chooses the answer for the asset `path`: the file itself when it is
/// embedded, else the index file when that is, else 404.
pub fn plan_asset(path: String, found: bool, index_found: bool) -> (r: AssetPlan)
    ensures
        found ==> (r matches AssetPlan::Serve { path: p, content_type: c } && p == path
            && c@ == guessed_content_type(path@)),
        !found && index_found ==> (r matches AssetPlan::Serve { path: p, content_type: c } && p@
            == INDEX_ASSET@ && c@ == guessed_content_type(INDEX_ASSET@)),
        !found && !index_found ==> r is NotFound,
{
    if found {
        let c = content_type(path.as_str());
        AssetPlan::Serve { path, content_type: c }
    } else if index_found {
        AssetPlan::Serve { path: String::from_str(INDEX_ASSET), content_type: content_type(INDEX_ASSET) }
    } else {
        AssetPlan::NotFound
    }
}

} // verus!
