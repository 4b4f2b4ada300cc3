//! Staging uploaded files: filename sanitization, namespaced object keys and
//! public locators.
//!
//! The byte transfer to blob storage is the surrounding application's work;
//! this module decides, for each uploaded part, whether it is acceptable and
//! under which key it is stored.

use vstd::prelude::*;

use crate::strutil::spec_ends_with;
use crate::strutil::str_ends_with;

verus! {

/// What `sanitize_filename::sanitize_with_options` returns for a given name
/// under the pinned options: a function of the name alone.
pub uninterp spec fn sanitized_of(name: Seq<char>) -> Seq<char>;

/// `s` holds no path separator.
pub open spec fn free_of_separators(s: Seq<char>) -> bool {
    forall|i: int| 0 <= i < s.len() ==> s[i] != '/' && s[i] != '\\'
}

/// `s` cannot escape the directory it is joined under: it holds no path
/// separator and is not a dot segment.
pub open spec fn traversal_free_segment(s: Seq<char>) -> bool {
    &&& free_of_separators(s)
    &&& s != seq!['.']
    &&& s != seq!['.', '.']
}

/// Relies on sanitize_filename::sanitize_with_options, with every option
/// pinned so the result is a function of the name alone on any target: it
/// removes every occurrence of `/ \ ? < > : * | "` and of the control
/// characters, empties a name that is only dots or a reserved device name,
/// trims trailing dots and spaces, and at most truncates the outcome to a
/// 255-byte prefix — so the result never holds a separator, is never `.` or
/// `..`, and is empty for an empty name.
#[verifier::external_body]
fn sanitize_name(name: &str) -> (r: String)
    ensures
        r@ == sanitized_of(name@),
        traversal_free_segment(r@),
        name@.len() == 0 ==> r@.len() == 0,
{
    let options = sanitize_filename::Options { windows: true, truncate: true, replacement: "" };
    sanitize_filename::sanitize_with_options(name, options)
}

/// The media extensions this service accepts for processing.
pub open spec fn spec_has_permitted_extension(name: Seq<char>) -> bool {
    ||| spec_ends_with(name, ".mp4"@)
    ||| spec_ends_with(name, ".mp3"@)
    ||| spec_ends_with(name, ".wav"@)
    ||| spec_ends_with(name, ".m4a"@)
}

/// Whether `name` carries one of the permitted media extensions.
pub fn has_permitted_extension(name: &str) -> (r: bool)
    ensures
        r == spec_has_permitted_extension(name@),
{
    str_ends_with(name, ".mp4") || str_ends_with(name, ".mp3") || str_ends_with(name, ".wav")
        || str_ends_with(name, ".m4a")
}

/// Mathematical model of a staged upload.
pub ghost struct UploadedObjectView {
    pub object_key: Seq<char>,
    pub locator: Seq<char>,
}

/// A file persisted to blob storage: its namespaced object key and the
/// public locator derived from it.
pub struct UploadedObject {
    pub object_key: String,
    pub locator: String,
}

impl View for UploadedObject {
    type V = UploadedObjectView;

    open spec fn view(&self) -> UploadedObjectView {
        UploadedObjectView { object_key: self.object_key@, locator: self.locator@ }
    }
}

/// The key prefix every upload of `namespace` lands under.
pub open spec fn spec_key_prefix(namespace: Seq<char>) -> Seq<char> {
    "uploads/"@ + namespace + "/"@
}

/// The public locator of the object stored under `path`.
pub open spec fn spec_bucket_uri(path: Seq<char>) -> Seq<char> {
    "s3://transcribe-ids721/"@ + path
}

/// Build the key prefix `uploads/<namespace>/`.
pub fn key_prefix(namespace: &str) -> (r: String)
    ensures
        r@ == spec_key_prefix(namespace@),
{
    let mut p = String::new();
    p.append("uploads/");
    p.append(namespace);
    p.append("/");
    proof {
        assert(p@ =~= spec_key_prefix(namespace@));
    }
    p
}

/// Build the locator of the object stored under `path`.
pub fn bucket_uri(path: &str) -> (r: String)
    ensures
        r@ == spec_bucket_uri(path@),
{
    let mut u = String::new();
    u.append("s3://transcribe-ids721/");
    u.append(path);
    proof {
        assert(u@ =~= spec_bucket_uri(path@));
    }
    u
}

/// Where an upload named `filename` is staged under `namespace`: rejected
/// when its sanitized name carries no permitted extension, otherwise stored
/// under the namespace prefix joined with the sanitized name.
pub open spec fn spec_stage(namespace: Seq<char>, filename: Seq<char>) -> Option<
    UploadedObjectView,
> {
    let s = sanitized_of(filename);
    if spec_has_permitted_extension(s) {
        Option::Some(
            UploadedObjectView {
                object_key: spec_key_prefix(namespace) + s,
                locator: spec_bucket_uri(spec_key_prefix(namespace) + s),
            },
        )
    } else {
        Option::None
    }
}

/// The model of a staging outcome.
pub open spec fn staged_view(r: Option<UploadedObject>) -> Option<UploadedObjectView> {
    match r {
        Option::Some(obj) => Option::Some(obj@),
        Option::None => Option::None,
    }
}

/// Stage one uploaded file: sanitize its name, reject it unless a permitted
/// extension remains, and otherwise name its object key and locator. The
/// sanitized name can never escape the namespace prefix.
pub fn stage_file(namespace: &str, filename: &str) -> (r: Option<UploadedObject>)
    ensures
        staged_view(r) == spec_stage(namespace@, filename@),
        traversal_free_segment(sanitized_of(filename@)),
{
    let sanitized = sanitize_name(filename);
    if !has_permitted_extension(sanitized.as_str()) {
        return None;
    }
    let mut key = key_prefix(namespace);
    key.append(sanitized.as_str());
    let locator = bucket_uri(key.as_str());
    let obj = UploadedObject { object_key: key, locator };
    proof {
        assert(obj@.object_key =~= spec_key_prefix(namespace@) + sanitized_of(filename@));
        assert(obj@ == spec_stage(namespace@, filename@)->Some_0);
    }
    Some(obj)
}

/// Stage every uploaded file, in order: one outcome per filename.
pub fn stage_files(namespace: &str, filenames: &Vec<String>) -> (r: Vec<Option<UploadedObject>>)
    ensures
        r@.len() == filenames@.len(),
        forall|i: int|
            0 <= i < r@.len() ==> staged_view(#[trigger] r@[i]) == spec_stage(
                namespace@,
                filenames@[i]@,
            ),
{
    let mut out: Vec<Option<UploadedObject>> = Vec::new();
    let n = filenames.len();
    let mut i: usize = 0;
    while i < n
        invariant
            i <= n,
            n == filenames@.len(),
            out@.len() == i,
            forall|j: int|
                0 <= j < i ==> staged_view(#[trigger] out@[j]) == spec_stage(
                    namespace@,
                    filenames@[j]@,
                ),
        decreases n - i,
    {
        let staged = stage_file(namespace, filenames[i].as_str());
        out.push(staged);
        i = i + 1;
    }
    out
}

/// Whether at least one uploaded file was accepted. When none was, the
/// upload request is answered with a client error instead of a listing.
pub fn has_any_accepted(staged: &Vec<Option<UploadedObject>>) -> (r: bool)
    ensures
        r == exists|i: int| 0 <= i < staged@.len() && (#[trigger] staged@[i]) is Some,
{
    let n = staged.len();
    let mut i: usize = 0;
    while i < n
        invariant
            i <= n,
            n == staged@.len(),
            forall|j: int| 0 <= j < i ==> !((#[trigger] staged@[j]) is Some),
        decreases n - i,
    {
        if staged[i].is_some() {
            return true;
        }
        i = i + 1;
    }
    false
}

} // verus!
