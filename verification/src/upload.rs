//! What to do with each entry of an upload request and with each uploaded
//! multipart file: where to store it, which extension it has, where its
//! cropped copy goes, and when the entry cannot be handled.

use vstd::prelude::*;
use crate::data_url::{
    all_lower, base64_encoding, base64_decoding, data_image_slash, data_url_text,
    decode_payload, embedded_parts, lemma_data_url_round_trip, split_data_url,
};
use crate::json::{json_array_member, parse_array_member};
use crate::paths::{
    lemma_file_name_of_child, lemma_name_extension_after_last_dot, lemma_name_extension_shape,
    extension_of, file_name, file_name_of, lemma_file_name_shape, name_ext,
    no_separator,
};
use crate::text::{
    chars_of, decimal, has_prefix, push_decimal, str_starts_with, string_of,
};

verus! {

/// `upload/`, the directory uploads are stored in.
pub open spec fn upload_dir() -> Seq<char> {
    seq!['u', 'p', 'l', 'o', 'a', 'd', '/']
}

/// `http`, the prefix that marks an entry to download.
pub open spec fn http_prefix() -> Seq<char> {
    seq!['h', 't', 't', 'p']
}

/// `.ext`, or nothing for an empty extension (as `Path::with_extension`
/// adds it to a name without an extension).
pub open spec fn dotted(ext: Seq<char>) -> Seq<char> {
    if ext.len() == 0 {
        seq![]
    } else {
        seq!['.'] + ext
    }
}

/// `upload/byjson_<n>` with the extension `ext`.
pub open spec fn embedded_file_name(n: nat, ext: Seq<char>) -> Seq<char> {
    upload_dir() + seq!['b', 'y', 'j', 's', 'o', 'n', '_'] + decimal(n) + dotted(ext)
}

/// `upload/crop` with the extension `ext`: where the cropped copy goes.
pub open spec fn crop_path_for(ext: Seq<char>) -> Seq<char> {
    upload_dir() + seq!['c', 'r', 'o', 'p'] + dotted(ext)
}

/// `Path::new("upload").join(name)`: `name` itself when it is absolute,
/// else `name` under `upload/`.
pub open spec fn upload_join(name: Seq<char>) -> Seq<char> {
    if name.len() > 0 && name[0] == '/' {
        name
    } else {
        upload_dir() + name
    }
}

/// Where a downloaded file is stored, and under which extension.
#[derive(Debug, PartialEq, Eq)]
pub enum RemoteTarget {
    Named { file_name: String, ext: String, crop_path: String },
    /// The address has no last path component to name the file after.
    NoFileName,
    /// The file name has no extension.
    NoExtension,
}

/// What to do with one entry of an upload request.
#[derive(Debug, PartialEq, Eq)]
pub enum EntryPlan {
    /// An embedded image: store `data` at `file_name`, crop it to `crop_path`.
    Embedded { ext: String, data: Vec<u8>, file_name: String, crop_path: String },
    /// An image to download from `url`.
    Remote { url: String, target: RemoteTarget },
    /// Neither an embedded image nor an address: nothing is done.
    Skipped,
    /// Starts like an embedded image, but has no `;base64,` header.
    NoHeader,
    /// The payload is not Base64 that the decoder accepts.
    BadPayload,
}

/// Why a request cannot be planned at all.
#[derive(Debug)]
pub enum UploadError {
    /// The request body is not JSON.
    Json(serde_json::Error),
    /// The header pattern could not be built.
    Pattern(regex::Error),
}

/// The target of a download from `url`, as `remote_target` computes it.
pub open spec fn remote_target_spec(url: Seq<char>, target: RemoteTarget) -> bool {
    match file_name_of(url) {
        None => target is NoFileName,
        Some(name) => match extension_of(upload_join(name)) {
            None => target is NoExtension,
            Some(ext) => match target {
                RemoteTarget::Named { file_name, ext: e, crop_path } => {
                    &&& file_name@ == upload_join(name)
                    &&& e@ == ext
                    &&& crop_path@ == crop_path_for(ext)
                },
                _ => false,
            },
        },
    }
}

/// The plan for entry number `n` with text `entry`.
pub open spec fn entry_plan_spec(n: nat, entry: Seq<char>, plan: EntryPlan) -> bool {
    if has_prefix(entry, data_image_slash()) {
        match embedded_parts(entry) {
            None => plan is NoHeader,
            Some((ext, payload)) => match base64_decoding(payload) {
                None => plan is BadPayload,
                Some(bytes) => match plan {
                    EntryPlan::Embedded { ext: e, data, file_name, crop_path } => {
                        &&& e@ == ext
                        &&& data@ == bytes
                        &&& file_name@ == embedded_file_name(n, ext)
                        &&& crop_path@ == crop_path_for(ext)
                    },
                    _ => false,
                },
            },
        }
    } else if has_prefix(entry, http_prefix()) {
        match plan {
            EntryPlan::Remote { url, target } => url@ == entry && remote_target_spec(entry, target),
            _ => false,
        }
    } else {
        plan is Skipped
    }
}

/// How handling an entry fails the whole request.
#[derive(Debug, Clone, Copy, PartialEq, Eq, Structural)]
pub enum EntryFailure {
    /// A value the entry needs is missing (no header, no file name, no
    /// extension).
    Missing,
    /// A value of the entry is invalid (a payload that does not decode).
    Invalid,
}

/// The work an entry asks for, in order.
#[derive(Debug, Clone, Copy, PartialEq, Eq, Structural)]
pub enum EntryWork {
    /// Store the embedded image, crop and encode it.
    Store,
    /// Send the download request, store the answer, crop and encode it.
    Fetch,
    /// Send the download request, then fail the request.
    FetchThenFail(EntryFailure),
    /// Nothing to do.
    Skip,
    /// Fail the request at once.
    Fail(EntryFailure),
}

/// The message a failure of this kind ends the request with.
pub open spec fn failure_message_text(f: EntryFailure) -> Seq<char> {
    match f {
        EntryFailure::Missing => "called `Option::unwrap()` on a `None` value"@,
        EntryFailure::Invalid => "called `Result::unwrap()` on an `Err` value"@,
    }
}

impl EntryFailure {
    /// The message the request ends with.
    pub fn message(&self) -> (res: String)
        ensures
            res@ == failure_message_text(*self),
    {
        match self {
            EntryFailure::Missing => String::from_str("called `Option::unwrap()` on a `None` value"),
            EntryFailure::Invalid => String::from_str("called `Result::unwrap()` on an `Err` value"),
        }
    }
}

/// The work for a plan: what is done and when the request fails.
pub open spec fn work_of(plan: EntryPlan) -> EntryWork {
    match plan {
        EntryPlan::Embedded { .. } => EntryWork::Store,
        EntryPlan::Remote { target, .. } => match target {
            RemoteTarget::Named { .. } => EntryWork::Fetch,
            _ => EntryWork::FetchThenFail(EntryFailure::Missing),
        },
        EntryPlan::Skipped => EntryWork::Skip,
        EntryPlan::NoHeader => EntryWork::Fail(EntryFailure::Missing),
        EntryPlan::BadPayload => EntryWork::Fail(EntryFailure::Invalid),
    }
}

impl EntryPlan {
    /// The work the entry asks for. A download is requested before its
    /// missing file name or extension fails the request, as the request is
    /// sent before the name is looked at.
    pub fn work(&self) -> (res: EntryWork)
        ensures
            res == work_of(*self),
    {
        match self {
            EntryPlan::Embedded { .. } => EntryWork::Store,
            EntryPlan::Remote { target, .. } => match target {
                RemoteTarget::Named { .. } => EntryWork::Fetch,
                _ => EntryWork::FetchThenFail(EntryFailure::Missing),
            },
            EntryPlan::Skipped => EntryWork::Skip,
            EntryPlan::NoHeader => EntryWork::Fail(EntryFailure::Missing),
            EntryPlan::BadPayload => EntryWork::Fail(EntryFailure::Invalid),
        }
    }

    /// Whether handling the entry ends the whole request with a failure: a
    /// data URL without a header or with a payload that does not decode, or a
    /// download whose address gives no file name or no extension (found
    /// once the download request has been sent).
    pub fn aborts(&self) -> (res: bool)
        ensures
            res == (self is NoHeader || self is BadPayload || (self matches EntryPlan::Remote {
                target,
                ..
            } && !(target is Named))),
    {
        match self {
            EntryPlan::NoHeader => true,
            EntryPlan::BadPayload => true,
            EntryPlan::Remote { target, .. } => match target {
                RemoteTarget::Named { .. } => false,
                _ => true,
            },
            _ => false,
        }
    }
}

/// `s` followed by `.ext` when `ext` is not empty.
fn push_dotted(s: &mut String, ext: &str)
    ensures
        final(s)@ == old(s)@ + dotted(ext@),
{
    if ext.unicode_len() > 0 {
        s.push('.');
        s.append(ext);
    }
}

/// `upload/crop` with the extension `ext`.
pub fn crop_path(ext: &str) -> (res: String)
    ensures
        res@ == crop_path_for(ext@),
{
    let mut res = String::from_str("upload/crop");
    proof {
        reveal_strlit("upload/crop");
        assert("upload/crop"@ =~= upload_dir() + seq!['c', 'r', 'o', 'p']);
    }
    push_dotted(&mut res, ext);
    res
}

/// `upload/byjson_<n>` with the extension `ext`.
pub fn embedded_path(n: usize, ext: &str) -> (res: String)
    ensures
        res@ == embedded_file_name(n as nat, ext@),
{
    let mut res = String::from_str("upload/byjson_");
    proof {
        reveal_strlit("upload/byjson_");
        assert("upload/byjson_"@ =~= upload_dir() + seq!['b', 'y', 'j', 's', 'o', 'n', '_']);
    }
    push_decimal(&mut res, n as u64);
    push_dotted(&mut res, ext);
    res
}

/// `Path::new("upload").join(name)` over characters.
pub fn join_upload(name: &Vec<char>) -> (res: Vec<char>)
    ensures
        res@ == upload_join(name@),
{
    if name.len() > 0 && name[0] == '/' {
        let mut res: Vec<char> = Vec::new();
        let mut i: usize = 0;
        while i < name.len()
            invariant
                i <= name@.len(),
                res@ == name@.take(i as int),
            decreases name@.len() - i,
        {
            res.push(name[i]);
            i = i + 1;
            assert(res@ == name@.take(i as int));
        }
        assert(name@.take(i as int) == name@);
        res
    } else {
        let mut res: Vec<char> = vec!['u', 'p', 'l', 'o', 'a', 'd', '/'];
        assert(res@ == upload_dir());
        let mut i: usize = 0;
        while i < name.len()
            invariant
                i <= name@.len(),
                res@ == upload_dir() + name@.take(i as int),
            decreases name@.len() - i,
        {
            res.push(name[i]);
            i = i + 1;
            assert(res@ == upload_dir() + name@.take(i as int));
        }
        assert(name@.take(i as int) == name@);
        res
    }
}

/// Where a file downloaded from `url` is stored: `upload/` and the last
/// component of the address, under the extension of that name.
pub fn remote_target(url: &str) -> (res: RemoteTarget)
    ensures
        remote_target_spec(url@, res),
{
    let cs = chars_of(url);
    match file_name(&cs) {
        None => RemoteTarget::NoFileName,
        Some(name) => {
            let joined = join_upload(&name);
            match file_name(&joined) {
                None => RemoteTarget::NoExtension,
                Some(last) => match name_ext(&last) {
                    None => RemoteTarget::NoExtension,
                    Some(ext_chars) => {
                        let ext = string_of(ext_chars.as_slice());
                        let crop = crop_path(ext.as_str());
                        RemoteTarget::Named {
                            file_name: string_of(joined.as_slice()),
                            ext,
                            crop_path: crop,
                        }
                    },
                },
            }
        },
    }
}

/// A downloaded image is stored directly in the upload directory: its file
/// is `upload/` followed by one plain name (not empty, neither `.` nor `..`,
/// without `/`).
pub proof fn lemma_remote_file_in_upload_dir(url: Seq<char>, target: RemoteTarget)
    requires
        remote_target_spec(url, target),
    ensures
        target matches RemoteTarget::Named { file_name, .. } ==> exists|name: Seq<char>|
            #![trigger upload_dir() + name]
            file_name@ == upload_dir() + name && name.len() > 0 && name != seq!['.'] && name
                != seq!['.', '.'] && no_separator(name),
{
    lemma_file_name_shape(url, url.len() as int);
    if let RemoteTarget::Named { file_name, .. } = target {
        let name = file_name_of(url)->0;
        assert(name[0] != '/');
        assert(file_name@ == upload_dir() + name);
    }
}

/// Every entry that begins with `http` is downloaded, from the entry itself
/// as address: `https` addresses as much as `http` ones.
pub proof fn lemma_http_entries_are_downloaded(n: nat, entry: Seq<char>, plan: EntryPlan)
    requires
        entry_plan_spec(n, entry, plan),
        entry.len() >= 4,
        entry.subrange(0, 4) == seq!['h', 't', 't', 'p'],
    ensures
        plan matches EntryPlan::Remote { url, .. } && url@ == entry,
{
    assert(entry[0] == 'h');
    assert(!has_prefix(entry, data_image_slash())) by {
        if has_prefix(entry, data_image_slash()) {
            assert(entry.subrange(0, 11)[0] == entry[0]);
        }
    }
    assert(has_prefix(entry, http_prefix()));
}

/// An entry that begins neither with `data:image/` nor with `http` is skipped.
pub proof fn lemma_other_entries_are_skipped(n: nat, entry: Seq<char>, plan: EntryPlan)
    requires
        entry_plan_spec(n, entry, plan),
        !(entry.len() >= 4 && entry.subrange(0, 4) == seq!['h', 't', 't', 'p']),
        !(entry.len() >= 11 && entry.subrange(0, 11) == seq![
            'd', 'a', 't', 'a', ':', 'i', 'm', 'a', 'g', 'e', '/',
        ]),
    ensures
        plan is Skipped,
{
    assert(data_image_slash() =~= seq!['d', 'a', 't', 'a', ':', 'i', 'm', 'a', 'g', 'e', '/']);
}

/// A multipart file named `stem.e` (a non-empty `stem` without `/`, a
/// non-empty `e` without `.` or `/`, of any length) is stored as
/// `upload/stem.e`, under the extension `e`, and cropped to `upload/crop.e`.
pub proof fn lemma_raw_save_named_file(stem: Seq<char>, e: Seq<char>, plan: SavePlan)
    requires
        save_plan_spec(Some(stem + seq!['.'] + e), plan),
        stem.len() > 0,
        forall|i: int| 0 <= i < stem.len() ==> #[trigger] stem[i] != '/',
        e.len() > 0,
        forall|i: int| 0 <= i < e.len() ==> #[trigger] e[i] != '.' && e[i] != '/',
    ensures
        plan matches SavePlan::Save { path, ext, crop_path } && path@ == seq![
            'u', 'p', 'l', 'o', 'a', 'd', '/',
        ] + stem + seq!['.'] + e && ext@ == e && crop_path@ == seq![
            'u', 'p', 'l', 'o', 'a', 'd', '/', 'c', 'r', 'o', 'p', '.',
        ] + e,
{
    let name = stem + seq!['.'] + e;
    assert(name[0] == stem[0]);
    assert(upload_join(name) == upload_dir() + name);
    assert forall|i: int| 0 <= i < name.len() implies #[trigger] name[i] != '/' by {
        if i < stem.len() {
            assert(name[i] == stem[i]);
        } else if i > stem.len() {
            assert(name[i] == e[i - stem.len() - 1]);
        }
    }
    assert(name.len() >= 3);
    lemma_file_name_of_child(upload_dir(), name);
    lemma_name_extension_after_last_dot(stem, e);
    assert(upload_dir() + stem + seq!['.'] + e =~= upload_dir() + name);
    assert(crop_path_for(e) =~= seq!['u', 'p', 'l', 'o', 'a', 'd', '/', 'c', 'r', 'o', 'p', '.'] + e);
}

/// The extension of a downloaded image is the whole text after the last dot
/// of its stored file name: the name is some text, a dot and the extension,
/// the extension holds no dot, and the crop path carries the same extension.
pub proof fn lemma_remote_extension_after_last_dot(url: Seq<char>, target: RemoteTarget)
    requires
        remote_target_spec(url, target),
    ensures
        target matches RemoteTarget::Named { file_name, ext, crop_path } ==> {
            &&& exists|s: Seq<char>| #[trigger] (s + seq!['.']) + ext@ == file_name@
            &&& forall|i: int| 0 <= i < ext@.len() ==> #[trigger] ext@[i] != '.'
            &&& ext@.len() > 0 ==> crop_path@ == seq![
                'u', 'p', 'l', 'o', 'a', 'd', '/', 'c', 'r', 'o', 'p', '.',
            ] + ext@
            &&& ext@.len() == 0 ==> crop_path@ == seq!['u', 'p', 'l', 'o', 'a', 'd', '/', 'c', 'r', 'o', 'p']
        },
{
    lemma_file_name_shape(url, url.len() as int);
    if let RemoteTarget::Named { file_name, ext, crop_path } = target {
        let name = file_name_of(url)->0;
        assert(name[0] != '/');
        assert(upload_join(name) == upload_dir() + name);
        lemma_file_name_of_child(upload_dir(), name);
        lemma_name_extension_shape(name);
        let x = ext@;
        let pre = name.subrange(0, name.len() - x.len() - 1);
        let s = upload_dir() + pre;
        assert((s + seq!['.']) + x =~= file_name@);
        if x.len() > 0 {
            assert(crop_path@ =~= seq!['u', 'p', 'l', 'o', 'a', 'd', '/', 'c', 'r', 'o', 'p', '.'] + x);
        } else {
            assert(crop_path@ =~= seq!['u', 'p', 'l', 'o', 'a', 'd', '/', 'c', 'r', 'o', 'p']);
        }
    }
}

/// Plans entry number `n` of an upload request. An entry that starts with
/// `data:image/` is an embedded image, one that starts with `http` is an
/// image to download, and any other entry is skipped.
pub fn plan_entry(n: usize, entry: &str) -> (res: Result<EntryPlan, UploadError>)
    ensures
        res is Ok,
        res matches Ok(plan) ==> entry_plan_spec(n as nat, entry@, plan),
        entry@.len() >= 4 && entry@.subrange(0, 4) == seq!['h', 't', 't', 'p'] ==> (res matches Ok(
            EntryPlan::Remote { url, .. },
        ) && url@ == entry@),
        forall|ext: Seq<char>, image: Seq<u8>|
            all_lower(ext) && entry@ == #[trigger] data_url_text(ext, base64_encoding(image))
                ==> (res matches Ok(EntryPlan::Embedded { ext: e, data, file_name, crop_path })
                && e@ == ext && data@ == image && file_name@ == embedded_file_name(n as nat, ext)
                && crop_path@ == crop_path_for(ext)),
{
    proof {
        reveal_strlit("data:image/");
        reveal_strlit("http");
        assert("data:image/"@ =~= data_image_slash());
        assert("http"@ =~= http_prefix());
    }
    let res = if str_starts_with(entry, "data:image/") {
        match split_data_url(entry) {
            Err(e) => Err(UploadError::Pattern(e)),
            Ok(None) => Ok(EntryPlan::NoHeader),
            Ok(Some((ext, payload))) => match decode_payload(payload) {
                None => Ok(EntryPlan::BadPayload),
                Some(data) => {
                    let file_name = embedded_path(n, ext.as_str());
                    let crop_path = crop_path(ext.as_str());
                    Ok(EntryPlan::Embedded { ext, data, file_name, crop_path })
                },
            },
        }
    } else if str_starts_with(entry, "http") {
        let target = remote_target(entry);
        Ok(EntryPlan::Remote { url: String::from_str(entry), target })
    } else {
        Ok(EntryPlan::Skipped)
    };
    proof {
        if entry@.len() >= 4 && entry@.subrange(0, 4) == seq!['h', 't', 't', 'p'] {
            lemma_http_entries_are_downloaded(n as nat, entry@, res->Ok_0);
        }
        assert forall|ext: Seq<char>, image: Seq<u8>|
            all_lower(ext) && entry@ == #[trigger] data_url_text(ext, base64_encoding(image))
                implies (res matches Ok(EntryPlan::Embedded { ext: e, data, file_name, crop_path })
                && e@ == ext && data@ == image && file_name@ == embedded_file_name(n as nat, ext)
                && crop_path@ == crop_path_for(ext)) by {
            lemma_data_url_round_trip(ext, image);
            assert(entry@.subrange(0, 11) =~= data_image_slash());
        }
    }
    res
}

/// The `files` member of an upload request: `Err` when the body is not
/// JSON, `Ok(None)` when there is no `files` array, and else its elements
/// (`None` for an element that is not a string).
pub fn request_files(text: &str) -> (res: Result<Option<Vec<Option<String>>>, UploadError>)
    ensures
        match res {
            Ok(files) => json_array_member(text@, "files"@) == Some(files.deep_view()),
            Err(e) => e is Json && json_array_member(text@, "files"@) is None,
        },
{
    match parse_array_member(text, "files") {
        Ok(files) => Ok(files),
        Err(e) => Err(UploadError::Json(e)),
    }
}


/// `images[]`, the name a multipart file without a file name is stored under.
pub open spec fn default_photo_name() -> Seq<char> {
    seq!['i', 'm', 'a', 'g', 'e', 's', '[', ']']
}

/// Where an uploaded multipart file is stored.
#[derive(Debug, PartialEq, Eq)]
pub enum SavePlan {
    /// Store the file at `path`, crop it to `crop_path`.
    Save { path: String, ext: String, crop_path: String },
    /// The stored name has no extension.
    NoExtension,
}

/// The plan for a multipart file sent under the name `name`.
pub open spec fn save_plan_spec(name: Option<Seq<char>>, plan: SavePlan) -> bool {
    let photo = match name {
        Some(n) => n,
        None => default_photo_name(),
    };
    match extension_of(upload_join(photo)) {
        None => plan is NoExtension,
        Some(ext) => match plan {
            SavePlan::Save { path, ext: e, crop_path } => {
                &&& path@ == upload_join(photo)
                &&& e@ == ext
                &&& crop_path@ == crop_path_for(ext)
            },
            _ => false,
        },
    }
}

/// Plans the storage of a multipart file with the given file name (or
/// `images[]` when it has none): under `upload/`, with the extension of the
/// stored name.
pub fn plan_raw_save(name: Option<String>) -> (res: SavePlan)
    ensures
        save_plan_spec(name.deep_view(), res),
{
    let photo = match name {
        Some(n) => n,
        None => {
            proof {
                reveal_strlit("images[]");
                assert("images[]"@ =~= default_photo_name());
            }
            String::from_str("images[]")
        },
    };
    let path = join_upload(&chars_of(photo.as_str()));
    match file_name(&path) {
        None => SavePlan::NoExtension,
        Some(last) => match name_ext(&last) {
            None => SavePlan::NoExtension,
            Some(ext_chars) => {
                let ext = string_of(ext_chars.as_slice());
                let crop = crop_path(ext.as_str());
                SavePlan::Save { path: string_of(path.as_slice()), ext, crop_path: crop }
            },
        },
    }
}

} // verus!
