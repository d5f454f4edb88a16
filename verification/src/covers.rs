//! Cover images: the size limit of an upload, where an upload is stored and served,
//! and which stored file a served cover is.
use vstd::prelude::*;
use vstd::string::*;
use crate::model::UploadResponse;
use crate::text::{occurs_at, replace_all, replaced, starts_with, starts_with_exec};

verus! {

/// Uploads larger than 5 MiB are refused.
pub open spec fn cover_too_large(len: nat) -> bool {
    len > 5 * 1024 * 1024
}

pub fn cover_too_large_exec(len: usize) -> (r: bool)
    ensures
        r == cover_too_large(len as nat),
{
    len > 5 * 1024 * 1024
}

/// Why an uploaded cover was refused.
#[derive(Clone, Copy, Debug, PartialEq, Eq, Structural)]
pub enum CoverFailure {
    /// Over the 5 MiB limit.
    TooLarge,
    /// Not an image the decoder reads.
    InvalidImage,
    /// The resized image could not be encoded as WebP.
    EncodingFailed,
}

impl CoverFailure {
    /// The status and message the upload is answered with.
    pub fn answer(&self) -> (r: (u16, &'static str))
        ensures
            r.0 == (if *self is TooLarge { 413u16 } else { 400u16 }),
            r.1@ == (match *self {
                CoverFailure::TooLarge => "Limit is 5MB"@,
                CoverFailure::InvalidImage => "Invalid image"@,
                CoverFailure::EncodingFailed => "Failed encoding"@,
            }),
    {
        match self {
            CoverFailure::TooLarge => (413, "Limit is 5MB"),
            CoverFailure::InvalidImage => (400, "Invalid image"),
            CoverFailure::EncodingFailed => (400, "Failed encoding"),
        }
    }
}

pub open spec fn bytes_result(r: Result<Vec<u8>, CoverFailure>) -> Result<Seq<u8>, CoverFailure> {
    match r {
        Ok(v) => Ok(v@),
        Err(e) => Err(e),
    }
}

/// Name for what the WebP conversion gives for the uploaded bytes and a bounding
/// box: the image decoded, scaled to fit `width` x `height` with its aspect ratio kept
/// (Lanczos3 filter) and encoded as WebP, or the step that failed.
pub uninterp spec fn webp_cover(data: Seq<u8>, width: u32, height: u32) -> Result<
    Seq<u8>,
    CoverFailure,
>;

/// Calls `image::load_from_memory`, `DynamicImage::resize(width, height, Lanczos3)`
/// and `DynamicImage::write_to` with `ImageFormat::WebP` into a buffer. Claims that the
/// outcome is a function of the bytes and the box alone, and that a failure is a
/// decoding or an encoding failure; what the bytes of the image are is not stated.
#[verifier::external_body]
fn convert_to_webp(data: &[u8], width: u32, height: u32) -> (r: Result<Vec<u8>, CoverFailure>)
    ensures
        bytes_result(r) == webp_cover(data@, width, height),
        r matches Err(e) ==> !(e is TooLarge),
{
    let img = match image::load_from_memory(data) {
        Ok(i) => i,
        Err(_) => return Err(CoverFailure::InvalidImage),
    };
    let img = img.resize(width, height, image::imageops::FilterType::Lanczos3);
    let mut buffer = std::io::Cursor::new(Vec::new());
    match img.write_to(&mut buffer, image::ImageFormat::WebP) {
        Ok(()) => Ok(buffer.into_inner()),
        Err(_) => Err(CoverFailure::EncodingFailed),
    }
}

/// Stored covers fit in 600 x 900 pixels.
pub const COVER_WIDTH: u32 = 600;

pub const COVER_HEIGHT: u32 = 900;

/// The stored form of an uploaded cover: refused over 5 MiB, else the upload as WebP,
/// scaled to fit `COVER_WIDTH` x `COVER_HEIGHT`.
pub fn prepare_cover(data: &[u8]) -> (r: Result<Vec<u8>, CoverFailure>)
    ensures
        cover_too_large(data@.len()) <==> r == Err::<Vec<u8>, CoverFailure>(CoverFailure::TooLarge),
        !cover_too_large(data@.len()) ==> bytes_result(r) == webp_cover(data@, COVER_WIDTH, COVER_HEIGHT),
{
    if cover_too_large_exec(data.len()) {
        return Err(CoverFailure::TooLarge);
    }
    convert_to_webp(data, COVER_WIDTH, COVER_HEIGHT)
}

/// Stored covers are spread over directories named after the first two pairs of
/// characters of their id.
pub open spec fn cover_dir(id: Seq<char>) -> Seq<char> {
    "uploads/"@ + id.subrange(0, 2) + seq!['/'] + id.subrange(2, 4)
}

pub open spec fn cover_file(id: Seq<char>) -> Seq<char> {
    cover_dir(id) + seq!['/'] + id + ".webp"@
}

pub open spec fn cover_url(id: Seq<char>) -> Seq<char> {
    "/static/"@ + id.subrange(0, 2) + seq!['/'] + id.subrange(2, 4) + seq!['/'] + id + ".webp"@
}

/// Where the cover with the (ASCII) id `file_id` is stored: its directory, its file,
/// and the URL it is served at.
pub fn cover_paths(file_id: &str) -> (r: (String, String, UploadResponse))
    requires
        file_id@.len() >= 4,
    ensures
        r.0@ == cover_dir(file_id@),
        r.1@ == cover_file(file_id@),
        r.2.url@ == cover_url(file_id@),
{
    let a = file_id.substring_char(0, 2);
    let b = file_id.substring_char(2, 4);
    let mut dir = String::from_str("uploads/");
    dir.append(a);
    dir.push('/');
    dir.append(b);
    let mut file = dir.clone();
    file.push('/');
    file.append(file_id);
    file.append(".webp");
    let mut url = String::from_str("/static/");
    url.append(a);
    url.push('/');
    url.append(b);
    url.push('/');
    url.append(file_id);
    url.append(".webp");
    (dir, file, UploadResponse { url })
}

/// A character of the hyphenated lower-case form of a UUID.
pub open spec fn uuid_text_char(c: char) -> bool {
    ('0' <= c && c <= '9') || ('a' <= c && c <= 'f') || c == '-'
}

/// Calls `uuid::Uuid::new_v4()` and renders it with `to_string`: a random UUID in the
/// hyphenated form, 36 characters of lower-case hex digits and hyphens. Which UUID
/// comes out is left open.
#[verifier::external_body]
fn fresh_cover_id() -> (r: String)
    ensures
        r@.len() == 36,
        forall|k: int| 0 <= k < 36 ==> uuid_text_char(#[trigger] r@[k]),
{
    uuid::Uuid::new_v4().to_string()
}

/// Where a new upload goes: under a fresh random id, its directory, its file and the
/// URL it is served at (see `cover_paths`).
pub fn new_cover_location() -> (r: (String, String, UploadResponse))
    ensures
        exists|id: Seq<char>|
            #![trigger cover_file(id)]
            id.len() == 36 && (forall|k: int| 0 <= k < id.len() ==> id[k] != '/') && r.0@
                == cover_dir(id) && r.1@ == cover_file(id) && r.2.url@ == cover_url(id),
{
    let id = fresh_cover_id();
    let r = cover_paths(id.as_str());
    assert(forall|k: int| 0 <= k < id@.len() ==> id@[k] != '/') by {
        assert forall|k: int| 0 <= k < id@.len() implies id@[k] != '/' by {
            assert(uuid_text_char(id@[k]));
        }
    }
    assert(r.1@ == cover_file(id@));
    r
}

/// The stored file of a served cover: `/static/...` maps to `uploads/...`; covers
/// elsewhere are no file of this service.
pub open spec fn local_cover_path(url: Seq<char>) -> Option<Seq<char>> {
    if starts_with(url, "/static/"@) {
        Some(replaced(url, "/static/"@, "uploads/"@))
    } else {
        None
    }
}

pub fn local_cover_path_exec(url: &str) -> (r: Option<String>)
    ensures
        crate::model::opt_string_view(r) == local_cover_path(url@),
{
    if starts_with_exec(url, "/static/") {
        proof {
            reveal_strlit("/static/");
        }
        Some(replace_all(url, "/static/", "uploads/"))
    } else {
        None
    }
}

/// The local files of the covers in `urls`, in order: one per cover served from
/// `/static/`.
pub open spec fn local_cover_files(urls: Seq<Option<String>>) -> Seq<Seq<char>>
    decreases urls.len(),
{
    if urls.len() == 0 {
        seq![]
    } else {
        let rest = local_cover_files(urls.drop_last());
        match urls.last() {
            Some(u) => match local_cover_path(u@) {
                Some(f) => rest.push(f),
                None => rest,
            },
            None => rest,
        }
    }
}

/// The cover files to remove after deleting books whose covers were `cover_urls`:
/// none when no row was deleted, else the stored file of each cover served from
/// `/static/` (covers elsewhere belong to no file of this service).
pub fn covers_to_remove(cover_urls: &Vec<Option<String>>, rows_affected: u64) -> (r: Vec<String>)
    ensures
        rows_affected == 0 ==> r@.len() == 0,
        rows_affected > 0 ==> crate::model::texts_of(r@) == local_cover_files(cover_urls@),
{
    let mut out: Vec<String> = Vec::new();
    if rows_affected == 0 {
        return out;
    }
    let n = cover_urls.len();
    let mut i: usize = 0;
    while i < n
        invariant
            n == cover_urls@.len(),
            i <= n,
            crate::model::texts_of(out@) == local_cover_files(cover_urls@.take(i as int)),
        decreases n - i,
    {
        assert(cover_urls@.take(i + 1).drop_last() =~= cover_urls@.take(i as int));
        assert(cover_urls@.take(i + 1).last() == cover_urls@[i as int]);
        if let Some(url) = &cover_urls[i] {
            if let Some(f) = local_cover_path_exec(url.as_str()) {
                let ghost before = out@;
                out.push(f);
                assert(crate::model::texts_of(out@) =~= crate::model::texts_of(before).push(f@));
            }
        }
        i = i + 1;
    }
    assert(cover_urls@.take(n as int) =~= cover_urls@);
    out
}

proof fn lemma_replaced_absent(s: Seq<char>, from: Seq<char>, to: Seq<char>)
    requires
        from.len() > 0,
        forall|i: int| !occurs_at(s, from, i),
    ensures
        replaced(s, from, to) == s,
    decreases s.len(),
{
    if s.len() >= from.len() {
        assert(!occurs_at(s, from, 0));
        assert(s.subrange(0, from.len() as int) =~= s.take(from.len() as int));
        let t = s.skip(1);
        assert forall|i: int| !occurs_at(t, from, i) by {
            if occurs_at(t, from, i) {
                assert(s.subrange(i + 1, i + 1 + from.len()) =~= t.subrange(i, i + from.len()));
                assert(occurs_at(s, from, i + 1));
            }
        }
        lemma_replaced_absent(t, from, to);
        assert(seq![s[0]] + t =~= s);
    }
}

/// A cover uploaded under an id (one without `/`, as UUIDs are) is served at a URL
/// whose stored file, the one deleted with its book, is the file the upload wrote.
pub proof fn law_uploaded_cover_maps_back(id: Seq<char>)
    requires
        id.len() >= 4,
        forall|k: int| 0 <= k < id.len() ==> id[k] != '/',
    ensures
        local_cover_path(cover_url(id)) == Some(cover_file(id)),
{
    reveal_strlit("/static/");
    reveal_strlit("uploads/");
    reveal_strlit(".webp");
    let p = "/static/"@;
    let a = id.subrange(0, 2);
    let b = id.subrange(2, 4);
    let rest = a + seq!['/'] + b + seq!['/'] + id + ".webp"@;
    let url = cover_url(id);
    assert(url =~= p + rest);
    assert(url.take(8) =~= p);
    assert(url.skip(8) =~= rest);
    assert forall|i: int| !occurs_at(rest, p, i) by {
        if occurs_at(rest, p, i) {
            assert(rest.subrange(i, i + 8)[0] == '/');
            assert(rest[i] == '/');
            assert(rest.subrange(i, i + 8)[3] == 'a');
            assert(rest[i + 3] == 'a');
            assert(rest.subrange(i, i + 8)[7] == '/');
            assert(rest[i + 7] == '/');
            if i < 2 {
                assert(rest[i] == id[i]);
            } else if i == 2 {
                assert(rest[5] == '/');
            } else if i < 5 {
                assert(rest[i] == id[i - 1]);
            } else if i == 5 {
                if 12 < 6 + id.len() {
                    assert(rest[12] == id[6]);
                } else {
                    assert(rest[12] == ".webp"@[12 - 6 - id.len()]);
                }
            } else if i < 6 + id.len() {
                assert(rest[i] == id[i - 6]);
            } else {
                assert(rest[i] == ".webp"@[i - 6 - id.len()]);
            }
        }
    }
    lemma_replaced_absent(rest, p, "uploads/"@);
    assert(replaced(url, p, "uploads/"@) == "uploads/"@ + replaced(url.skip(8), p, "uploads/"@));
    assert("uploads/"@ + rest =~= cover_file(id));
}

/// Deleting a book removes exactly the file its uploaded cover was written to: for
/// a book whose cover is the URL an upload under `id` answered, the files to remove
/// are that upload's file alone.
pub proof fn law_deleted_book_removes_its_cover(id: Seq<char>, url: String)
    requires
        id.len() >= 4,
        forall|k: int| 0 <= k < id.len() ==> id[k] != '/',
        url@ == cover_url(id),
    ensures
        local_cover_files(seq![Some(url)]) == seq![cover_file(id)],
{
    law_uploaded_cover_maps_back(id);
    let urls = seq![Some(url)];
    assert(urls.drop_last() =~= Seq::<Option<String>>::empty());
    assert(local_cover_files(urls.drop_last()) == Seq::<Seq<char>>::empty());
    assert(urls.last() == Some(url));
    assert(local_cover_files(urls) =~= seq![cover_file(id)]);
}

/// A cover this service did not store (not served from `/static/`), or no cover at
/// all, never causes a file to be removed.
pub proof fn law_foreign_covers_are_kept(url: String)
    requires
        !starts_with(url@, "/static/"@),
    ensures
        local_cover_files(seq![Some(url)]).len() == 0,
        local_cover_files(seq![None::<String>]).len() == 0,
{
    let some = seq![Some(url)];
    let none = seq![None::<String>];
    assert(some.drop_last() =~= Seq::<Option<String>>::empty());
    assert(none.drop_last() =~= Seq::<Option<String>>::empty());
    assert(local_cover_files(some.drop_last()) == Seq::<Seq<char>>::empty());
    assert(local_cover_files(none.drop_last()) == Seq::<Seq<char>>::empty());
    assert(some.last() == Some(url));
    assert(none.last() == None::<String>);
    assert(local_cover_path(url@) is None);
}

} // verus!
