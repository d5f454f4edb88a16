//! Book metadata from the online catalogues (Google Books, Open Library): the
//! request URLs, the reading of their JSON answers, and the fallback between them.
use vstd::prelude::*;
use vstd::string::*;
use crate::json::{
    as_int, as_list, as_text, get, get_in, get_opt, int_of, json_get, list_of, opt_ref, text_of,
    JsonValue,
};
use crate::model::{opt_string_view, opt_strings_view, texts_of, BookMetadataResponse, MetadataView};
use crate::text::{ascii_upper_text, i64_decimal, is_ascii_text, replace_all, replaced, signed_decimal};

verus! {

// ------------------------------------------------------------------
// Lists inside answers
// ------------------------------------------------------------------


/// The items of an array that are strings.
pub open spec fn string_items(items: Seq<JsonValue>) -> Seq<Seq<char>>
    decreases items.len(),
{
    if items.len() == 0 {
        seq![]
    } else {
        string_items(items.drop_last()) + match items.last() {
            JsonValue::Str(s) => seq![s@],
            _ => seq![],
        }
    }
}

/// The string member `key` of each item that has one.
pub open spec fn member_items(items: Seq<JsonValue>, key: Seq<char>) -> Seq<Seq<char>>
    decreases items.len(),
{
    if items.len() == 0 {
        seq![]
    } else {
        member_items(items.drop_last(), key) + match as_text(json_get(items.last(), key)) {
            Some(s) => seq![s],
            None => seq![],
        }
    }
}

pub open spec fn nonempty(list: Seq<Seq<char>>) -> Option<Seq<Seq<char>>> {
    if list.len() == 0 {
        None
    } else {
        Some(list)
    }
}

/// The strings of an array, or nothing when there are none.
pub open spec fn string_list(v: Option<JsonValue>) -> Option<Seq<Seq<char>>> {
    match as_list(v) {
        Some(items) => nonempty(string_items(items)),
        None => None,
    }
}

/// The `name` of each item of an array, or nothing when there are none.
pub open spec fn name_list(v: Option<JsonValue>) -> Option<Seq<Seq<char>>> {
    match as_list(v) {
        Some(items) => nonempty(member_items(items, "name"@)),
        None => None,
    }
}

/// The language codes of an Open Library `languages` array (`/languages/eng` -> `eng`).
pub open spec fn language_list(v: Option<JsonValue>) -> Option<Seq<Seq<char>>> {
    match as_list(v) {
        Some(items) => nonempty(language_codes(member_items(items, "key"@))),
        None => None,
    }
}

/// Each key without its `/languages/` prefix.
pub open spec fn language_codes(keys: Seq<Seq<char>>) -> Seq<Seq<char>>
    decreases keys.len(),
{
    if keys.len() == 0 {
        seq![]
    } else {
        language_codes(keys.drop_last()).push(replaced(keys.last(), "/languages/"@, Seq::empty()))
    }
}

pub open spec fn single(v: Option<Seq<char>>) -> Option<Seq<Seq<char>>> {
    match v {
        Some(s) => Some(seq![s]),
        None => None,
    }
}

pub open spec fn as_i32(v: Option<i64>) -> Option<i32> {
    match v {
        Some(n) => Some(n as i32),
        None => None,
    }
}

fn string_list_of(v: Option<&JsonValue>) -> (r: Option<Vec<String>>)
    ensures
        opt_strings_view(r) == string_list(opt_ref(v)),
{
    match list_of(v) {
        Some(items) => {
            let mut out: Vec<String> = Vec::new();
            let n = items.len();
            let mut i: usize = 0;
            while i < n
                invariant
                    n == items@.len(),
                    i <= n,
                    texts_of(out@) == string_items(items@.take(i as int)),
                decreases n - i,
            {
                assert(items@.take(i + 1).drop_last() =~= items@.take(i as int));
                assert(items@.take(i + 1).last() == items@[i as int]);
                match &items[i] {
                    JsonValue::Str(s) => {
                        let c = s.clone();
                        out.push(c);
                        assert(texts_of(out@) =~= texts_of(out@.drop_last()).push(c@));
                    },
                    _ => {},
                }
                i = i + 1;
            }
            assert(items@.take(n as int) =~= items@);
            if out.len() == 0 {
                None
            } else {
                Some(out)
            }
        },
        None => None,
    }
}

fn member_items_of(items: &Vec<JsonValue>, key: &str) -> (r: Vec<String>)
    ensures
        texts_of(r@) == member_items(items@, key@),
{
    let mut out: Vec<String> = Vec::new();
    let n = items.len();
    let mut i: usize = 0;
    while i < n
        invariant
            n == items@.len(),
            i <= n,
            texts_of(out@) == member_items(items@.take(i as int), key@),
        decreases n - i,
    {
        assert(items@.take(i + 1).drop_last() =~= items@.take(i as int));
        assert(items@.take(i + 1).last() == items@[i as int]);
        match text_of(get(&items[i], key)) {
            Some(s) => {
                out.push(s);
                assert(texts_of(out@) =~= texts_of(out@.drop_last()).push(s@));
            },
            None => {},
        }
        i = i + 1;
    }
    assert(items@.take(n as int) =~= items@);
    out
}

fn name_list_of(v: Option<&JsonValue>) -> (r: Option<Vec<String>>)
    ensures
        opt_strings_view(r) == name_list(opt_ref(v)),
{
    match list_of(v) {
        Some(items) => {
            let out = member_items_of(items, "name");
            if out.len() == 0 {
                None
            } else {
                Some(out)
            }
        },
        None => None,
    }
}

fn language_list_of(v: Option<&JsonValue>) -> (r: Option<Vec<String>>)
    ensures
        opt_strings_view(r) == language_list(opt_ref(v)),
{
    match list_of(v) {
        Some(items) => {
            let keys = member_items_of(items, "key");
            let ghost kv = member_items(items@, "key"@);
            let mut out: Vec<String> = Vec::new();
            let n = keys.len();
            let mut i: usize = 0;
            while i < n
                invariant
                    n == keys@.len(),
                    i <= n,
                    texts_of(keys@) == kv,
                    texts_of(out@) == language_codes(kv.take(i as int)),
                decreases n - i,
            {
                proof {
                    reveal_strlit("/languages/");
                    reveal_strlit("");
                    assert(""@ =~= Seq::<char>::empty());
                    assert(kv[i as int] == keys@[i as int]@);
                }
                let code = replace_all(keys[i].as_str(), "/languages/", "");
                let ghost before = out@;
                out.push(code);
                proof {
                    assert(texts_of(out@) =~= texts_of(before).push(code@));
                    assert(kv.take(i + 1).drop_last() =~= kv.take(i as int));
                }
                i = i + 1;
            }
            assert(kv.take(n as int) =~= kv);
            if out.len() == 0 {
                None
            } else {
                Some(out)
            }
        },
        None => None,
    }
}

fn single_of(v: Option<String>) -> (r: Option<Vec<String>>)
    ensures
        opt_strings_view(r) == single(opt_string_view(v)),
{
    match v {
        Some(s) => {
            let mut l: Vec<String> = Vec::new();
            l.push(s);
            assert(texts_of(l@) =~= seq![s@]);
            Some(l)
        },
        None => None,
    }
}


fn i32_of(v: Option<i64>) -> (r: Option<i32>)
    ensures
        r == as_i32(v),
{
    match v {
        Some(n) => Some(n as i32),
        None => None,
    }
}

// ------------------------------------------------------------------
// Identifiers and request URLs
// ------------------------------------------------------------------

/// An identifier without dashes and spaces, in upper case.
pub open spec fn clean_identifier(identifier: Seq<char>) -> Seq<char> {
    crate::text::upper_cased(replaced(replaced(identifier, "-"@, ""@), " "@, ""@))
}

pub fn clean_identifier_exec(identifier: &str) -> (r: String)
    ensures
        r@ == clean_identifier(identifier@),
        is_ascii_text(replaced(replaced(identifier@, "-"@, ""@), " "@, ""@)) ==> r@
            == ascii_upper_text(replaced(replaced(identifier@, "-"@, ""@), " "@, ""@)),
{
    proof {
        reveal_strlit("-");
        reveal_strlit(" ");
    }
    let a = replace_all(identifier, "-", "");
    let b = replace_all(a.as_str(), " ", "");
    crate::text::to_upper(b.as_str())
}

/// The Google Books search term for an identifier: Open Library and OCLC ids as
/// they are, anything else as an ISBN.
pub open spec fn google_term(identifier: Seq<char>) -> Seq<char> {
    let id = clean_identifier(identifier);
    if crate::text::starts_with(id, "OL"@) || crate::text::starts_with(id, "OCLC"@) {
        id
    } else {
        "isbn:"@ + id
    }
}

pub open spec fn with_key(url: Seq<char>, api_key: Option<Seq<char>>) -> Seq<char> {
    match api_key {
        Some(k) => url + "&key="@ + k,
        None => url,
    }
}

/// The Google Books volume query for an identifier.
pub open spec fn google_lookup_url(identifier: Seq<char>, api_key: Option<Seq<char>>) -> Seq<char> {
    with_key("https://www.googleapis.com/books/v1/volumes?q="@ + google_term(identifier), api_key)
}

/// The Open Library bibliographic key for an identifier: an OLID, an OCLC number, an
/// ISBN (10 or 13 bytes long), or else taken as an OCLC number.
pub open spec fn openlibrary_bibkey(identifier: Seq<char>) -> Seq<char> {
    let id = clean_identifier(identifier);
    if crate::text::starts_with(id, "OL"@) {
        "OLID:"@ + id
    } else if crate::text::starts_with(id, "OCLC"@) {
        "OCLC:"@ + replaced(id, "OCLC"@, ""@)
    } else if crate::text::utf8_len(id) == 10 || crate::text::utf8_len(id) == 13 {
        "ISBN:"@ + id
    } else {
        "OCLC:"@ + id
    }
}

pub open spec fn openlibrary_lookup_url(identifier: Seq<char>) -> Seq<char> {
    "https://openlibrary.org/api/books?bibkeys="@ + openlibrary_bibkey(identifier)
        + "&format=json&jscmd=data"@
}

pub open spec fn google_search_url(query: Seq<char>, api_key: Option<Seq<char>>) -> Seq<char> {
    with_key("https://www.googleapis.com/books/v1/volumes?q="@ + query + "&maxResults=5"@, api_key)
}

pub open spec fn openlibrary_search_url(query: Seq<char>) -> Seq<char> {
    "https://openlibrary.org/search.json?q="@ + query + "&limit=5"@
}

/// Whether the UTF-8 encoding of `s` is 10 or 13 bytes long.
fn has_isbn_length(s: &str) -> (r: bool)
    ensures
        r == (crate::text::utf8_len(s@) == 10 || crate::text::utf8_len(s@) == 13),
{
    let n = s.unicode_len();
    let mut total: usize = 0;
    let mut i: usize = 0;
    while i < n
        invariant
            n == s@.len(),
            i <= n,
            total <= 13,
            total == crate::text::utf8_len(s@.take(i as int)),
        decreases n - i,
    {
        let c = s.get_char(i);
        let v = c as u32;
        let w: usize = if v < 0x80 {
            1
        } else if v < 0x800 {
            2
        } else if v < 0x10000 {
            3
        } else {
            4
        };
        proof {
            assert(s@.take(i + 1).drop_last() =~= s@.take(i as int));
            crate::text::lemma_utf8_len_concat(s@.take(i + 1), s@.skip(i + 1));
            assert(s@.take(i + 1) + s@.skip(i + 1) =~= s@);
            crate::text::lemma_utf8_len_bounds(s@.skip(i + 1));
        }
        total = total + w;
        i = i + 1;
        if total > 13 {
            return false;
        }
    }
    assert(s@.take(n as int) =~= s@);
    total == 10 || total == 13
}

fn with_key_exec(mut url: String, api_key: Option<&str>) -> (r: String)
    ensures
        r@ == with_key(url@, match api_key {
            Some(k) => Some(k@),
            None => None,
        }),
{
    match api_key {
        Some(k) => {
            url.append("&key=");
            url.append(k);
            url
        },
        None => url,
    }
}

pub open spec fn opt_str_view(v: Option<&str>) -> Option<Seq<char>> {
    match v {
        Some(k) => Some(k@),
        None => None,
    }
}

/// The Google Books volume query for `identifier`, with the API key when one is set.
pub fn google_lookup_url_exec(identifier: &str, api_key: Option<&str>) -> (r: String)
    ensures
        r@ == google_lookup_url(identifier@, opt_str_view(api_key)),
{
    let id = clean_identifier_exec(identifier);
    let mut url = String::from_str("https://www.googleapis.com/books/v1/volumes?q=");
    if crate::text::starts_with_exec(id.as_str(), "OL") || crate::text::starts_with_exec(
        id.as_str(),
        "OCLC",
    ) {
        url.append(id.as_str());
    } else {
        url.append("isbn:");
        url.append(id.as_str());
    }
    with_key_exec(url, api_key)
}

/// The Open Library books query for `identifier`.
pub fn openlibrary_lookup_url_exec(identifier: &str) -> (r: String)
    ensures
        r@ == openlibrary_lookup_url(identifier@),
{
    let id = clean_identifier_exec(identifier);
    let mut url = String::from_str("https://openlibrary.org/api/books?bibkeys=");
    if crate::text::starts_with_exec(id.as_str(), "OL") {
        url.append("OLID:");
        url.append(id.as_str());
    } else if crate::text::starts_with_exec(id.as_str(), "OCLC") {
        proof {
            reveal_strlit("OCLC");
        }
        let numeric = replace_all(id.as_str(), "OCLC", "");
        url.append("OCLC:");
        url.append(numeric.as_str());
    } else {
        if has_isbn_length(id.as_str()) {
            url.append("ISBN:");
        } else {
            url.append("OCLC:");
        }
        url.append(id.as_str());
    }
    url.append("&format=json&jscmd=data");
    url
}

/// The Google Books search for `query` (five results at most).
pub fn google_search_url_exec(query: &str, api_key: Option<&str>) -> (r: String)
    ensures
        r@ == google_search_url(query@, opt_str_view(api_key)),
{
    let mut url = String::from_str("https://www.googleapis.com/books/v1/volumes?q=");
    url.append(query);
    url.append("&maxResults=5");
    with_key_exec(url, api_key)
}

/// The Open Library search for `query` (five results at most).
pub fn openlibrary_search_url_exec(query: &str) -> (r: String)
    ensures
        r@ == openlibrary_search_url(query@),
{
    let mut url = String::from_str("https://openlibrary.org/search.json?q=");
    url.append(query);
    url.append("&limit=5");
    url
}

// ------------------------------------------------------------------
// Reading the answers
// ------------------------------------------------------------------

pub open spec fn text_member(v: JsonValue, key: Seq<char>) -> Option<Seq<char>> {
    as_text(json_get(v, key))
}

/// A Google Books cover: the `thumbnail` link, or without one the `smallThumbnail`
/// link, fetched over https.
pub open spec fn google_cover(vol: JsonValue) -> Option<Seq<char>> {
    let pick = match json_get(vol, "imageLinks"@) {
        Some(imgs) => match json_get(imgs, "thumbnail"@) {
            Some(t) => Some(t),
            None => json_get(imgs, "smallThumbnail"@),
        },
        None => None,
    };
    match as_text(pick) {
        Some(u) => Some(replaced(u, "http:"@, "https:"@)),
        None => None,
    }
}

/// What a Google Books `volumeInfo` says of the book looked up by `identifier`.
pub open spec fn google_volume(identifier: Seq<char>, vol: JsonValue) -> MetadataView {
    MetadataView {
        isbn: Some(identifier),
        title: text_member(vol, "title"@),
        authors: string_list(json_get(vol, "authors"@)),
        publish_date: text_member(vol, "publishedDate"@),
        page_count: as_i32(as_int(json_get(vol, "pageCount"@))),
        cover_url: google_cover(vol),
        subtitle: text_member(vol, "subtitle"@),
        publishers: single(text_member(vol, "publisher"@)),
        physical_format: None,
        weight: None,
        dimensions: None,
        subjects: string_list(json_get(vol, "categories"@)),
        languages: single(text_member(vol, "language"@)),
    }
}

/// The record of a Google Books volume query: the first volume's information.
pub open spec fn google_lookup_record(identifier: Seq<char>, raw: JsonValue) -> Option<MetadataView> {
    match as_list(json_get(raw, "items"@)) {
        Some(items) => if items.len() > 0 {
            match json_get(items[0], "volumeInfo"@) {
                Some(vol) => Some(google_volume(identifier, vol)),
                None => None,
            }
        } else {
            None
        },
        None => None,
    }
}

/// A Google Books answer is kept when it parsed and names a title.
pub open spec fn accepted_google_record(identifier: Seq<char>, google: Option<JsonValue>) -> Option<
    MetadataView,
> {
    match google {
        Some(raw) => match google_lookup_record(identifier, raw) {
            Some(m) => if m.title is Some {
                Some(m)
            } else {
                None
            },
            None => None,
        },
        None => None,
    }
}

pub open spec fn first_member_value(raw: JsonValue) -> Option<JsonValue> {
    match raw {
        JsonValue::Object(entries) => if entries@.len() > 0 {
            Some(entries@[0].1)
        } else {
            None
        },
        _ => None,
    }
}

/// What an Open Library books answer says of the book looked up by `identifier`:
/// the first record of the answer, or nothing but the identifier without one.
pub open spec fn openlibrary_record(identifier: Seq<char>, raw: JsonValue) -> MetadataView {
    match first_member_value(raw) {
        Some(book) => MetadataView {
            isbn: Some(identifier),
            title: text_member(book, "title"@),
            authors: name_list(json_get(book, "authors"@)),
            publish_date: text_member(book, "publish_date"@),
            page_count: as_i32(as_int(json_get(book, "number_of_pages"@))),
            cover_url: as_text(get_in(json_get(book, "cover"@), "large"@)),
            subtitle: text_member(book, "subtitle"@),
            publishers: name_list(json_get(book, "publishers"@)),
            physical_format: text_member(book, "physical_format"@),
            weight: text_member(book, "weight"@),
            dimensions: text_member(book, "physical_dimensions"@),
            subjects: name_list(json_get(book, "subjects"@)),
            languages: language_list(json_get(book, "languages"@)),
        },
        None => MetadataView {
            isbn: Some(identifier),
            title: None,
            authors: None,
            publish_date: None,
            page_count: None,
            cover_url: None,
            subtitle: None,
            publishers: None,
            physical_format: None,
            weight: None,
            dimensions: None,
            subjects: None,
            languages: None,
        },
    }
}

fn google_cover_of(vol: &JsonValue) -> (r: Option<String>)
    ensures
        opt_string_view(r) == google_cover(*vol),
{
    let imgs = get(vol, "imageLinks");
    let pick = match imgs {
        Some(i) => match get(i, "thumbnail") {
            Some(t) => Some(t),
            None => get(i, "smallThumbnail"),
        },
        None => None,
    };
    match text_of(pick) {
        Some(u) => {
            proof {
                reveal_strlit("http:");
            }
            Some(replace_all(u.as_str(), "http:", "https:"))
        },
        None => None,
    }
}

fn google_volume_of(identifier: &str, vol: &JsonValue) -> (r: BookMetadataResponse)
    ensures
        r@ == google_volume(identifier@, *vol),
{
    BookMetadataResponse {
        isbn: Some(String::from_str(identifier)),
        title: text_of(get(vol, "title")),
        authors: string_list_of(get(vol, "authors")),
        publish_date: text_of(get(vol, "publishedDate")),
        page_count: i32_of(int_of(get(vol, "pageCount"))),
        cover_url: google_cover_of(vol),
        subtitle: text_of(get(vol, "subtitle")),
        publishers: single_of(text_of(get(vol, "publisher"))),
        physical_format: None,
        weight: None,
        dimensions: None,
        subjects: string_list_of(get(vol, "categories")),
        languages: single_of(text_of(get(vol, "language"))),
    }
}

pub open spec fn opt_meta(r: Option<BookMetadataResponse>) -> Option<MetadataView> {
    match r {
        Some(m) => Some(m@),
        None => None,
    }
}

/// The record of a Google Books volume query for `identifier`.
pub fn google_lookup_record_exec(identifier: &str, raw: &JsonValue) -> (r: Option<BookMetadataResponse>)
    ensures
        opt_meta(r) == google_lookup_record(identifier@, *raw),
{
    match list_of(get(raw, "items")) {
        Some(items) => {
            if items.len() > 0 {
                match get(&items[0], "volumeInfo") {
                    Some(vol) => Some(google_volume_of(identifier, vol)),
                    None => None,
                }
            } else {
                None
            }
        },
        None => None,
    }
}

/// The first step of a metadata lookup, once Google Books has answered: the record to
/// return, or `None` to ask Open Library. `google` is the parsed answer, `None` when
/// the request or its parsing failed.
pub fn metadata_after_google(identifier: &str, google: Option<&JsonValue>) -> (r: Option<
    BookMetadataResponse,
>)
    ensures
        opt_meta(r) == accepted_google_record(identifier@, opt_ref(google)),
{
    match google {
        Some(raw) => match google_lookup_record_exec(identifier, raw) {
            Some(m) => if m.title.is_some() {
                Some(m)
            } else {
                None
            },
            None => None,
        },
        None => None,
    }
}

/// The record of an Open Library books answer for `identifier`.
pub fn openlibrary_record_exec(identifier: &str, raw: &JsonValue) -> (r: BookMetadataResponse)
    ensures
        r@ == openlibrary_record(identifier@, *raw),
{
    let first: Option<&JsonValue> = match raw {
        JsonValue::Object(entries) => if entries.len() > 0 {
            Some(&entries[0].1)
        } else {
            None
        },
        _ => None,
    };
    match first {
        Some(book) => BookMetadataResponse {
            isbn: Some(String::from_str(identifier)),
            title: text_of(get(book, "title")),
            authors: name_list_of(get(book, "authors")),
            publish_date: text_of(get(book, "publish_date")),
            page_count: i32_of(int_of(get(book, "number_of_pages"))),
            cover_url: text_of(get_opt(get(book, "cover"), "large")),
            subtitle: text_of(get(book, "subtitle")),
            publishers: name_list_of(get(book, "publishers")),
            physical_format: text_of(get(book, "physical_format")),
            weight: text_of(get(book, "weight")),
            dimensions: text_of(get(book, "physical_dimensions")),
            subjects: name_list_of(get(book, "subjects")),
            languages: language_list_of(get(book, "languages")),
        },
        None => BookMetadataResponse {
            isbn: Some(String::from_str(identifier)),
            title: None,
            authors: None,
            publish_date: None,
            page_count: None,
            cover_url: None,
            subtitle: None,
            publishers: None,
            physical_format: None,
            weight: None,
            dimensions: None,
            subjects: None,
            languages: None,
        },
    }
}

// ------------------------------------------------------------------
// Searches
// ------------------------------------------------------------------

/// The first ISBN-13 or ISBN-10 among Google's `industryIdentifiers` that carries an
/// identifier string.
pub open spec fn first_isbn(ids: Seq<JsonValue>) -> Option<Seq<char>>
    decreases ids.len(),
{
    if ids.len() == 0 {
        None
    } else {
        let kind = text_member(ids[0], "type"@);
        if kind == Some("ISBN_13"@) || kind == Some("ISBN_10"@) {
            match text_member(ids[0], "identifier"@) {
                Some(v) => Some(v),
                None => first_isbn(ids.skip(1)),
            }
        } else {
            first_isbn(ids.skip(1))
        }
    }
}

pub open spec fn google_hit(vol: JsonValue) -> MetadataView {
    MetadataView {
        isbn: match as_list(json_get(vol, "industryIdentifiers"@)) {
            Some(ids) => first_isbn(ids),
            None => None,
        },
        title: text_member(vol, "title"@),
        authors: string_list(json_get(vol, "authors"@)),
        publish_date: text_member(vol, "publishedDate"@),
        page_count: as_i32(as_int(json_get(vol, "pageCount"@))),
        cover_url: google_cover(vol),
        subtitle: None,
        publishers: None,
        physical_format: None,
        weight: None,
        dimensions: None,
        subjects: None,
        languages: None,
    }
}

/// One result per item that has a `volumeInfo`, in order.
pub open spec fn google_hits(items: Seq<JsonValue>) -> Seq<MetadataView>
    decreases items.len(),
{
    if items.len() == 0 {
        seq![]
    } else {
        google_hits(items.drop_last()) + match json_get(items.last(), "volumeInfo"@) {
            Some(vol) => seq![google_hit(vol)],
            None => seq![],
        }
    }
}

pub open spec fn google_search_results(raw: JsonValue) -> Seq<MetadataView> {
    match as_list(json_get(raw, "items"@)) {
        Some(items) => google_hits(items),
        None => seq![],
    }
}

/// A Google Books search answer is kept when it parsed and found something.
pub open spec fn accepted_google_results(google: Option<JsonValue>) -> Option<Seq<MetadataView>> {
    match google {
        Some(raw) => if google_search_results(raw).len() > 0 {
            Some(google_search_results(raw))
        } else {
            None
        },
        None => None,
    }
}

pub open spec fn cover_of_id(c: i64) -> Seq<char> {
    "https://covers.openlibrary.org/b/id/"@ + signed_decimal(c as int) + "-L.jpg"@
}

pub open spec fn openlibrary_hit(doc: JsonValue) -> MetadataView {
    MetadataView {
        isbn: match as_list(json_get(doc, "isbn"@)) {
            Some(l) => if l.len() > 0 {
                as_text(Some(l[0]))
            } else {
                None
            },
            None => None,
        },
        title: text_member(doc, "title"@),
        authors: string_list(json_get(doc, "author_name"@)),
        publish_date: match as_int(json_get(doc, "first_publish_year"@)) {
            Some(y) => Some(signed_decimal(y as int)),
            None => None,
        },
        page_count: as_i32(as_int(json_get(doc, "number_of_pages_median"@))),
        cover_url: match as_int(json_get(doc, "cover_i"@)) {
            Some(c) => Some(cover_of_id(c)),
            None => None,
        },
        subtitle: None,
        publishers: None,
        physical_format: None,
        weight: None,
        dimensions: None,
        subjects: None,
        languages: None,
    }
}

pub open spec fn openlibrary_hits(docs: Seq<JsonValue>) -> Seq<MetadataView>
    decreases docs.len(),
{
    if docs.len() == 0 {
        seq![]
    } else {
        openlibrary_hits(docs.drop_last()).push(openlibrary_hit(docs.last()))
    }
}

pub open spec fn openlibrary_search_results(raw: JsonValue) -> Seq<MetadataView> {
    match as_list(json_get(raw, "docs"@)) {
        Some(docs) => openlibrary_hits(docs),
        None => seq![],
    }
}

pub open spec fn metas(v: Seq<BookMetadataResponse>) -> Seq<MetadataView> {
    v.map_values(|m: BookMetadataResponse| m@)
}

fn first_isbn_of(ids: &Vec<JsonValue>) -> (r: Option<String>)
    ensures
        opt_string_view(r) == first_isbn(ids@),
{
    let n = ids.len();
    let mut i: usize = 0;
    assert(ids@.skip(0) =~= ids@);
    while i < n
        invariant
            n == ids@.len(),
            i <= n,
            first_isbn(ids@) == first_isbn(ids@.skip(i as int)),
        decreases n - i,
    {
        let ghost rest = ids@.skip(i as int);
        assert(rest[0] == ids@[i as int]);
        assert(rest.skip(1) =~= ids@.skip(i + 1));
        let kind = text_of(get(&ids[i], "type"));
        let is_isbn = match &kind {
            Some(k) => crate::text::str_eq(k.as_str(), "ISBN_13") || crate::text::str_eq(
                k.as_str(),
                "ISBN_10",
            ),
            None => false,
        };
        if is_isbn {
            let v = text_of(get(&ids[i], "identifier"));
            if v.is_some() {
                return v;
            }
        }
        i = i + 1;
    }
    assert(ids@.skip(n as int).len() == 0);
    None
}

fn google_hit_of(vol: &JsonValue) -> (r: BookMetadataResponse)
    ensures
        r@ == google_hit(*vol),
{
    let isbn = match list_of(get(vol, "industryIdentifiers")) {
        Some(ids) => first_isbn_of(ids),
        None => None,
    };
    BookMetadataResponse {
        isbn,
        title: text_of(get(vol, "title")),
        authors: string_list_of(get(vol, "authors")),
        publish_date: text_of(get(vol, "publishedDate")),
        page_count: i32_of(int_of(get(vol, "pageCount"))),
        cover_url: google_cover_of(vol),
        subtitle: None,
        publishers: None,
        physical_format: None,
        weight: None,
        dimensions: None,
        subjects: None,
        languages: None,
    }
}

/// The results of a Google Books search answer.
pub fn google_search_results_exec(raw: &JsonValue) -> (r: Vec<BookMetadataResponse>)
    ensures
        metas(r@) == google_search_results(*raw),
{
    let mut out: Vec<BookMetadataResponse> = Vec::new();
    match list_of(get(raw, "items")) {
        Some(items) => {
            let n = items.len();
            let mut i: usize = 0;
            while i < n
                invariant
                    n == items@.len(),
                    i <= n,
                    metas(out@) == google_hits(items@.take(i as int)),
                decreases n - i,
            {
                assert(items@.take(i + 1).drop_last() =~= items@.take(i as int));
                assert(items@.take(i + 1).last() == items@[i as int]);
                match get(&items[i], "volumeInfo") {
                    Some(vol) => {
                        let hit = google_hit_of(vol);
                        let ghost before = out@;
                        out.push(hit);
                        assert(metas(out@) =~= metas(before) + seq![hit@]);
                    },
                    None => {
                        assert(google_hits(items@.take(i + 1)) =~= google_hits(items@.take(i as int)));
                    },
                }
                i = i + 1;
            }
            assert(items@.take(n as int) =~= items@);
        },
        None => {
            assert(metas(out@) =~= Seq::<MetadataView>::empty());
        },
    }
    out
}

/// The first step of a metadata search, once Google Books has answered: its results
/// when it found any, or `None` to ask Open Library. `google` is the parsed answer,
/// `None` when the request or its parsing failed.
pub fn results_after_google(google: Option<&JsonValue>) -> (r: Option<Vec<BookMetadataResponse>>)
    ensures
        match r {
            Some(v) => accepted_google_results(opt_ref(google)) == Some(metas(v@)),
            None => accepted_google_results(opt_ref(google)) is None,
        },
{
    match google {
        Some(raw) => {
            let results = google_search_results_exec(raw);
            if results.len() > 0 {
                Some(results)
            } else {
                None
            }
        },
        None => None,
    }
}

fn openlibrary_hit_of(doc: &JsonValue) -> (r: BookMetadataResponse)
    ensures
        r@ == openlibrary_hit(*doc),
{
    let isbn = match list_of(get(doc, "isbn")) {
        Some(l) => if l.len() > 0 {
            text_of(Some(&l[0]))
        } else {
            None
        },
        None => None,
    };
    let publish_date = match int_of(get(doc, "first_publish_year")) {
        Some(y) => Some(i64_decimal(y)),
        None => None,
    };
    let cover_url = match int_of(get(doc, "cover_i")) {
        Some(c) => {
            let mut u = String::from_str("https://covers.openlibrary.org/b/id/");
            let d = i64_decimal(c);
            u.append(d.as_str());
            u.append("-L.jpg");
            Some(u)
        },
        None => None,
    };
    BookMetadataResponse {
        isbn,
        title: text_of(get(doc, "title")),
        authors: string_list_of(get(doc, "author_name")),
        publish_date,
        page_count: i32_of(int_of(get(doc, "number_of_pages_median"))),
        cover_url,
        subtitle: None,
        publishers: None,
        physical_format: None,
        weight: None,
        dimensions: None,
        subjects: None,
        languages: None,
    }
}

/// The results of an Open Library search answer: one per document, in order.
pub fn openlibrary_search_results_exec(raw: &JsonValue) -> (r: Vec<BookMetadataResponse>)
    ensures
        metas(r@) == openlibrary_search_results(*raw),
{
    let mut out: Vec<BookMetadataResponse> = Vec::new();
    match list_of(get(raw, "docs")) {
        Some(docs) => {
            let n = docs.len();
            let mut i: usize = 0;
            while i < n
                invariant
                    n == docs@.len(),
                    i <= n,
                    metas(out@) == openlibrary_hits(docs@.take(i as int)),
                decreases n - i,
            {
                assert(docs@.take(i + 1).drop_last() =~= docs@.take(i as int));
                assert(docs@.take(i + 1).last() == docs@[i as int]);
                let hit = openlibrary_hit_of(&docs[i]);
                let ghost before = out@;
                out.push(hit);
                assert(metas(out@) =~= metas(before).push(hit@));
                i = i + 1;
            }
            assert(docs@.take(n as int) =~= docs@);
        },
        None => {
            assert(metas(out@) =~= Seq::<MetadataView>::empty());
        },
    }
    out
}


// ------------------------------------------------------------------
// Laws of the answers
// ------------------------------------------------------------------

/// An Open Library record keeps what the first record of the answer says: each of
/// its texts (`title`, `subtitle`, `publish_date`, `physical_format`, `weight`,
/// `physical_dimensions`) is the record's field of the same meaning, unchanged, and
/// absent when the answer has no text there; the looked-up identifier is its ISBN.
pub proof fn law_openlibrary_record_keeps_texts(identifier: Seq<char>, raw: JsonValue, book: JsonValue)
    requires
        first_member_value(raw) == Some(book),
    ensures
        openlibrary_record(identifier, raw).isbn == Some(identifier),
        openlibrary_record(identifier, raw).title == as_text(json_get(book, "title"@)),
        openlibrary_record(identifier, raw).subtitle == as_text(json_get(book, "subtitle"@)),
        openlibrary_record(identifier, raw).publish_date == as_text(json_get(book, "publish_date"@)),
        openlibrary_record(identifier, raw).physical_format == as_text(json_get(book, "physical_format"@)),
        openlibrary_record(identifier, raw).weight == as_text(json_get(book, "weight"@)),
        openlibrary_record(identifier, raw).dimensions == as_text(json_get(book, "physical_dimensions"@)),
        openlibrary_record(identifier, raw).page_count == as_i32(as_int(json_get(book, "number_of_pages"@))),
        openlibrary_record(identifier, raw).cover_url == as_text(get_in(json_get(book, "cover"@), "large"@)),
{
}

/// Without a record in the answer, the lookup keeps only the identifier.
pub proof fn law_openlibrary_record_without_answer(identifier: Seq<char>, raw: JsonValue)
    requires
        first_member_value(raw) is None,
    ensures
        openlibrary_record(identifier, raw).isbn == Some(identifier),
        openlibrary_record(identifier, raw).title is None,
        openlibrary_record(identifier, raw).authors is None,
        openlibrary_record(identifier, raw).subtitle is None,
        openlibrary_record(identifier, raw).publish_date is None,
{
}

/// A Google Books lookup keeps what the first volume says: its `title`, `subtitle`
/// and `publishedDate` texts unchanged, its `publisher` and `language` as one-item
/// lists, and the looked-up identifier as its ISBN.
pub proof fn law_google_record_keeps_texts(identifier: Seq<char>, raw: JsonValue, vol: JsonValue)
    requires
        as_list(json_get(raw, "items"@)) matches Some(items) && items.len() > 0 && json_get(
            items[0],
            "volumeInfo"@,
        ) == Some(vol),
    ensures
        google_lookup_record(identifier, raw) is Some,
        google_lookup_record(identifier, raw)->0.isbn == Some(identifier),
        google_lookup_record(identifier, raw)->0.title == as_text(json_get(vol, "title"@)),
        google_lookup_record(identifier, raw)->0.subtitle == as_text(json_get(vol, "subtitle"@)),
        google_lookup_record(identifier, raw)->0.publish_date == as_text(json_get(vol, "publishedDate"@)),
        as_text(json_get(vol, "publisher"@)) matches Some(t) ==> google_lookup_record(identifier, raw)->0.publishers
            == Some(seq![t]),
        as_text(json_get(vol, "language"@)) matches Some(t) ==> google_lookup_record(identifier, raw)->0.languages
            == Some(seq![t]),
        google_lookup_record(identifier, raw)->0.page_count == as_i32(as_int(json_get(vol, "pageCount"@))),
{
}


/// A Google Books search hit keeps what its volume says: the `title` and
/// `publishedDate` texts unchanged, and the page count read from `pageCount`.
pub proof fn law_google_hit_keeps_texts(vol: JsonValue)
    ensures
        google_hit(vol).title == as_text(json_get(vol, "title"@)),
        google_hit(vol).publish_date == as_text(json_get(vol, "publishedDate"@)),
        google_hit(vol).page_count == as_i32(as_int(json_get(vol, "pageCount"@))),
        google_hit(vol).subtitle is None,
{
}

/// The ISBN of a Google Books hit is the identifier of the first ISBN-13 or ISBN-10
/// entry that has one; entries of other types are passed over.
pub proof fn law_first_isbn(ids: Seq<JsonValue>, k: int)
    requires
        0 <= k < ids.len(),
        as_text(json_get(ids[k], "type"@)) == Some("ISBN_13"@) || as_text(json_get(ids[k], "type"@))
            == Some("ISBN_10"@),
        as_text(json_get(ids[k], "identifier"@)) is Some,
        forall|j: int|
            0 <= j < k ==> !(#[trigger] as_text(json_get(ids[j], "type"@)) == Some("ISBN_13"@)
                || as_text(json_get(ids[j], "type"@)) == Some("ISBN_10"@)) || as_text(
                json_get(ids[j], "identifier"@),
            ) is None,
    ensures
        first_isbn(ids) == as_text(json_get(ids[k], "identifier"@)),
    decreases k,
{
    if k > 0 {
        law_first_isbn(ids.skip(1), k - 1);
        assert(ids.skip(1)[k - 1] == ids[k]);
        assert forall|j: int| 0 <= j < k - 1 implies !(#[trigger] as_text(
            json_get(ids.skip(1)[j], "type"@),
        ) == Some("ISBN_13"@) || as_text(json_get(ids.skip(1)[j], "type"@)) == Some("ISBN_10"@))
            || as_text(json_get(ids.skip(1)[j], "identifier"@)) is None by {
            assert(ids.skip(1)[j] == ids[j + 1]);
        }
        assert(as_text(json_get(ids[0], "type"@)) == text_member(ids[0], "type"@));
    }
}

/// An Open Library search hit keeps what its document says: the `title` text
/// unchanged, the first publication year in decimal as the date, and the cover with
/// id `cover_i` as its large image on covers.openlibrary.org.
pub proof fn law_openlibrary_hit_keeps_values(doc: JsonValue)
    ensures
        openlibrary_hit(doc).title == as_text(json_get(doc, "title"@)),
        as_int(json_get(doc, "first_publish_year"@)) matches Some(y) ==> openlibrary_hit(doc).publish_date
            == Some(signed_decimal(y as int)),
        as_int(json_get(doc, "first_publish_year"@)) is None ==> openlibrary_hit(doc).publish_date is None,
        as_int(json_get(doc, "cover_i"@)) matches Some(c) ==> openlibrary_hit(doc).cover_url == Some(
            "https://covers.openlibrary.org/b/id/"@ + signed_decimal(c as int) + "-L.jpg"@,
        ),
        openlibrary_hit(doc).page_count == as_i32(as_int(json_get(doc, "number_of_pages_median"@))),
{
}

/// Google's lookup answer is kept exactly when it yields a record with a title, and
/// then that record is the answer; otherwise Open Library is asked.
pub proof fn law_google_answer_kept_with_title(identifier: Seq<char>, raw: JsonValue)
    ensures
        accepted_google_record(identifier, Some(raw)) is Some <==> (google_lookup_record(
            identifier,
            raw,
        ) matches Some(m) && m.title is Some),
        accepted_google_record(identifier, Some(raw)) is Some ==> accepted_google_record(
            identifier,
            Some(raw),
        ) == google_lookup_record(identifier, raw),
        accepted_google_record(identifier, None) is None,
{
}

} // verus!
