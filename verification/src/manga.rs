//! Reading a manga page: the image address sits in the page's HTML after the
//! `id="img"` marker, between `src=` plus one quote and the next `" alt=`.

use vstd::prelude::*;
use vstd::string::StringSliceAdditionalSpecFns;
use vstd::utf8::is_char_boundary;
use crate::text::{decimal, push_u64};

verus! {

/// What the `manga` command fetches and how it titles the result.
pub struct MangaRequest {
    /// The page to fetch.
    pub url: String,
    /// The title of the embed showing the page's image.
    pub title: String,
    /// Whether the reply gets a reaction to go back a page.
    pub back_reaction: bool,
}

/// The reply when no manga name was given.
pub open spec fn missing_name_text() -> Seq<char> {
    "You did not provide a manga name. Please make sure to replace all `spaces` inside a name with `-`. For example: `One Piece` should be done as `!manga one-piece`"@
}

/// The address of page `page` of chapter `chapter` of the manga `name`.
pub open spec fn manga_url_text(name: Seq<char>, chapter: Seq<char>, page: u32) -> Seq<char> {
    "https://www.mangapanda.com/"@ + name + "/"@ + chapter + "/"@ + decimal(page as nat)
}

/// The embed title for page `page` of chapter `chapter`.
pub open spec fn manga_title_text(chapter: Seq<char>, page: u32) -> Seq<char> {
    "One Piece: Chapter "@ + chapter + " Page "@ + decimal(page as nat)
}

/// Builds the request for the `manga` command's arguments: the name (`None`
/// when absent; the placeholder `---` counts as absent), the chapter (default
/// `1`) and the page (default 1).
pub fn manga_request(name: Option<&str>, chapter: Option<&str>, page: Option<u32>) -> (r: Result<MangaRequest, String>)
    ensures
        (name is None || name->0@ == "---"@) <==> r is Err,
        r matches Err(e) ==> e@ == missing_name_text(),
        r matches Ok(req) ==> {
            let c = match chapter {
                Some(c) => c@,
                None => "1"@,
            };
            let p: u32 = match page {
                Some(p) => p,
                None => 1,
            };
            &&& req.url@ == manga_url_text(name->0@, c, p)
            &&& req.title@ == manga_title_text(c, p)
            &&& req.back_reaction == (p > 1)
        },
{
    let given = match name {
        Some(n) => {
            let owned = n.to_owned();
            let placeholder = "---".to_owned();
            if owned == placeholder {
                None
            } else {
                Some(n)
            }
        },
        None => None,
    };
    match given {
        None => {
            let mut e = String::new();
            e.append("You did not provide a manga name. Please make sure to replace all `spaces` inside a name with `-`. For example: `One Piece` should be done as `!manga one-piece`");
            Err(e)
        },
        Some(n) => {
            let c: &str = match chapter {
                Some(c) => c,
                None => "1",
            };
            let p: u32 = match page {
                Some(p) => p,
                None => 1,
            };
            let mut url = String::new();
            url.append("https://www.mangapanda.com/");
            url.append(n);
            url.append("/");
            url.append(c);
            url.append("/");
            push_u64(&mut url, p as u64);
            let mut title = String::new();
            title.append("One Piece: Chapter ");
            title.append(c);
            title.append(" Page ");
            push_u64(&mut title, p as u64);
            Ok(MangaRequest { url, title, back_reaction: p > 1 })
        },
    }
}

/// Whether `needle` occurs in `hay` starting at byte `i`.
pub open spec fn occurs_at(hay: Seq<u8>, needle: Seq<u8>, i: int) -> bool {
    &&& 0 <= i
    &&& i + needle.len() <= hay.len()
    &&& hay.subrange(i, i + needle.len()) == needle
}

/// The first byte position at or after `i` where `needle` occurs in `hay`.
pub open spec fn find_from(hay: Seq<u8>, needle: Seq<u8>, i: int) -> Option<int>
    decreases hay.len() + 1 - i,
{
    if i < 0 || i + needle.len() > hay.len() {
        None
    } else if occurs_at(hay, needle, i) {
        Some(i)
    } else {
        find_from(hay, needle, i + 1)
    }
}

/// `find_from` gives the first occurrence at or after `i`, and `None` only
/// when there is none.
pub proof fn lemma_find_from_first(hay: Seq<u8>, needle: Seq<u8>, i: int)
    requires
        0 <= i,
    ensures
        find_from(hay, needle, i) matches Some(e) ==> i <= e && occurs_at(hay, needle, e)
            && forall|k: int| i <= k < e ==> !#[trigger] occurs_at(hay, needle, k),
        find_from(hay, needle, i) is None ==> forall|k: int| i <= k ==> !#[trigger] occurs_at(hay, needle, k),
    decreases hay.len() + 1 - i,
{
    if i + needle.len() <= hay.len() && !occurs_at(hay, needle, i) {
        lemma_find_from_first(hay, needle, i + 1);
    }
}

/// The byte range `[start, end)` of the image address in the page `page`, or
/// `None` where cutting the page at the markers fails: the cut after `src=`
/// falls outside the page or inside a character, or no `" alt=` follows it.
/// A missing `id="img"` marker means searching from the start of the page; a
/// missing `src=` means cutting five bytes after where that search began.
pub open spec fn image_range(page: Seq<u8>) -> Option<(int, int)> {
    let img_at: int = match find_from(page, "id=\"img\"".spec_bytes(), 0) {
        Some(i) => i,
        None => 0,
    };
    let src_at: int = match find_from(page, "src=".spec_bytes(), img_at) {
        Some(j) => j,
        None => img_at,
    };
    let start = src_at + 5;
    if start > page.len() || !is_char_boundary(page, start) {
        None
    } else {
        match find_from(page, "\" alt=".spec_bytes(), start) {
            Some(end) => Some((start, end)),
            None => None,
        }
    }
}

/// The first position at or after `from` where `needle` occurs in `hay`.
pub fn find_bytes(hay: &[u8], needle: &[u8], from: usize) -> (r: Option<usize>)
    ensures
        match r {
            Some(i) => find_from(hay@, needle@, from as int) == Some(i as int),
            None => find_from(hay@, needle@, from as int) is None,
        },
        r matches Some(i) ==> from <= i && occurs_at(hay@, needle@, i as int)
            && forall|k: int| from <= k < i ==> !#[trigger] occurs_at(hay@, needle@, k),
        r is None ==> forall|k: int| from <= k ==> !#[trigger] occurs_at(hay@, needle@, k),
{
    proof {
        lemma_find_from_first(hay@, needle@, from as int);
    }
    let len = hay.len();
    let n = needle.len();
    let mut i = from;
    while i <= len && n <= len - i
        invariant
            len == hay@.len(),
            n == needle@.len(),
            from <= i,
            find_from(hay@, needle@, from as int) == find_from(hay@, needle@, i as int),
        decreases len - i,
    {
        let mut j: usize = 0;
        let mut same = true;
        while j < n
            invariant
                len == hay@.len(),
                n == needle@.len(),
                i + n <= len,
                j <= n,
                same == (forall|k: int| 0 <= k < j ==> hay@[i + k] == needle@[k]),
            decreases n - j,
        {
            if hay[i + j] != needle[j] {
                same = false;
            }
            j = j + 1;
        }
        if same {
            assert(hay@.subrange(i as int, i + n) =~= needle@);
            proof {
                lemma_find_from_first(hay@, needle@, from as int);
            }
            return Some(i);
        }
        assert(!occurs_at(hay@, needle@, i as int)) by {
            let k = choose|k: int| 0 <= k < n && hay@[i + k] != needle@[k];
            assert(hay@.subrange(i as int, i + n)[k] != needle@[k]);
        }
        i = i + 1;
    }
    None
}

/// The image address of a page, where a `" alt=` ends it, starting from the
/// cut position: it ends at the first `" alt=` at or after the start.
pub proof fn lemma_image_range_ends_at_first_alt(page: Seq<u8>)
    ensures
        image_range(page) matches Some((s, e)) ==> 0 <= s <= e && occurs_at(page, "\" alt=".spec_bytes(), e)
            && forall|k: int| s <= k < e ==> !#[trigger] occurs_at(page, "\" alt=".spec_bytes(), k),
{
    let img_at: int = match find_from(page, "id=\"img\"".spec_bytes(), 0) {
        Some(i) => i,
        None => 0,
    };
    lemma_find_from_first(page, "id=\"img\"".spec_bytes(), 0);
    lemma_find_from_first(page, "src=".spec_bytes(), img_at);
    let src_at: int = match find_from(page, "src=".spec_bytes(), img_at) {
        Some(j) => j,
        None => img_at,
    };
    lemma_find_from_first(page, "\" alt=".spec_bytes(), src_at + 5);
}

/// See `image_range`; the page is searched as the bytes of its UTF-8 text.
/// The address ends at the first `" alt=` at or after its start.
pub fn manga_image_range(page: &str) -> (r: Option<(usize, usize)>)
    ensures
        match r {
            Some((s, e)) => image_range(page.spec_bytes()) == Some((s as int, e as int)),
            None => image_range(page.spec_bytes()) is None,
        },
        r matches Some((s, e)) ==> s <= e && occurs_at(page.spec_bytes(), "\" alt=".spec_bytes(), e as int)
            && forall|k: int| s <= k < e ==> !#[trigger] occurs_at(page.spec_bytes(), "\" alt=".spec_bytes(), k),
{
    let bytes = page.as_bytes();
    let len = bytes.len();
    let img_at: usize = match find_bytes(bytes, "id=\"img\"".as_bytes(), 0) {
        Some(i) => i,
        None => 0,
    };
    let src_at: usize = match find_bytes(bytes, "src=".as_bytes(), img_at) {
        Some(j) => j,
        None => img_at,
    };
    if len < 5 || src_at > len - 5 {
        return None;
    }
    let start = src_at + 5;
    if !page.is_char_boundary(start) {
        return None;
    }
    match find_bytes(bytes, "\" alt=".as_bytes(), start) {
        Some(end) => Some((start, end)),
        None => None,
    }
}

} // verus!
