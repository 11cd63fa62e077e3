//! The two scraping stages on a title's catalog pages.
//!
//! Stage one reads the video-gallery listing and picks the detail page:
//! the first anchor whose visible text contains "trailer" (any case)
//! and that carries an `href`, else the document's first matching
//! anchor. Stage two reads the detail page's embedded structured-data
//! block, collects the playback candidates, keeps those with MP4 mime
//! and ranks their definition labels 1080 over 720 over 480 over
//! anything else; with no MP4 candidate the first raw entry wins. The
//! chosen URL gets the literal fragment `#t=8` appended.
use crate::error::Error;
use crate::text::contains_bytes;
use crate::text::contains_bytes_ci;
use crate::text::contains_ci_spec;
use crate::text::contains_spec;
use crate::text::find_byte;
use crate::text::find_byte_spec;
use crate::text::subvec;
use crate::text::trim_bytes;
use crate::text::trim_spec;
use vstd::prelude::*;
use vstd::string::StrSliceExecFns;
use vstd::string::StringExecFns;
use vstd::utf8::encode_utf8;

verus! {

/// One anchor of the listing page: its concatenated visible text and
/// its `href` attribute, when present.
#[derive(Debug, Clone)]
pub struct Anchor {
    pub text: String,
    pub href: Option<String>,
}

/// One playback entry of the detail page's structured data: definition
/// label, mime type and URL, each absent when the entry lacks the field
/// or holds a non-string there.
#[derive(Debug, Clone)]
pub struct VideoCandidate {
    pub definition: Option<String>,
    pub mime_type: Option<String>,
    pub url: Option<String>,
}

/// View of an optional string.
pub open spec fn opt_view(o: Option<String>) -> Option<Seq<char>> {
    match o {
        None => None,
        Some(s) => Some(s@),
    }
}

/// View of one playback candidate: definition, mime type, URL.
pub type CandView = (Option<Seq<char>>, Option<Seq<char>>, Option<Seq<char>>);

pub open spec fn cand_view(c: VideoCandidate) -> CandView {
    (opt_view(c.definition), opt_view(c.mime_type), opt_view(c.url))
}

/// View of one anchor: text and optional href.
pub type AnchorView = (Seq<char>, Option<Seq<char>>);

/// What scraper's CSS selection finds in `html` for an anchor
/// `selector`: each matched element's text and its `attr` attribute,
/// in document order. Named, not stated: the selection engine's result
/// is a function of its inputs alone.
pub uninterp spec fn anchors_of(html: Seq<char>, selector: Seq<char>, attr: Seq<char>) -> Seq<
    AnchorView,
>;

/// The inner HTML of the first element of `html` that matches
/// `selector`, as scraper's selection engine finds it.
pub uninterp spec fn selected_inner_html(html: Seq<char>, selector: Seq<char>) -> Option<
    Seq<char>,
>;

/// What serde_json finds at `pointer` in `json`: `Err` when the bytes
/// are not JSON, `Ok(None)` when the pointer leads nowhere, otherwise
/// the array's entries with the three named string fields read out of
/// each (a non-array value stands as an empty sequence of entries).
pub uninterp spec fn playbacks_of(
    json: Seq<u8>,
    pointer: Seq<char>,
    mime_key: Seq<char>,
    def_key: Seq<char>,
    url_key: Seq<char>,
) -> Result<Option<Seq<CandView>>, ()>;

/// Relies on scraper's `Selector::parse`, `Html::parse_document` and
/// `ElementRef::text`/`attr`: collects, in document order, the text and
/// the `attr` attribute of every element matching `selector`.
#[verifier::external_body]
fn select_anchors(html: &str, selector: &str, attr: &str) -> (r: Vec<Anchor>)
    ensures
        r@.len() == anchors_of(html@, selector@, attr@).len(),
        forall|i: int|
            0 <= i < r@.len() ==> r@[i].text@ == anchors_of(html@, selector@, attr@)[i].0
                && opt_view(r@[i].href) == anchors_of(html@, selector@, attr@)[i].1,
{
    let sel = match scraper::Selector::parse(selector) {
        Ok(s) => s,
        Err(_) => return Vec::new(),
    };
    let doc = scraper::Html::parse_document(html);
    let mut out = Vec::new();
    for el in doc.select(&sel) {
        out.push(Anchor {
            text: el.text().collect::<String>(),
            href: el.attr(attr).map(|h| h.to_string()),
        });
    }
    out
}

/// Relies on scraper's `Selector::parse`, `Html::parse_document` and
/// `ElementRef::inner_html`: the inner HTML of the first element
/// matching `selector`, if any matches.
#[verifier::external_body]
fn select_first_inner_html(html: &str, selector: &str) -> (r: Option<String>)
    ensures
        opt_view(r) == selected_inner_html(html@, selector@),
{
    let sel = match scraper::Selector::parse(selector) {
        Ok(s) => s,
        Err(_) => return None,
    };
    let doc = scraper::Html::parse_document(html);
    let el = doc.select(&sel).next()?;
    Some(el.inner_html())
}

/// Relies on serde_json's `from_slice`, `Value::pointer`, `Value::get`
/// and `Value::as_str`: parses `json`, walks to `pointer`, and reads
/// from each array entry the string fields named by the three keys.
#[verifier::external_body]
fn playback_entries(
    json: &Vec<u8>,
    pointer: &str,
    mime_key: &str,
    def_key: &str,
    url_key: &str,
) -> (r: Result<Option<Vec<VideoCandidate>>, Error>)
    ensures
        ({
            let spec = playbacks_of(json@, pointer@, mime_key@, def_key@, url_key@);
            match r {
                Err(_) => spec is Err,
                Ok(None) => spec == Ok::<Option<Seq<CandView>>, ()>(None),
                Ok(Some(v)) => spec matches Ok(Some(s)) && v@.len() == s.len() && forall|i: int|
                    0 <= i < s.len() ==> cand_view(v@[i]) == s[i],
            }
        }),
{
    let field = |e: &serde_json::Value, k: &str| e.get(k).and_then(|v| v.as_str()).map(|s| s.to_string());
    let data: serde_json::Value = match serde_json::from_slice(json.as_slice()) {
        Ok(v) => v,
        Err(e) => return Err(Error::Response { message: e.to_string() }),
    };
    let Some(playbacks) = data.pointer(pointer) else { return Ok(None) };
    Ok(Some(playbacks.as_array().map_or(Vec::new(), |a| a.iter().map(|e| VideoCandidate {
        definition: field(e, def_key), mime_type: field(e, mime_key), url: field(e, url_key),
    }).collect())))
}

/// "trailer" in bytes.
pub open spec fn trailer_bytes() -> Seq<u8> {
    seq![116u8, 114u8, 97u8, 105u8, 108u8, 101u8, 114u8]
}

pub open spec fn label_1080() -> Seq<u8> {
    seq![49u8, 48u8, 56u8, 48u8]
}

pub open spec fn label_720() -> Seq<u8> {
    seq![55u8, 50u8, 48u8]
}

pub open spec fn label_480() -> Seq<u8> {
    seq![52u8, 56u8, 48u8]
}

/// The anchor text advertises a trailer: it contains "trailer" up to
/// ASCII case.
pub open spec fn has_trailer_text(text: Seq<char>) -> bool {
    contains_ci_spec(encode_utf8(text), trailer_bytes())
}

/// The first anchor at or after `i` that advertises a trailer and
/// carries an href; its href.
pub open spec fn first_trailer_href(anchors: Seq<AnchorView>, i: int) -> Option<Seq<char>>
    decreases anchors.len() - i when 0 <= i <= anchors.len()
{
    if i >= anchors.len() {
        None
    } else if has_trailer_text(anchors[i].0) && anchors[i].1 is Some {
        anchors[i].1
    } else {
        first_trailer_href(anchors, i + 1)
    }
}

/// The listing-page choice: prefer the first trailer-advertising anchor
/// with an href; fall back to the document's first anchor, which must
/// then itself carry an href.
pub open spec fn chosen_href(anchors: Seq<AnchorView>) -> Option<Seq<char>> {
    match first_trailer_href(anchors, 0) {
        Some(h) => Some(h),
        None => if anchors.len() > 0 {
            anchors[0].1
        } else {
            None
        },
    }
}

proof fn lemma_first_trailer_from(anchors: Seq<AnchorView>, i: int)
    requires
        0 <= i <= anchors.len(),
    ensures
        match first_trailer_href(anchors, i) {
            Some(h) => exists|k: int|
                #![trigger anchors[k]]
                i <= k < anchors.len() && has_trailer_text(anchors[k].0) && anchors[k].1 == Some(h)
                    && (forall|j: int|
                    i <= j < k ==> !(has_trailer_text(#[trigger] anchors[j].0) && anchors[j].1
                        is Some)),
            None => forall|j: int|
                i <= j < anchors.len() ==> !(has_trailer_text(#[trigger] anchors[j].0)
                    && anchors[j].1 is Some),
        },
    decreases anchors.len() - i,
{
    if i < anchors.len() && !(has_trailer_text(anchors[i].0) && anchors[i].1 is Some) {
        lemma_first_trailer_from(anchors, i + 1);
    }
}

/// The listing choice, characterized: the preferred pass picks the
/// first anchor that advertises a trailer and carries an href; only
/// when no anchor does both does the fallback to the document's first
/// anchor apply.
pub proof fn lemma_anchor_choice(anchors: Seq<AnchorView>)
    ensures
        first_trailer_href(anchors, 0) matches Some(h) ==> exists|k: int|
            #![trigger anchors[k]]
            0 <= k < anchors.len() && has_trailer_text(anchors[k].0) && anchors[k].1 == Some(h)
                && (forall|j: int|
                0 <= j < k ==> !(has_trailer_text(#[trigger] anchors[j].0) && anchors[j].1
                    is Some)),
        first_trailer_href(anchors, 0) is None ==> forall|j: int|
            0 <= j < anchors.len() ==> !(has_trailer_text(#[trigger] anchors[j].0) && anchors[j].1
                is Some),
        first_trailer_href(anchors, 0) is None && anchors.len() > 0 ==> chosen_href(anchors)
            == anchors[0].1,
{
    lemma_first_trailer_from(anchors, 0);
}

fn trailer_needle() -> (r: Vec<u8>)
    ensures
        r@ == trailer_bytes(),
{
    let mut v: Vec<u8> = Vec::new();
    v.push(116);
    v.push(114);
    v.push(97);
    v.push(105);
    v.push(108);
    v.push(101);
    v.push(114);
    proof {
        assert(v@ =~= trailer_bytes());
    }
    v
}

/// Choose the detail-page path among the listing's anchors.
pub fn choose_video_anchor(anchors: &Vec<Anchor>) -> (r: Option<String>)
    ensures
        ({
            let views = Seq::new(anchors@.len(), |i: int| (anchors@[i].text@, opt_view(anchors@[i].href)));
            match r {
                Some(h) => chosen_href(views) == Some(h@),
                None => chosen_href(views) is None,
            }
        }),
{
    let ghost views = Seq::new(
        anchors@.len(),
        |i: int| (anchors@[i].text@, opt_view(anchors@[i].href)),
    );
    let needle = trailer_needle();
    let len = anchors.len();
    let mut i: usize = 0;
    while i < len
        invariant
            0 <= i <= len == anchors@.len(),
            views == Seq::new(
                anchors@.len(),
                |k: int| (anchors@[k].text@, opt_view(anchors@[k].href)),
            ),
            needle@ == trailer_bytes(),
            first_trailer_href(views, 0) == first_trailer_href(views, i as int),
        decreases len - i,
    {
        let text_bytes = anchors[i].text.as_str().as_bytes_vec();
        if contains_bytes_ci(&text_bytes, &needle) {
            match &anchors[i].href {
                Some(h) => {
                    return Some(h.clone());
                },
                None => {},
            }
        }
        i = i + 1;
    }
    if len > 0 {
        match &anchors[0].href {
            Some(h) => Some(h.clone()),
            None => None,
        }
    } else {
        None
    }
}

/// The whole listing stage on a fetched page body.
pub open spec fn listing_choice(body: Seq<char>, selector: Seq<char>, attr: Seq<char>) -> Option<
    Seq<char>,
> {
    chosen_href(anchors_of(body, selector, attr))
}

/// Stage one on a 2xx listing body: the path of the chosen video detail
/// page, or nothing when the page shows no suitable anchor.
pub fn get_trailer_video_page_url(body: &str) -> (r: Option<String>)
    ensures
        ({
            let choice = listing_choice(body@, "a[href*=\"/video/vi\"]"@, "href"@);
            match r {
                Some(h) => choice == Some(h@),
                None => choice is None,
            }
        }),
{
    let anchors = select_anchors(body, "a[href*=\"/video/vi\"]", "href");
    proof {
        let views = Seq::new(
            anchors@.len(),
            |i: int| (anchors@[i].text@, opt_view(anchors@[i].href)),
        );
        assert(views =~= anchors_of(body@, "a[href*=\"/video/vi\"]"@, "href"@));
    }
    choose_video_anchor(&anchors)
}

/// Rank of a definition label: 3 for one containing "1080", then 2 for
/// "720", then 1 for "480", else 0; a missing label ranks 0.
pub open spec fn label_priority(def: Option<Seq<char>>) -> int {
    match def {
        None => 0,
        Some(d) => {
            let db = encode_utf8(d);
            if contains_spec(db, label_1080()) {
                3
            } else if contains_spec(db, label_720()) {
                2
            } else if contains_spec(db, label_480()) {
                1
            } else {
                0
            }
        },
    }
}

/// The candidate's mime type is exactly "MP4".
pub open spec fn is_mp4_v(mime: Option<Seq<char>>) -> bool {
    mime matches Some(m) && m == "MP4"@
}

/// Index of the winning MP4 candidate, scanning from `i` with `best`
/// the winner so far: a later candidate of at least the same rank
/// replaces an earlier one.
pub open spec fn best_mp4_from(cands: Seq<CandView>, i: int, best: Option<int>) -> Option<int>
    decreases cands.len() - i when 0 <= i <= cands.len()
{
    if i >= cands.len() {
        best
    } else {
        let takes_over = is_mp4_v(cands[i].1) && (match best {
            None => true,
            Some(b) => label_priority(cands[i].0) >= label_priority(cands[b].0),
        });
        best_mp4_from(
            cands,
            i + 1,
            if takes_over {
                Some(i)
            } else {
                best
            },
        )
    }
}

/// "#t=8", the fragment appended to every chosen URL.
pub open spec fn url_suffix() -> Seq<char> {
    "#t=8"@
}

/// The quality selection: the URL of the winning MP4 candidate; with
/// none (or a winner without a URL), the first raw entry's URL; the
/// fragment `#t=8` appended either way.
pub open spec fn selected_url_v(cands: Seq<CandView>) -> Option<Seq<char>> {
    let best_url = match best_mp4_from(cands, 0, None) {
        None => None,
        Some(b) => cands[b].2,
    };
    match best_url {
        Some(u) => Some(u + url_suffix()),
        None => if cands.len() > 0 {
            match cands[0].2 {
                Some(u) => Some(u + url_suffix()),
                None => None,
            }
        } else {
            None
        },
    }
}

/// What the scan may hold as winner after the first `i` candidates:
/// nothing while no MP4 candidate was seen, else an MP4 candidate of
/// maximal rank, the last among candidates of equal rank.
pub open spec fn best_so_far(cands: Seq<CandView>, i: int, best: Option<int>) -> bool {
    match best {
        None => forall|j: int| 0 <= j < i ==> !is_mp4_v(#[trigger] cands[j].1),
        Some(b) => 0 <= b < i && is_mp4_v(cands[b].1) && (forall|j: int|
            0 <= j < i && is_mp4_v(#[trigger] cands[j].1) ==> label_priority(cands[j].0)
                <= label_priority(cands[b].0)) && (forall|j: int|
            b < j < i && is_mp4_v(#[trigger] cands[j].1) ==> label_priority(cands[j].0)
                < label_priority(cands[b].0)),
    }
}

proof fn lemma_best_mp4_from_good(cands: Seq<CandView>, i: int, best: Option<int>)
    requires
        0 <= i <= cands.len(),
        best_so_far(cands, i, best),
    ensures
        best_so_far(cands, cands.len() as int, best_mp4_from(cands, i, best)),
    decreases cands.len() - i,
{
    if i < cands.len() {
        let takes_over = is_mp4_v(cands[i].1) && (match best {
            None => true,
            Some(b) => label_priority(cands[i].0) >= label_priority(cands[b].0),
        });
        let nb = if takes_over {
            Some(i)
        } else {
            best
        };
        assert(best_so_far(cands, i + 1, nb));
        lemma_best_mp4_from_good(cands, i + 1, nb);
    }
}

/// The quality tie-break, characterized: a winner exists exactly when
/// an MP4 candidate exists; the winner is an MP4 candidate whose rank
/// no MP4 candidate beats, and the last among those of equal rank.
pub proof fn lemma_quality_selection(cands: Seq<CandView>)
    ensures
        (best_mp4_from(cands, 0, None) is Some) <==> exists|i: int|
            0 <= i < cands.len() && is_mp4_v(#[trigger] cands[i].1),
        best_mp4_from(cands, 0, None) matches Some(b) ==> 0 <= b < cands.len() && is_mp4_v(
            cands[b].1,
        ) && (forall|j: int|
            0 <= j < cands.len() && is_mp4_v(#[trigger] cands[j].1) ==> label_priority(cands[j].0)
                <= label_priority(cands[b].0)) && (forall|j: int|
            b < j < cands.len() && is_mp4_v(#[trigger] cands[j].1) ==> label_priority(cands[j].0)
                < label_priority(cands[b].0)),
{
    lemma_best_mp4_from_good(cands, 0, None);
}

fn quality_needles() -> (r: (Vec<u8>, Vec<u8>, Vec<u8>))
    ensures
        r.0@ == label_1080(),
        r.1@ == label_720(),
        r.2@ == label_480(),
{
    let mut a: Vec<u8> = Vec::new();
    a.push(49);
    a.push(48);
    a.push(56);
    a.push(48);
    let mut b: Vec<u8> = Vec::new();
    b.push(55);
    b.push(50);
    b.push(48);
    let mut c: Vec<u8> = Vec::new();
    c.push(52);
    c.push(56);
    c.push(48);
    proof {
        assert(a@ =~= label_1080());
        assert(b@ =~= label_720());
        assert(c@ =~= label_480());
    }
    (a, b, c)
}

fn candidate_priority(c: &VideoCandidate) -> (r: u8)
    ensures
        r as int == label_priority(opt_view(c.definition)),
{
    match &c.definition {
        None => 0,
        Some(d) => {
            let (n1080, n720, n480) = quality_needles();
            let db = d.as_str().as_bytes_vec();
            if contains_bytes(&db, &n1080) {
                3
            } else if contains_bytes(&db, &n720) {
                2
            } else if contains_bytes(&db, &n480) {
                1
            } else {
                0
            }
        },
    }
}

fn candidate_is_mp4(c: &VideoCandidate) -> (r: bool)
    ensures
        r == is_mp4_v(opt_view(c.mime_type)),
{
    match &c.mime_type {
        None => false,
        Some(m) => {
            let mp4 = String::from_str("MP4");
            *m == mp4
        },
    }
}

fn with_suffix(u: &String) -> (r: String)
    ensures
        r@ == u@ + url_suffix(),
{
    let mut s = u.clone();
    s.append("#t=8");
    s
}

/// The quality tie-break on extracted candidates: MP4 entries ranked by
/// definition label, 1080 over 720 over 480 over other, a later entry
/// winning ties; the winner's URL, else the first raw entry's URL, with
/// `#t=8` appended.
pub fn select_playback_url(cands: &Vec<VideoCandidate>) -> (r: Option<String>)
    ensures
        ({
            let views = Seq::new(cands@.len(), |i: int| cand_view(cands@[i]));
            match r {
                Some(u) => selected_url_v(views) == Some(u@),
                None => selected_url_v(views) is None,
            }
        }),
{
    let ghost views = Seq::new(cands@.len(), |i: int| cand_view(cands@[i]));
    let len = cands.len();
    let mut best: Option<usize> = None;
    let mut i: usize = 0;
    while i < len
        invariant
            0 <= i <= len == cands@.len(),
            views == Seq::new(cands@.len(), |k: int| cand_view(cands@[k])),
            match best {
                Some(b) => b < i,
                None => true,
            },
            best_mp4_from(
                views,
                i as int,
                match best {
                    Some(b) => Some(b as int),
                    None => None,
                },
            ) == best_mp4_from(views, 0, None),
        decreases len - i,
    {
        let mp4 = candidate_is_mp4(&cands[i]);
        let takes_over = mp4 && (match best {
            None => true,
            Some(b) => candidate_priority(&cands[i]) >= candidate_priority(&cands[b]),
        });
        if takes_over {
            best = Some(i);
        }
        i = i + 1;
    }
    let winner_url: Option<String> = match best {
        Some(b) => match &cands[b].url {
            Some(u) => Some(u.clone()),
            None => None,
        },
        None => None,
    };
    match winner_url {
        Some(u) => Some(with_suffix(&u)),
        None => {
            if len > 0 {
                match &cands[0].url {
                    Some(u) => Some(with_suffix(u)),
                    None => None,
                }
            } else {
                None
            }
        },
    }
}

/// First line of the bytes: everything before the first newline.
pub open spec fn first_line_bytes(b: Seq<u8>) -> Seq<u8> {
    match find_byte_spec(b, 10, 0) {
        None => b,
        Some(i) => b.subrange(0, i),
    }
}

/// The whole detail stage on a fetched page body: find the structured-
/// data script block, read its first line as JSON, walk to the playback
/// array, and apply the quality selection. `Err` only when the script
/// block's first line is not JSON.
pub open spec fn detail_url_spec(body: Seq<char>) -> Result<Option<Seq<char>>, ()> {
    match selected_inner_html(body, "script#\\__NEXT_DATA__"@) {
        None => Ok(None),
        Some(inner) => if inner.len() == 0 {
            Ok(None)
        } else {
            let json = trim_spec(first_line_bytes(encode_utf8(inner)));
            match playbacks_of(
                json,
                "/props/pageProps/videoPlaybackData/video/playbackURLs"@,
                "videoMimeType"@,
                "videoDefinition"@,
                "url"@,
            ) {
                Err(_) => Err(()),
                Ok(None) => Ok(None),
                Ok(Some(entries)) => Ok(selected_url_v(entries)),
            }
        },
    }
}

/// Stage two on a 2xx detail body: the direct playback URL with `#t=8`
/// appended, `Ok(None)` when the page yields no candidate, an `Err`
/// only when the structured-data block is present but not JSON.
pub fn get_direct_video_url_from_page(body: &str) -> (r: Result<Option<String>, Error>)
    ensures
        match r {
            Ok(Some(u)) => detail_url_spec(body@) == Ok::<Option<Seq<char>>, ()>(Some(u@)),
            Ok(None) => detail_url_spec(body@) == Ok::<Option<Seq<char>>, ()>(None),
            Err(_) => detail_url_spec(body@) is Err,
        },
{
    let inner = match select_first_inner_html(body, "script#\\__NEXT_DATA__") {
        None => {
            return Ok(None);
        },
        Some(s) => s,
    };
    if inner.as_str().is_empty() {
        return Ok(None);
    }
    let bytes = inner.as_str().as_bytes_vec();
    let line_end = match find_byte(&bytes, 10, 0) {
        Some(p) => p,
        None => bytes.len(),
    };
    let line = subvec(&bytes, 0, line_end);
    let json = trim_bytes(&line);
    proof {
        assert(bytes@ == encode_utf8(inner@));
        assert(line@ =~= first_line_bytes(bytes@));
    }
    let entries = match playback_entries(
        &json,
        "/props/pageProps/videoPlaybackData/video/playbackURLs",
        "videoMimeType",
        "videoDefinition",
        "url",
    ) {
        Err(e) => {
            return Err(e);
        },
        Ok(None) => {
            return Ok(None);
        },
        Ok(Some(v)) => v,
    };
    proof {
        let views = Seq::new(entries@.len(), |i: int| cand_view(entries@[i]));
        let spec_entries = playbacks_of(
            trim_spec(first_line_bytes(encode_utf8(inner@))),
            "/props/pageProps/videoPlaybackData/video/playbackURLs"@,
            "videoMimeType"@,
            "videoDefinition"@,
            "url"@,
        )->Ok_0->Some_0;
        assert(views =~= spec_entries);
    }
    match select_playback_url(&entries) {
        Some(u) => Ok(Some(u)),
        None => Ok(None),
    }
}

} // verus!
