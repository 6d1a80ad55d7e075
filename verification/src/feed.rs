//! Feed retrieval: the compute half.
//!
//! A feed response body is JSON whose post list sits at `data.list`. At
//! most `max_count` entries are taken from its front; each must carry a
//! raw text and a parsable timestamp, and each declared media identifier
//! must resolve in the descriptor map when that map is present. Parsing
//! is strict: one malformed entry discards the whole fetch.

use vstd::prelude::*;
use vstd::pervasive::unreached;

use crate::error::{CrawlError, ErrorKind};
use crate::json::{json_get, obj_get, parse_json, spec_get, spec_json_of, spec_obj_get, JsonValue};
use crate::models::{Weibo, WeiboPic, WeiboPicView, WeiboView};
use crate::text::{spec_digits, u64_to_string};
use crate::time::{parse_weibo_created_at, spec_parse_created_at};

verus! {

/// One media descriptor, resolved under `id` in the descriptor map: it
/// must be an object with an object `largest` holding a string `url` and
/// a string `type`; a missing or non-string `video` field yields an
/// empty secondary URL. The error names the first thing that is wrong.
pub open spec fn spec_extract_pic(infos: Seq<(String, JsonValue)>, id: Seq<char>) -> Result<
    WeiboPicView,
    Seq<char>,
> {
    match spec_obj_get(infos, id) {
        Some(JsonValue::Object(info)) => match spec_obj_get(info@, "largest"@) {
            Some(JsonValue::Object(lo)) => match spec_obj_get(lo@, "url"@) {
                Some(JsonValue::Str(u)) => match spec_obj_get(info@, "type"@) {
                    Some(JsonValue::Str(t)) => Ok(
                        WeiboPicView {
                            pic_id: id,
                            pic_type: t@,
                            url: u@,
                            video_url: match spec_obj_get(info@, "video"@) {
                                Some(JsonValue::Str(v)) => v@,
                                _ => Seq::empty(),
                            },
                        },
                    ),
                    _ => Err("failed to get pic_type"@),
                },
                _ => Err("failed to get largest url"@),
            },
            _ => Err("failed to get largest"@),
        },
        _ => Err("failed to get pic_info"@),
    }
}

/// The media descriptors of the declared identifiers, in declaration
/// order; the first failure discards the whole list.
pub open spec fn spec_extract_pics(infos: Seq<(String, JsonValue)>, ids: Seq<JsonValue>) -> Result<
    Seq<WeiboPicView>,
    Seq<char>,
>
    decreases ids.len(),
{
    if ids.len() == 0 {
        Ok(Seq::empty())
    } else {
        match ids[0] {
            JsonValue::Str(id) => match spec_extract_pic(infos, id@) {
                Ok(p) => match spec_extract_pics(infos, ids.drop_first()) {
                    Ok(rest) => Ok(seq![p] + rest),
                    Err(c) => Err(c),
                },
                Err(c) => Err(c),
            },
            _ => Err("failed to get pic_id"@),
        }
    }
}

/// When every declared identifier resolves, a post's media list is
/// exactly as long as its declaration; an absent descriptor map, by
/// contrast, yields zero media items whatever was declared.
pub proof fn lemma_media_count_matches_declaration(
    infos: Seq<(String, JsonValue)>,
    ids: Seq<JsonValue>,
)
    ensures
        spec_extract_pics(infos, ids) matches Ok(ps) ==> ps.len() == ids.len(),
    decreases ids.len(),
{
    if ids.len() != 0 {
        lemma_media_count_matches_declaration(infos, ids.drop_first());
    }
}

/// One post entry: a string `text_raw`, a string `created_at` in the
/// fixed source format, a `pic_ids` array of strings, and, only when a
/// `pic_infos` object is present, one resolved descriptor per declared
/// identifier. An absent or non-object `pic_infos` yields zero media
/// items even when identifiers are declared.
pub open spec fn spec_extract_post(wb: JsonValue) -> Result<WeiboView, Seq<char>> {
    match spec_get(wb, "text_raw"@) {
        Some(JsonValue::Str(text)) => match spec_get(wb, "created_at"@) {
            Some(JsonValue::Str(ca)) => match spec_parse_created_at(ca@) {
                Some(ts) => match spec_get(wb, "pic_ids"@) {
                    Some(JsonValue::Array(ids)) => if forall|i: int|
                        0 <= i < ids@.len() ==> ids@[i] is Str {
                        match spec_get(wb, "pic_infos"@) {
                            Some(JsonValue::Object(infos)) => match spec_extract_pics(
                                infos@,
                                ids@,
                            ) {
                                Ok(pics) => Ok(
                                    WeiboView { text_raw: text@, created_at: ts, pics },
                                ),
                                Err(c) => Err(c),
                            },
                            _ => Ok(
                                WeiboView { text_raw: text@, created_at: ts, pics: Seq::empty() },
                            ),
                        }
                    } else {
                        Err("failed to get pic_id"@)
                    },
                    _ => Err("failed to get pic_ids"@),
                },
                None => Err("invalid created_at"@),
            },
            _ => Err("failed to get created_at"@),
        },
        _ => Err("failed to get text_raw"@),
    }
}

/// The posts of the given entries, in order; the first malformed entry
/// discards them all.
pub open spec fn spec_extract_list(entries: Seq<JsonValue>) -> Result<Seq<WeiboView>, Seq<char>>
    decreases entries.len(),
{
    if entries.len() == 0 {
        Ok(Seq::empty())
    } else {
        match spec_extract_post(entries[0]) {
            Ok(w) => match spec_extract_list(entries.drop_first()) {
                Ok(rest) => Ok(seq![w] + rest),
                Err(c) => Err(c),
            },
            Err(c) => Err(c),
        }
    }
}

/// What a parsed success-status feed body yields for `max_count = n`:
/// the post list must sit at `data.list`, and at most `n` entries are
/// taken from its front.
pub open spec fn spec_extract_posts(v: JsonValue, n: int) -> Result<Seq<WeiboView>, Seq<char>> {
    let list = match spec_get(v, "data"@) {
        Some(d) => spec_get(d, "list"@),
        None => None,
    };
    match list {
        Some(JsonValue::Array(l)) => {
            let k = if n <= l@.len() {
                n
            } else {
                l@.len() as int
            };
            spec_extract_list(l@.take(k))
        },
        _ => Err("failed to get list"@),
    }
}

/// What a success-status feed body yields: unparsable JSON is a
/// malformed response, anything else goes by [`spec_extract_posts`].
pub open spec fn spec_posts_from_body(body: Seq<char>, n: int) -> Result<Seq<WeiboView>, Seq<char>> {
    match spec_json_of(body) {
        None => Err("malformed feed response"@),
        Some(v) => spec_extract_posts(v, n),
    }
}

/// Resolves one declared media identifier in the descriptor map.
fn extract_pic(infos: &Vec<(String, JsonValue)>, id: &String) -> (r: Result<WeiboPic, CrawlError>)
    ensures
        match r {
            Ok(p) => spec_extract_pic(infos@, id@) == Ok::<WeiboPicView, Seq<char>>(p.deep_view()),
            Err(e) => e.kind == ErrorKind::Fetch && (spec_extract_pic(infos@, id@) matches Err(c)
                && c == e.cause@),
        },
{
    let info = match obj_get(infos, id.as_str()) {
        Some(JsonValue::Object(info)) => info,
        _ => {
            return Err(CrawlError::fetch("failed to get pic_info"));
        },
    };
    let lo = match obj_get(info, "largest") {
        Some(JsonValue::Object(lo)) => lo,
        _ => {
            return Err(CrawlError::fetch("failed to get largest"));
        },
    };
    let url = match obj_get(lo, "url") {
        Some(JsonValue::Str(u)) => u,
        _ => {
            return Err(CrawlError::fetch("failed to get largest url"));
        },
    };
    let pic_type = match obj_get(info, "type") {
        Some(JsonValue::Str(t)) => t,
        _ => {
            return Err(CrawlError::fetch("failed to get pic_type"));
        },
    };
    let video_url = match obj_get(info, "video") {
        Some(JsonValue::Str(v)) => v.clone(),
        _ => String::new(),
    };
    Ok(
        WeiboPic {
            pic_id: id.clone(),
            pic_type: pic_type.clone(),
            url: url.clone(),
            video_url,
        },
    )
}

/// Extracts one post entry.
#[verifier::loop_isolation(false)]
fn extract_post(wb: &JsonValue) -> (r: Result<Weibo, CrawlError>)
    ensures
        match r {
            Ok(w) => spec_extract_post(*wb) == Ok::<WeiboView, Seq<char>>(w.deep_view())
                && w.created_at.wf(),
            Err(e) => e.kind == ErrorKind::Fetch && (spec_extract_post(*wb) matches Err(c) && c
                == e.cause@),
        },
{
    let text = match json_get(wb, "text_raw") {
        Some(JsonValue::Str(t)) => t,
        _ => {
            return Err(CrawlError::fetch("failed to get text_raw"));
        },
    };
    let ca = match json_get(wb, "created_at") {
        Some(JsonValue::Str(c)) => c,
        _ => {
            return Err(CrawlError::fetch("failed to get created_at"));
        },
    };
    let ts = match parse_weibo_created_at(ca.as_str()) {
        Ok(t) => t,
        Err(_) => {
            return Err(CrawlError::fetch("invalid created_at"));
        },
    };
    let ids = match json_get(wb, "pic_ids") {
        Some(JsonValue::Array(a)) => a,
        _ => {
            return Err(CrawlError::fetch("failed to get pic_ids"));
        },
    };
    let mut i: usize = 0;
    while i < ids.len()
        invariant
            i <= ids@.len(),
            forall|j: int| 0 <= j < i ==> ids@[j] is Str,
        decreases ids@.len() - i,
    {
        match &ids[i] {
            JsonValue::Str(_) => {},
            _ => {
                proof {
                    assert(!(forall|j: int| 0 <= j < ids@.len() ==> ids@[j] is Str)) by {
                        assert(!(ids@[i as int] is Str));
                    }
                }
                return Err(CrawlError::fetch("failed to get pic_id"));
            },
        }
        i = i + 1;
    }
    let infos = match json_get(wb, "pic_infos") {
        Some(JsonValue::Object(ps)) => Some(ps),
        _ => None,
    };
    let mut pics: Vec<WeiboPic> = Vec::new();
    if let Some(infos) = infos {
        let mut i: usize = 0;
        proof {
            assert(ids@.skip(0) =~= ids@);
            let r0 = spec_extract_pics(infos@, ids@);
            if r0 is Ok {
                assert(pics.deep_view() + r0->Ok_0 =~= r0->Ok_0);
            }
        }
        while i < ids.len()
            invariant
                i <= ids@.len(),
                forall|j: int| 0 <= j < ids@.len() ==> ids@[j] is Str,
                spec_extract_pics(infos@, ids@) == (match spec_extract_pics(
                    infos@,
                    ids@.skip(i as int),
                ) {
                    Ok(rest) => Ok::<Seq<WeiboPicView>, Seq<char>>(pics.deep_view() + rest),
                    Err(c) => Err(c),
                }),
            decreases ids@.len() - i,
        {
            proof {
                assert(ids@.skip(i as int)[0] == ids@[i as int]);
                assert(ids@.skip(i as int).drop_first() =~= ids@.skip(i + 1));
            }
            let id = match &ids[i] {
                JsonValue::Str(s) => s,
                _ => unreached(),
            };
            match extract_pic(infos, id) {
                Ok(p) => {
                    let ghost old_dv = pics.deep_view();
                    pics.push(p);
                    proof {
                        assert(pics.deep_view() =~= old_dv.push(p.deep_view()));
                        let r1 = spec_extract_pics(infos@, ids@.skip(i + 1));
                        if r1 is Ok {
                            assert(old_dv + (seq![p.deep_view()] + r1->Ok_0) =~= old_dv.push(
                                p.deep_view(),
                            ) + r1->Ok_0);
                        }
                    }
                },
                Err(e) => {
                    proof {
                        assert(spec_extract_pics(infos@, ids@.skip(i as int))
                            == Err::<Seq<WeiboPicView>, Seq<char>>(e.cause@));
                        assert(spec_extract_pics(infos@, ids@) == Err::<
                            Seq<WeiboPicView>,
                            Seq<char>,
                        >(e.cause@));
                    }
                    return Err(e);
                },
            }
            i = i + 1;
        }
        proof {
            assert(ids@.skip(ids@.len() as int).len() == 0);
            assert(pics.deep_view() + Seq::<WeiboPicView>::empty() =~= pics.deep_view());
        }
    }
    let w = Weibo { text_raw: text.clone(), created_at: ts, pics };
    proof {
        match spec_extract_post(*wb) {
            Ok(v) => {
                assert(v =~= w.deep_view());
            },
            Err(_) => {},
        }
    }
    Ok(w)
}

/// Extracts up to `n` posts from the front of the list at `data.list` of
/// a parsed feed body. Strict: the first malformed entry fails the whole
/// call with the cause [`spec_extract_posts`] gives for it.
#[verifier::loop_isolation(false)]
pub fn extract_posts(v: &JsonValue, n: usize) -> (r: Result<Vec<Weibo>, CrawlError>)
    ensures
        match r {
            Ok(ws) => (spec_extract_posts(*v, n as int) matches Ok(s) && s == ws.deep_view())
                && (forall|i: int| 0 <= i < ws@.len() ==> ws@[i].created_at.wf()),
            Err(e) => e.kind == ErrorKind::Fetch && (spec_extract_posts(*v, n as int) matches Err(c)
                && c == e.cause@),
        },
{
    let data = json_get(v, "data");
    let list_v = match data {
        Some(d) => json_get(d, "list"),
        None => None,
    };
    let list = match list_v {
        Some(JsonValue::Array(l)) => l,
        _ => {
            return Err(CrawlError::fetch("failed to get list"));
        },
    };
    let k = if n <= list.len() {
        n
    } else {
        list.len()
    };
    let ghost es = list@.take(k as int);
    let mut out: Vec<Weibo> = Vec::new();
    let mut i: usize = 0;
    proof {
        assert(es.skip(0) =~= es);
        let r0 = spec_extract_list(es);
        if r0 is Ok {
            assert(out.deep_view() + r0->Ok_0 =~= r0->Ok_0);
        }
    }
    while i < k
        invariant
            i <= k <= list@.len(),
            es == list@.take(k as int),
            forall|j: int| 0 <= j < out@.len() ==> out@[j].created_at.wf(),
            spec_extract_list(es) == (match spec_extract_list(es.skip(i as int)) {
                Ok(rest) => Ok::<Seq<WeiboView>, Seq<char>>(out.deep_view() + rest),
                Err(c) => Err(c),
            }),
        decreases k - i,
    {
        proof {
            assert(es.skip(i as int)[0] == es[i as int]);
            assert(es[i as int] == list@[i as int]);
            assert(es.skip(i as int).drop_first() =~= es.skip(i + 1));
        }
        match extract_post(&list[i]) {
            Ok(w) => {
                let ghost old_dv = out.deep_view();
                out.push(w);
                proof {
                    assert(out.deep_view() =~= old_dv.push(out@[out@.len() - 1].deep_view()));
                    let r1 = spec_extract_list(es.skip(i + 1));
                    if r1 is Ok {
                        assert(old_dv + (seq![out@[out@.len() - 1].deep_view()] + r1->Ok_0)
                            =~= old_dv.push(out@[out@.len() - 1].deep_view()) + r1->Ok_0);
                    }
                }
            },
            Err(e) => {
                proof {
                    assert(spec_extract_list(es.skip(i as int)) == Err::<Seq<WeiboView>, Seq<char>>(
                        e.cause@,
                    ));
                    assert(spec_extract_list(es) == Err::<Seq<WeiboView>, Seq<char>>(e.cause@));
                }
                return Err(e);
            },
        }
        i = i + 1;
    }
    proof {
        assert(es.skip(k as int).len() == 0);
        assert(out.deep_view() + Seq::<WeiboView>::empty() =~= out.deep_view());
    }
    Ok(out)
}

/// Turns the feed endpoint's status and body into the extracted posts.
/// A non-success status, unparsable JSON, and every structural failure
/// of [`spec_posts_from_body`] are each a fetch error with its cause.
pub fn posts_from_response(status: u16, body: &str, n: usize) -> (r: Result<Vec<Weibo>, CrawlError>)
    ensures
        200 <= status < 300 ==> match r {
            Ok(ws) => (spec_posts_from_body(body@, n as int) matches Ok(s) && s == ws.deep_view())
                && (forall|i: int| 0 <= i < ws@.len() ==> ws@[i].created_at.wf()),
            Err(e) => e.kind == ErrorKind::Fetch && (spec_posts_from_body(body@, n as int)
                matches Err(c) && c == e.cause@),
        },
        !(200 <= status < 300) ==> match r {
            Ok(_) => false,
            Err(e) => e.kind == ErrorKind::Fetch && e.cause@ == "bad feed status "@ + spec_digits(
                status as int,
            ),
        },
{
    if !(200 <= status && status < 300) {
        let mut cause = String::from_str("bad feed status ");
        cause.append(u64_to_string(status as u64).as_str());
        return Err(CrawlError { kind: ErrorKind::Fetch, cause });
    }
    match parse_json(body) {
        Some(v) => extract_posts(&v, n),
        None => Err(CrawlError::fetch("malformed feed response")),
    }
}

} // verus!
