//! The post and media records a feed response is extracted into, and
//! their text rendering for the append-only log.

use vstd::prelude::*;

use crate::text::{spec_digits, u64_to_string};
use crate::time::{format_timestamp, spec_format_timestamp, Timestamp};

verus! {

/// One attached media item of a post.
#[derive(Debug)]
pub struct WeiboPic {
    /// The identifier the descriptor was resolved under.
    pub pic_id: String,
    /// The kind tag: a photo, or a video-bearing photo.
    pub pic_type: String,
    /// The largest-rendition binary URL.
    pub url: String,
    /// The secondary video URL; empty when the descriptor has none.
    pub video_url: String,
}

/// The mathematical shadow of a [`WeiboPic`].
#[verifier::ext_equal]
pub struct WeiboPicView {
    pub pic_id: Seq<char>,
    pub pic_type: Seq<char>,
    pub url: Seq<char>,
    pub video_url: Seq<char>,
}

impl View for WeiboPic {
    type V = WeiboPicView;

    open spec fn view(&self) -> WeiboPicView {
        WeiboPicView {
            pic_id: self.pic_id@,
            pic_type: self.pic_type@,
            url: self.url@,
            video_url: self.video_url@,
        }
    }
}

impl DeepView for WeiboPic {
    type V = WeiboPicView;

    open spec fn deep_view(&self) -> WeiboPicView {
        self.view()
    }
}

/// One post: its raw text, publish timestamp, and attached media.
#[derive(Debug)]
pub struct Weibo {
    pub text_raw: String,
    pub created_at: Timestamp,
    pub pics: Vec<WeiboPic>,
}

/// The mathematical shadow of a [`Weibo`].
#[verifier::ext_equal]
pub struct WeiboView {
    pub text_raw: Seq<char>,
    pub created_at: Timestamp,
    pub pics: Seq<WeiboPicView>,
}

impl View for Weibo {
    type V = WeiboView;

    open spec fn view(&self) -> WeiboView {
        WeiboView {
            text_raw: self.text_raw@,
            created_at: self.created_at,
            pics: self.pics.deep_view(),
        }
    }
}

impl DeepView for Weibo {
    type V = WeiboView;

    open spec fn deep_view(&self) -> WeiboView {
        self.view()
    }
}

/// The one-line rendering of a media item; the video URL appears only
/// when there is one.
pub open spec fn spec_pic_text(p: WeiboPicView) -> Seq<char> {
    let base = "id: "@ + p.pic_id + " type: "@ + p.pic_type + " url: "@ + p.url;
    if p.video_url.len() > 0 {
        base + " video_url: "@ + p.video_url
    } else {
        base
    }
}

/// The renderings of the media items, joined by line breaks.
pub open spec fn spec_join_pics(ps: Seq<WeiboPicView>) -> Seq<char>
    decreases ps.len(),
{
    if ps.len() == 0 {
        Seq::empty()
    } else if ps.len() == 1 {
        spec_pic_text(ps[0])
    } else {
        spec_pic_text(ps[0]) + "\n"@ + spec_join_pics(ps.drop_first())
    }
}

/// The rendering of a post: timestamp, raw text, media count and the
/// media lines.
pub open spec fn spec_weibo_text(w: WeiboView) -> Seq<char> {
    "created_at: "@ + spec_format_timestamp(w.created_at) + "\ntext: "@ + w.text_raw + "\n"@
        + spec_digits(w.pics.len() as int) + " pics: \n"@ + spec_join_pics(w.pics)
}

/// The block appended to the log for one post: its rendering and a
/// blank separator line.
pub open spec fn spec_log_block(w: WeiboView) -> Seq<char> {
    spec_weibo_text(w) + "\n\n"@
}

/// Joining one more media line: the separator appears only between lines.
proof fn lemma_join_snoc(ps: Seq<WeiboPicView>, p: WeiboPicView)
    ensures
        spec_join_pics(ps.push(p)) == if ps.len() == 0 {
            spec_pic_text(p)
        } else {
            spec_join_pics(ps) + "\n"@ + spec_pic_text(p)
        },
    decreases ps.len(),
{
    if ps.len() == 0 {
        assert(ps.push(p).len() == 1);
        assert(ps.push(p)[0] == p);
        assert(spec_join_pics(ps.push(p)) == spec_pic_text(p));
    } else if ps.len() == 1 {
        assert(ps.push(p).len() == 2);
        assert(ps.push(p)[0] == ps[0]);
        assert(ps.push(p).drop_first() =~= seq![p]);
        assert(spec_join_pics(seq![p]) == spec_pic_text(p));
        assert(spec_join_pics(ps.push(p)) == spec_pic_text(ps[0]) + "\n"@ + spec_pic_text(p));
        assert(spec_join_pics(ps) == spec_pic_text(ps[0]));
    } else {
        assert(ps.push(p)[0] == ps[0]);
        assert(ps.push(p).drop_first() =~= ps.drop_first().push(p));
        lemma_join_snoc(ps.drop_first(), p);
        assert(spec_join_pics(ps.push(p)) == spec_pic_text(ps[0]) + "\n"@ + spec_join_pics(
            ps.drop_first().push(p),
        ));
        assert(spec_join_pics(ps) == spec_pic_text(ps[0]) + "\n"@ + spec_join_pics(
            ps.drop_first(),
        ));
        assert(spec_pic_text(ps[0]) + "\n"@ + (spec_join_pics(ps.drop_first()) + "\n"@
            + spec_pic_text(p)) =~= (spec_pic_text(ps[0]) + "\n"@ + spec_join_pics(
            ps.drop_first(),
        )) + "\n"@ + spec_pic_text(p));
    }
}

impl WeiboPic {
    /// Renders the media item on one line.
    pub fn to_text(&self) -> (r: String)
        ensures
            r@ == spec_pic_text(self@),
    {
        let mut out = String::from_str("id: ");
        out.append(self.pic_id.as_str());
        out.append(" type: ");
        out.append(self.pic_type.as_str());
        out.append(" url: ");
        out.append(self.url.as_str());
        if !self.video_url.as_str().is_empty() {
            out.append(" video_url: ");
            out.append(self.video_url.as_str());
        }
        out
    }
}

impl Weibo {
    /// Renders the post as the original log shows it.
    pub fn to_text(&self) -> (r: String)
        requires
            self.created_at.wf(),
        ensures
            r@ == spec_weibo_text(self@),
    {
        let mut out = String::from_str("created_at: ");
        out.append(format_timestamp(&self.created_at).as_str());
        out.append("\ntext: ");
        out.append(self.text_raw.as_str());
        out.append("\n");
        out.append(u64_to_string(self.pics.len() as u64).as_str());
        out.append(" pics: \n");
        let mut i: usize = 0;
        let ghost pre = out@;
        let ghost dv = self.pics.deep_view();
        proof {
            assert(dv.take(0) =~= Seq::<WeiboPicView>::empty());
            assert(pre + spec_join_pics(Seq::<WeiboPicView>::empty()) =~= pre);
        }
        while i < self.pics.len()
            invariant
                i <= self.pics@.len(),
                dv == self.pics.deep_view(),
                dv.len() == self.pics@.len(),
                out@ == pre + spec_join_pics(dv.take(i as int)),
            decreases self.pics@.len() - i,
        {
            proof {
                assert(dv.take(i + 1) =~= dv.take(i as int).push(dv[i as int]));
                lemma_join_snoc(dv.take(i as int), dv[i as int]);
            }
            if i > 0 {
                out.append("\n");
                let line = self.pics[i].to_text();
                out.append(line.as_str());
                proof {
                    assert(pre + (spec_join_pics(dv.take(i as int)) + "\n"@ + spec_pic_text(
                        dv[i as int],
                    )) =~= pre + spec_join_pics(dv.take(i as int)) + "\n"@ + spec_pic_text(
                        dv[i as int],
                    ));
                }
            } else {
                let line = self.pics[i].to_text();
                out.append(line.as_str());
                proof {
                    assert(pre + spec_join_pics(dv.take(0)) + spec_pic_text(dv[0]) =~= pre
                        + spec_pic_text(dv[0]));
                }
            }
            i = i + 1;
        }
        proof {
            assert(dv.take(self.pics@.len() as int) =~= dv);
        }
        out
    }

    /// The block to append to the log for this post.
    pub fn to_log_block(&self) -> (r: String)
        requires
            self.created_at.wf(),
        ensures
            r@ == spec_log_block(self@),
    {
        let mut out = self.to_text();
        out.append("\n\n");
        out
    }
}

} // verus!
