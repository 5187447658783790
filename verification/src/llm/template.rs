//! The `{{tag}}` template language of custom prompts.
//!
//! Finding the tags is left to the `regex` crate (pattern `\{\{(\w+)\}\}`);
//! what each tag is replaced with is this module's own, verified logic.
use vstd::prelude::*;

use crate::llm::client::{has_char, HistoryEntry};
use crate::llm::prompt_text::{EN_LIST_SEP, LANG_ZH, ZH_LIST_SEP};
use crate::text::{
    chars_eq_str, chars_of, decimal, join, push_decimal, push_join, push_str,
    string_of, views,
};

verus! {

pub const CLIPBOARD_LIMIT: usize = 500;

pub const MAX_HISTORY_CONTEXT: usize = 10;

pub const TAG_CLIPBOARD: &'static str = "clipboard";

pub const TAG_VOCABULARY: &'static str = "vocabulary";

pub const TAG_USER_TAGS: &'static str = "user_tags";

pub const TAG_ACTIVE_APP: &'static str = "active_app";

pub const TAG_LANGUAGE: &'static str = "language";

pub const TAG_HISTORY: &'static str = "history";

pub const ELLIPSIS: &'static str = "…";

pub const STT_LABEL: &'static str = ". STT: ";

pub const CORRECTED_LABEL: &'static str = " → Corrected: ";

pub const NEWLINE: &'static str = "\n";

/// The values a template can refer to.
pub struct TemplateContext<'a> {
    pub clipboard: Option<&'a str>,
    pub vocabulary: &'a [String],
    pub user_tags: &'a [String],
    pub active_app: Option<&'a str>,
    pub language: &'a str,
    pub history: &'a [HistoryEntry],
}

/// The mathematical content of a `TemplateContext`.
pub struct TemplateValues {
    pub clipboard: Option<Seq<char>>,
    pub vocabulary: Seq<Seq<char>>,
    pub user_tags: Seq<Seq<char>>,
    pub active_app: Option<Seq<char>>,
    pub language: Seq<char>,
    pub history: Seq<HistoryEntry>,
}

pub open spec fn opt_view(o: Option<&str>) -> Option<Seq<char>> {
    match o {
        Some(s) => Some(s@),
        None => None,
    }
}

impl<'a> TemplateContext<'a> {
    pub open spec fn values(&self) -> TemplateValues {
        TemplateValues {
            clipboard: opt_view(self.clipboard),
            vocabulary: views(self.vocabulary@),
            user_tags: views(self.user_tags@),
            active_app: opt_view(self.active_app),
            language: self.language@,
            history: self.history@,
        }
    }
}

/// Views of (whole match, tag name) pairs.
pub open spec fn tag_views(v: Seq<(String, String)>) -> Seq<(Seq<char>, Seq<char>)> {
    v.map_values(|p: (String, String)| (p.0@, p.1@))
}

/// What `{{clipboard}}` becomes: nothing when absent or empty, the first
/// `CLIPBOARD_LIMIT` characters and an ellipsis when longer than that.
pub open spec fn clipboard_text(clip: Option<Seq<char>>) -> Seq<char> {
    match clip {
        Some(s) => if s.len() == 0 {
            Seq::empty()
        } else if s.len() > CLIPBOARD_LIMIT {
            s.take(CLIPBOARD_LIMIT as int) + ELLIPSIS@
        } else {
            s
        },
        None => Seq::empty(),
    }
}

/// The list separator of a language: `、` for Chinese, `, ` otherwise.
pub open spec fn list_sep(language: Seq<char>) -> Seq<char> {
    if language == LANG_ZH@ {
        ZH_LIST_SEP@
    } else {
        EN_LIST_SEP@
    }
}

/// What `{{vocabulary}}` becomes.
pub open spec fn vocabulary_text(vocab: Seq<Seq<char>>, language: Seq<char>) -> Seq<char> {
    if vocab.len() == 0 {
        Seq::empty()
    } else {
        join(vocab, list_sep(language))
    }
}

/// The last `MAX_HISTORY_CONTEXT` entries.
pub open spec fn recent_history(h: Seq<HistoryEntry>) -> Seq<HistoryEntry> {
    if h.len() > MAX_HISTORY_CONTEXT {
        h.subrange(h.len() - MAX_HISTORY_CONTEXT, h.len() as int)
    } else {
        h
    }
}

/// `"{i + 1}. STT: {original} → Corrected: {corrected}"`.
pub open spec fn history_line(i: int, e: HistoryEntry) -> Seq<char> {
    decimal((i + 1) as nat) + STT_LABEL@ + e.original@ + CORRECTED_LABEL@ + e.corrected@
}

/// One numbered line per recent history entry.
pub open spec fn history_lines(h: Seq<HistoryEntry>) -> Seq<Seq<char>> {
    Seq::new(recent_history(h).len(), |i: int| history_line(i, recent_history(h)[i]))
}

/// What `{{history}}` becomes: the recent lines, newline-separated.
pub open spec fn history_text(h: Seq<HistoryEntry>) -> Seq<char> {
    join(history_lines(h), NEWLINE@)
}

pub open spec fn known_tag(name: Seq<char>) -> bool {
    ||| name == TAG_CLIPBOARD@
    ||| name == TAG_VOCABULARY@
    ||| name == TAG_USER_TAGS@
    ||| name == TAG_ACTIVE_APP@
    ||| name == TAG_LANGUAGE@
    ||| name == TAG_HISTORY@
}

/// What one tag occurrence `(whole match, name)` is replaced with; an unknown
/// tag is kept verbatim.
pub open spec fn tag_text(tag: (Seq<char>, Seq<char>), v: TemplateValues) -> Seq<char> {
    let name = tag.1;
    if name == TAG_CLIPBOARD@ {
        clipboard_text(v.clipboard)
    } else if name == TAG_VOCABULARY@ {
        vocabulary_text(v.vocabulary, v.language)
    } else if name == TAG_USER_TAGS@ {
        join(v.user_tags, EN_LIST_SEP@)
    } else if name == TAG_ACTIVE_APP@ {
        match v.active_app {
            Some(a) => a,
            None => Seq::empty(),
        }
    } else if name == TAG_LANGUAGE@ {
        v.language
    } else if name == TAG_HISTORY@ {
        history_text(v.history)
    } else {
        tag.0
    }
}

/// The text between tags interleaved with the tags' replacements:
/// `segs[0] + tag_text(tags[0]) + segs[1] + ...`.
pub open spec fn render_pieces(
    segs: Seq<Seq<char>>,
    tags: Seq<(Seq<char>, Seq<char>)>,
    v: TemplateValues,
) -> Seq<char>
    decreases tags.len(),
{
    if tags.len() == 0 {
        if segs.len() > 0 {
            segs[0]
        } else {
            Seq::empty()
        }
    } else {
        let k = tags.len() - 1;
        render_pieces(segs, tags.drop_last(), v) + tag_text(tags[k], v) + (if k + 1 < segs.len() {
            segs[k + 1]
        } else {
            Seq::empty()
        })
    }
}

/// The text between tags interleaved with the tags themselves.
pub open spec fn reassemble(segs: Seq<Seq<char>>, tags: Seq<(Seq<char>, Seq<char>)>) -> Seq<char>
    decreases tags.len(),
{
    if tags.len() == 0 {
        if segs.len() > 0 {
            segs[0]
        } else {
            Seq::empty()
        }
    } else {
        let k = tags.len() - 1;
        reassemble(segs, tags.drop_last()) + tags[k].0 + (if k + 1 < segs.len() {
            segs[k + 1]
        } else {
            Seq::empty()
        })
    }
}

/// Names the pieces that `regex::Regex::split` yields for the tag pattern
/// `\{\{(\w+)\}\}` on `text`.
pub uninterp spec fn tag_split(text: Seq<char>) -> Seq<Seq<char>>;

/// Names the (whole match, first group) pairs that
/// `regex::Regex::captures_iter` yields for the tag pattern on `text`.
pub uninterp spec fn tag_matches(text: Seq<char>) -> Seq<(Seq<char>, Seq<char>)>;

/// Calls `regex::Regex::split` with the tag pattern. The contract names the
/// pieces `tag_split(text)`, and states what the crate documents of `split`
/// together with the pattern: every match begins with `{`, and a text
/// without a match is yielded whole, as the one piece.
#[verifier::external_body]
fn split_around_tags(text: &str) -> (parts: Vec<String>)
    ensures
        views(parts@) == tag_split(text@),
        !has_char(text@, '{') ==> views(parts@) == seq![text@],
{
    let re = regex::Regex::new(r"\{\{(\w+)\}\}").unwrap();
    re.split(text).map(|p| p.to_string()).collect()
}

/// Calls `regex::Regex::captures_iter` with the tag pattern. The contract
/// names the (whole match, tag name) pairs `tag_matches(text)` and states
/// what the crate documents of `split` and `captures_iter` over one pattern:
/// both walk the same non-overlapping matches left to right, so there is one
/// more piece than matches, and pieces and matches, interleaved, give back
/// the text. Each whole match is the tag name between `{{` and `}}`, the
/// pattern's first group. Which substrings the pattern's `\w` accepts is
/// not stated.
#[verifier::external_body]
fn find_tags(text: &str) -> (tags: Vec<(String, String)>)
    ensures
        tag_views(tags@) == tag_matches(text@),
        tag_split(text@).len() == tags@.len() + 1,
        reassemble(tag_split(text@), tag_views(tags@)) == text@,
        forall|k: int|
            0 <= k < tags@.len() ==> (#[trigger] tags@[k]).0@ == "{{"@ + tags@[k].1@ + "}}"@,
{
    let re = regex::Regex::new(r"\{\{(\w+)\}\}").unwrap();
    re.captures_iter(text).map(|c| (c[0].to_string(), c[1].to_string())).collect()
}

/// An occurrence of an unknown tag is replaced by itself, so a template whose
/// tags are all unknown renders to the plain reassembly of its pieces.
pub proof fn lemma_unknown_tags_reassemble(
    segs: Seq<Seq<char>>,
    tags: Seq<(Seq<char>, Seq<char>)>,
    v: TemplateValues,
)
    requires
        forall|k: int| 0 <= k < tags.len() ==> !known_tag(#[trigger] tags[k].1),
    ensures
        render_pieces(segs, tags, v) == reassemble(segs, tags),
    decreases tags.len(),
{
    if tags.len() > 0 {
        let t = tags.drop_last();
        assert forall|k: int| 0 <= k < t.len() implies !known_tag(#[trigger] t[k].1) by {
            assert(t[k] == tags[k]);
        }
        lemma_unknown_tags_reassemble(segs, t, v);
        let last = tags[tags.len() - 1];
        assert(!known_tag(last.1));
        assert(tag_text(last, v) == last.0);
    }
}

/// A clipboard longer than `CLIPBOARD_LIMIT` characters renders as its
/// first `CLIPBOARD_LIMIT` characters followed by `…`; a shorter one renders
/// whole, and an absent one as nothing.
pub proof fn law_clipboard_keeps_prefix(clip: Seq<char>)
    ensures
        clip.len() > CLIPBOARD_LIMIT ==> clipboard_text(Some(clip)).len() == CLIPBOARD_LIMIT + 1,
        clip.len() > CLIPBOARD_LIMIT ==> forall|i: int|
            0 <= i < CLIPBOARD_LIMIT ==> #[trigger] clipboard_text(Some(clip))[i] == clip[i],
        clip.len() > CLIPBOARD_LIMIT ==> clipboard_text(Some(clip))[CLIPBOARD_LIMIT as int] == '…',
        clip.len() <= CLIPBOARD_LIMIT ==> clipboard_text(Some(clip)) == clip,
        clipboard_text(None) == Seq::<char>::empty(),
{
    reveal_strlit("…");
    if clip.len() == 0 {
        assert(clip =~= Seq::<char>::empty());
    }
}

/// `clipboard_text(clip)`.
pub fn render_clipboard(clip: Option<&str>) -> (s: String)
    ensures
        s@ == clipboard_text(opt_view(clip)),
{
    match clip {
        Some(c) => {
            let v = chars_of(c);
            if v.len() == 0 {
                String::new()
            } else if v.len() > CLIPBOARD_LIMIT {
                let mut out: Vec<char> = Vec::new();
                let mut i: usize = 0;
                while i < CLIPBOARD_LIMIT
                    invariant
                        i <= CLIPBOARD_LIMIT < v.len(),
                        out@ == v@.take(i as int),
                    decreases CLIPBOARD_LIMIT - i,
                {
                    out.push(v[i]);
                    assert(v@.take(i as int).push(v@[i as int]) =~= v@.take(i + 1));
                    i += 1;
                }
                push_str(&mut out, ELLIPSIS);
                string_of(&out)
            } else {
                string_of(&v)
            }
        },
        None => String::new(),
    }
}

/// Whether `language` is Chinese (`"zh"`).
pub fn is_zh(language: &str) -> (b: bool)
    ensures
        b == (language@ == LANG_ZH@),
{
    let v = chars_of(language);
    chars_eq_str(&v, LANG_ZH)
}

/// `vocabulary_text(vocab, language)`.
pub fn render_vocabulary(vocab: &[String], language: &str) -> (s: String)
    ensures
        s@ == vocabulary_text(views(vocab@), language@),
{
    if vocab.len() == 0 {
        return String::new();
    }
    let mut out: Vec<char> = Vec::new();
    if is_zh(language) {
        push_join(&mut out, vocab, ZH_LIST_SEP);
    } else {
        push_join(&mut out, vocab, EN_LIST_SEP);
    }
    string_of(&out)
}

/// Appends `history_line(i, e)`.
pub fn push_history_line(dst: &mut Vec<char>, i: usize, e: &HistoryEntry)
    requires
        i < MAX_HISTORY_CONTEXT,
    ensures
        final(dst)@ == old(dst)@ + history_line(i as int, *e),
{
    let ghost start = dst@;
    push_decimal(dst, (i + 1) as u64);
    push_str(dst, STT_LABEL);
    push_str(dst, e.original.as_str());
    push_str(dst, CORRECTED_LABEL);
    push_str(dst, e.corrected.as_str());
    assert(dst@ =~= start + history_line(i as int, *e));
}

/// The index of the first recent entry.
pub fn recent_start(len: usize) -> (s: usize)
    ensures
        s == (if len > MAX_HISTORY_CONTEXT {
            len - MAX_HISTORY_CONTEXT
        } else {
            0
        }),
{
    if len > MAX_HISTORY_CONTEXT {
        len - MAX_HISTORY_CONTEXT
    } else {
        0
    }
}

/// `history_text(history)`.
pub fn render_history(history: &[HistoryEntry]) -> (s: String)
    ensures
        s@ == history_text(history@),
{
    let start = recent_start(history.len());
    let count = history.len() - start;
    let ghost lines = history_lines(history@);
    let ghost recent = recent_history(history@);
    assert(recent =~= history@.subrange(start as int, history@.len() as int));
    let mut out: Vec<char> = Vec::new();
    let mut k: usize = 0;
    while k < count
        invariant
            k <= count == history.len() - start,
            start + count == history.len(),
            count <= MAX_HISTORY_CONTEXT,
            lines == history_lines(history@),
            recent == recent_history(history@),
            recent =~= history@.subrange(start as int, history@.len() as int),
            out@ == join(lines.take(k as int), NEWLINE@),
        decreases count - k,
    {
        proof {
            assert(lines.take(k + 1).drop_last() =~= lines.take(k as int));
            assert(lines[k as int] == history_line(k as int, recent[k as int]));
            assert(recent[k as int] == history@[start + k]);
        }
        if k > 0 {
            push_str(&mut out, NEWLINE);
        } else {
            assert(lines.take(0) =~= Seq::<Seq<char>>::empty());
        }
        push_history_line(&mut out, k, &history[start + k]);
        proof {
            assert(lines.take(k + 1).last() == lines[k as int]);
            if k == 0 {
                assert(join(lines.take(1), NEWLINE@) == lines.take(1)[0]);
            }
            assert(out@ =~= join(lines.take(k + 1), NEWLINE@));
        }
        k += 1;
    }
    assert(lines.take(count as int) =~= lines);
    string_of(&out)
}

/// Appends `tag_text(tag, ctx.values())`.
fn push_tag_text(dst: &mut Vec<char>, whole: &String, name: &String, ctx: &TemplateContext)
    ensures
        final(dst)@ == old(dst)@ + tag_text((whole@, name@), ctx.values()),
{
    let n = chars_of(name.as_str());
    let piece: String = if chars_eq_str(&n, TAG_CLIPBOARD) {
        render_clipboard(ctx.clipboard)
    } else if chars_eq_str(&n, TAG_VOCABULARY) {
        render_vocabulary(ctx.vocabulary, ctx.language)
    } else if chars_eq_str(&n, TAG_USER_TAGS) {
        let mut o: Vec<char> = Vec::new();
        push_join(&mut o, ctx.user_tags, EN_LIST_SEP);
        string_of(&o)
    } else if chars_eq_str(&n, TAG_ACTIVE_APP) {
        match ctx.active_app {
            Some(a) => {
                let o = chars_of(a);
                string_of(&o)
            },
            None => String::new(),
        }
    } else if chars_eq_str(&n, TAG_LANGUAGE) {
        let o = chars_of(ctx.language);
        string_of(&o)
    } else if chars_eq_str(&n, TAG_HISTORY) {
        render_history(ctx.history)
    } else {
        let o = chars_of(whole.as_str());
        string_of(&o)
    };
    push_str(dst, piece.as_str());
}

/// Renders pieces and tags found in a template: the pieces verbatim, each
/// tag replaced by `tag_text`.
pub fn render_segments(segs: &Vec<String>, tags: &Vec<(String, String)>, ctx: &TemplateContext) -> (s:
    String)
    ensures
        s@ == render_pieces(views(segs@), tag_views(tags@), ctx.values()),
{
    let ghost sv = views(segs@);
    let ghost tv = tag_views(tags@);
    let mut out: Vec<char> = Vec::new();
    if segs.len() > 0 {
        push_str(&mut out, segs[0].as_str());
    }
    assert(out@ == render_pieces(sv, tv.take(0), ctx.values()));
    let mut k: usize = 0;
    while k < tags.len()
        invariant
            k <= tags.len(),
            sv == views(segs@),
            tv == tag_views(tags@),
            out@ == render_pieces(sv, tv.take(k as int), ctx.values()),
        decreases tags.len() - k,
    {
        let (whole, name) = &tags[k];
        proof {
            assert(tv.take(k + 1).drop_last() =~= tv.take(k as int));
            assert(tv.take(k + 1)[k as int] == (whole@, name@));
        }
        push_tag_text(&mut out, whole, name, ctx);
        if k + 1 < segs.len() {
            push_str(&mut out, segs[k + 1].as_str());
        }
        proof {
            assert(out@ =~= render_pieces(sv, tv.take(k + 1), ctx.values()));
        }
        k += 1;
    }
    assert(tv.take(tags.len() as int) =~= tv);
    string_of(&out)
}

/// Replaces each `{{tag}}` of `template` by its value in `ctx`; unknown tags
/// stay as they are, so a template without known tags comes back unchanged.
pub fn render_template(template: &str, ctx: &TemplateContext) -> (s: String)
    ensures
        s@ == render_pieces(tag_split(template@), tag_matches(template@), ctx.values()),
        (forall|k: int|
            0 <= k < tag_matches(template@).len() ==> !known_tag(
                #[trigger] tag_matches(template@)[k].1,
            )) ==> s@ == template@,
        !has_char(template@, '{') ==> s@ == template@,
{
    let segs = split_around_tags(template);
    let tags = find_tags(template);
    let s = render_segments(&segs, &tags, ctx);
    proof {
        if forall|k: int|
            0 <= k < tag_matches(template@).len() ==> !known_tag(
                #[trigger] tag_matches(template@)[k].1,
            ) {
            lemma_unknown_tags_reassemble(
                tag_split(template@),
                tag_matches(template@),
                ctx.values(),
            );
        }
    }
    s
}

} // verus!
