//! The decisions of a backup run: where each post and its images go, how the
//! pages of posts are linked to each other, and what a run reports.
use vstd::prelude::*;

use crate::job::JobState;
use crate::path::{ends_with, join_path, joined, lemma_joined_plain, plain_base, relative_name, simple_name};
use crate::template::{older_nav_link, build_older_nav_link, OLDER_NAV_PLACEHOLDER};
use crate::text::{chars_of, decimal, signed_decimal, i64_to_string, u64_to_string, push_char};

verus! {

/// The relative link to a post from a neighbouring post's page.
pub open spec fn relative_href(post_id: Seq<char>, directories: bool) -> Seq<char> {
    if directories {
        "../"@ + post_id + "/"@
    } else {
        post_id + ".html"@
    }
}

/// Compute the relative href for a post given its ID and the output mode.
pub fn post_relative_href(post_id: &str, directories: bool) -> (res: String)
    ensures
        res@ == relative_href(post_id@, directories),
{
    if directories {
        let mut s = String::from_str("../");
        s.append(post_id);
        s.append("/");
        s
    } else {
        let mut s = String::from_str(post_id);
        s.append(".html");
        s
    }
}

/// `s` with every occurrence of `p` from index `i` on, taken left to right
/// without overlap, replaced by `r`.
pub open spec fn replaced_from(s: Seq<char>, p: Seq<char>, r: Seq<char>, i: int) -> Seq<char>
    decreases s.len() - i,
{
    if i < 0 || i >= s.len() {
        Seq::empty()
    } else if p.len() > 0 && i + p.len() <= s.len() && s.subrange(i, i + p.len()) == p {
        r + replaced_from(s, p, r, i + p.len())
    } else {
        seq![s[i]] + replaced_from(s, p, r, i + 1)
    }
}

fn matches_at(s: &Vec<char>, p: &Vec<char>, i: usize) -> (res: bool)
    requires
        i <= s@.len(),
    ensures
        res == (i + p@.len() <= s@.len() && s@.subrange(i as int, i + p@.len()) == p@),
{
    if p.len() > s.len() - i {
        return false;
    }
    let mut j: usize = 0;
    while j < p.len()
        invariant
            j <= p@.len(),
            i <= s@.len(),
            s@.len() == s.len(),
            i + p@.len() <= s@.len(),
            forall|t: int| 0 <= t < j ==> s@[i + t] == p@[t],
        decreases p@.len() - j,
    {
        if s[i + j] != p[j] {
            assert(s@.subrange(i as int, i + p@.len())[j as int] != p@[j as int]);
            return false;
        }
        j = j + 1;
    }
    assert(s@.subrange(i as int, i + p@.len()) =~= p@);
    true
}

/// The page of a post with its navigation placeholder replaced by `older_html`.
pub open spec fn finalized(content: Seq<char>, older_html: Seq<char>) -> Seq<char> {
    replaced_from(content, OLDER_NAV_PLACEHOLDER@, older_html, 0)
}

/// Replaces the older-nav placeholder of a buffered page with its real link.
pub fn finalize_content(content: &str, older_html: &str) -> (res: String)
    ensures
        res@ == finalized(content@, older_html@),
{
    let s = chars_of(content);
    let p = chars_of(OLDER_NAV_PLACEHOLDER);
    let mut out = String::new();
    let mut i: usize = 0;
    while i < s.len()
        invariant
            i <= s@.len(),
            s@ == content@,
            p@ == OLDER_NAV_PLACEHOLDER@,
            out@ + replaced_from(s@, p@, older_html@, i as int) == replaced_from(s@, p@, older_html@, 0),
        decreases s@.len() - i,
    {
        if p.len() > 0 && matches_at(&s, &p, i) {
            let ghost before = out@;
            out.append(older_html);
            assert(before + replaced_from(s@, p@, older_html@, i as int) == out@ + replaced_from(s@, p@, older_html@, i + p@.len()));
            i = i + p.len();
        } else {
            let ghost before = out@;
            push_char(&mut out, s[i]);
            assert(before + replaced_from(s@, p@, older_html@, i as int) == out@ + replaced_from(s@, p@, older_html@, i + 1));
            i = i + 1;
        }
    }
    out
}

/// `p` occurs in `s` at index `i`.
pub open spec fn occurs_at(s: Seq<char>, p: Seq<char>, i: int) -> bool {
    0 <= i && i + p.len() <= s.len() && s.subrange(i, i + p.len()) == p
}

proof fn lemma_replaced_shift(x: Seq<char>, y: Seq<char>, p: Seq<char>, r: Seq<char>, j: int)
    requires
        0 <= j,
    ensures
        replaced_from(x + y, p, r, x.len() + j) == replaced_from(y, p, r, j),
    decreases y.len() - j,
{
    let s = x + y;
    if j < y.len() {
        let k = x.len() + j;
        if k + p.len() <= s.len() {
            assert(s.subrange(k, k + p.len()) =~= y.subrange(j, j + p.len()));
        }
        assert(s[k] == y[j]);
        if p.len() > 0 && j + p.len() <= y.len() && y.subrange(j, j + p.len()) == p {
            lemma_replaced_shift(x, y, p, r, j + p.len());
        } else {
            lemma_replaced_shift(x, y, p, r, j + 1);
        }
    }
}

proof fn lemma_replaced_none(s: Seq<char>, p: Seq<char>, r: Seq<char>, i: int)
    requires
        0 <= i <= s.len(),
        forall|k: int| i <= k < s.len() ==> !occurs_at(s, p, k),
    ensures
        replaced_from(s, p, r, i) == s.subrange(i, s.len() as int),
    decreases s.len() - i,
{
    if i < s.len() {
        assert(!occurs_at(s, p, i));
        lemma_replaced_none(s, p, r, i + 1);
        assert(seq![s[i]] + s.subrange(i + 1, s.len() as int) =~= s.subrange(i, s.len() as int));
    }
}

proof fn lemma_replaced_prefix(a: Seq<char>, p: Seq<char>, b: Seq<char>, r: Seq<char>, i: int)
    requires
        p.len() > 0,
        0 <= i <= a.len(),
        forall|k: int| 0 <= k < a.len() ==> !occurs_at(a + p + b, p, k),
    ensures
        replaced_from(a + p + b, p, r, i) == a.subrange(i, a.len() as int) + r + replaced_from(b, p, r, 0),
    decreases a.len() - i,
{
    let s = a + p + b;
    if i == a.len() {
        assert(s.subrange(i, i + p.len()) =~= p);
        lemma_replaced_shift(a + p, b, p, r, 0);
        assert(a + p + b == (a + p) + b);
        assert(a.subrange(i, a.len() as int) =~= Seq::<char>::empty());
        assert(Seq::<char>::empty() + r + replaced_from(b, p, r, 0) =~= r + replaced_from(b, p, r, 0));
    } else {
        assert(!occurs_at(s, p, i));
        lemma_replaced_prefix(a, p, b, r, i + 1);
        assert(s[i] == a[i]);
        assert(seq![a[i]] + (a.subrange(i + 1, a.len() as int) + r + replaced_from(b, p, r, 0)) =~= a.subrange(
            i,
            a.len() as int,
        ) + r + replaced_from(b, p, r, 0));
    }
}

/// Finalizing a page replaces its placeholders as `str::replace` does, left to
/// right and whatever follows them: a page with no placeholder is left as it
/// is, and the first placeholder of a page is replaced by the link, with the
/// rest of the page finalized in turn.
pub proof fn lemma_finalize_replaces_placeholders(a: Seq<char>, b: Seq<char>, s: Seq<char>, older_html: Seq<char>)
    ensures
        (forall|k: int| 0 <= k < s.len() ==> !occurs_at(s, OLDER_NAV_PLACEHOLDER@, k)) ==> finalized(s, older_html)
            == s,
        (forall|k: int| 0 <= k < a.len() ==> !occurs_at(a + OLDER_NAV_PLACEHOLDER@ + b, OLDER_NAV_PLACEHOLDER@, k))
            ==> finalized(a + OLDER_NAV_PLACEHOLDER@ + b, older_html) == a + older_html + finalized(b, older_html),
{
    let p = OLDER_NAV_PLACEHOLDER@;
    reveal_strlit("<!-- ARCHIVR:OLDER_NAV -->");
    assert(p.len() > 0);
    if forall|k: int| 0 <= k < s.len() ==> !occurs_at(s, p, k) {
        lemma_replaced_none(s, p, older_html, 0);
        assert(s.subrange(0, s.len() as int) =~= s);
    }
    if forall|k: int| 0 <= k < a.len() ==> !occurs_at(a + p + b, p, k) {
        lemma_replaced_prefix(a, p, b, older_html, 0);
        assert(a.subrange(0, a.len() as int) =~= a);
    }
}

/// The HTML that stands in for the "Older" link on the oldest page.
pub open spec fn no_older_html() -> Seq<char> {
    "<span></span>"@
}

/// A rendered page waiting for the link to its older neighbour.
#[derive(Debug)]
pub struct BufferedHtmlPost {
    pub content: String,
    pub output_file: String,
    /// Relative href for *this* post (used as `newer_href` by the next post).
    pub relative_href: String,
}

/// A page ready to be written: its file and its final content.
#[derive(Debug)]
pub struct FinishedPage {
    pub output_file: String,
    pub content: String,
}

/// The pages of a run, newest first, each held back until the next one is known.
#[derive(Debug)]
pub struct PageChain {
    pub buffered: Option<BufferedHtmlPost>,
}

impl PageChain {
    /// A chain with no page yet.
    pub fn new() -> (res: PageChain)
        ensures
            res.buffered is None,
    {
        PageChain { buffered: None }
    }

    /// The link to the page before the next one: that of the buffered page.
    pub fn newer_href(&self) -> (res: Option<&str>)
        ensures
            match res {
                Some(h) => (self.buffered matches Some(b) && h@ == b.relative_href@),
                None => self.buffered is None,
            },
    {
        match &self.buffered {
            Some(b) => Some(b.relative_href.as_str()),
            None => None,
        }
    }

    /// Takes the next (older) page: the buffered page is finished with an
    /// "Older" link to it, and the new page is buffered in its place.
    pub fn push(&mut self, content: String, output_file: String, relative_href: String) -> (res: Option<FinishedPage>)
        ensures
            (final(self).buffered matches Some(b) && b.content == content && b.output_file
                == output_file && b.relative_href == relative_href),
            match old(self).buffered {
                Some(prev) => (res matches Some(page) && page.output_file == prev.output_file
                    && page.content@ == finalized(prev.content@, older_nav_link(relative_href@))),
                None => res is None,
            },
    {
        let finished = match &self.buffered {
            Some(prev) => {
                let older_link = build_older_nav_link(relative_href.as_str());
                Some(
                    FinishedPage {
                        output_file: prev.output_file.clone(),
                        content: finalize_content(prev.content.as_str(), older_link.as_str()),
                    },
                )
            },
            None => None,
        };
        self.buffered = Some(BufferedHtmlPost { content, output_file, relative_href });
        finished
    }

    /// Ends the chain: the last page gets no "Older" link.
    pub fn finish(&mut self) -> (res: Option<FinishedPage>)
        ensures
            final(self).buffered is None,
            match old(self).buffered {
                Some(last) => (res matches Some(page) && page.output_file == last.output_file
                    && page.content@ == finalized(last.content@, no_older_html())),
                None => res is None,
            },
    {
        let finished = match &self.buffered {
            Some(last) => Some(
                FinishedPage {
                    output_file: last.output_file.clone(),
                    content: finalize_content(last.content.as_str(), "<span></span>"),
                },
            ),
            None => None,
        };
        self.buffered = None;
        finished
    }
}

/// The newest timestamp seen so far, after seeing `timestamp`.
pub fn newest_timestamp(current: Option<i64>, timestamp: i64) -> (res: Option<i64>)
    ensures
        res == Some(
            match current {
                Some(c) => if timestamp > c {
                    timestamp
                } else {
                    c
                },
                None => timestamp,
            },
        ),
{
    Some(
        match current {
            Some(c) => if timestamp > c {
                timestamp
            } else {
                c
            },
            None => timestamp,
        },
    )
}

/// What a run does once a batch of posts has been handled.
#[derive(Debug)]
pub enum BatchStep {
    /// The batch was empty: every post has been fetched.
    Done,
    /// The job has moved past the batch: fetch the next one.
    Next,
}

/// The step after a batch of `fetched` posts: an empty batch ends the run and
/// leaves the job as it was; any other moves the job past it.
pub fn after_batch(job: &mut JobState, fetched: u64) -> (res: BatchStep)
    requires
        old(job).offset + fetched <= u64::MAX,
    ensures
        fetched == 0 ==> res is Done && *final(job) == *old(job),
        fetched > 0 ==> res is Next && final(job).offset == old(job).offset + fetched && final(job).blog_name
            == old(job).blog_name && final(job).started_at == old(job).started_at && final(job).before
            == old(job).before && final(job).after == old(job).after && final(job).json == old(job).json
            && final(job).directories == old(job).directories && final(job).save_images
            == old(job).save_images && final(job).template_path == old(job).template_path,
{
    if fetched == 0 {
        BatchStep::Done
    } else {
        job.advance(fetched);
        BatchStep::Next
    }
}

/// The message given when the API rate limit stops a run.
pub open spec fn rate_limit_text(retry_after: Option<u64>) -> Seq<char> {
    match retry_after {
        Some(i) => "Hit rate limit. Retry after "@ + decimal(i as nat)
            + " seconds. Use --resume to continue from where you left off."@,
        None => "Hit rate limit, please retry later. Use --resume to continue from where you left off."@,
    }
}

/// Builds the message given when the API rate limit stops a run.
pub fn rate_limit_message(retry_after: Option<u64>) -> (res: String)
    ensures
        res@ == rate_limit_text(retry_after),
{
    match retry_after {
        Some(i) => {
            let mut s = String::from_str("Hit rate limit. Retry after ");
            let d = u64_to_string(i);
            s.append(d.as_str());
            s.append(" seconds. Use --resume to continue from where you left off.");
            s
        },
        None => String::from_str(
            "Hit rate limit, please retry later. Use --resume to continue from where you left off.",
        ),
    }
}

/// Where the images of a post are saved, and the prefix of their paths as the
/// post's page refers to them.
#[derive(Debug)]
pub struct MediaLocation {
    pub media_dir: String,
    pub relative_prefix: String,
}

/// The image directory of a post: `{id}/media` under the output directory when
/// each post has its own directory, else the shared `media/images`.
pub fn media_location(output_dir: &str, post_id: &str, directories: bool) -> (res: MediaLocation)
    ensures
        directories ==> res.relative_prefix@ == "media/"@ && (relative_name(post_id@) && plain_base(post_id@)
            && plain_base(output_dir@) ==> exists|d: Seq<char>|
            joined(output_dir@, post_id@, d) && joined(d, "media"@, res.media_dir@)),
        directories ==> ends_with(res.media_dir@, "media"@),
        !directories ==> ends_with(res.media_dir@, "images"@),
        !directories ==> res.relative_prefix@ == "media/images/"@ && (plain_base(output_dir@) ==> exists|
            d: Seq<char>,
        | joined(output_dir@, "media"@, d) && joined(d, "images"@, res.media_dir@)),
{
    proof {
        reveal_strlit("media");
        reveal_strlit("images");
        assert(relative_name("media"@) && plain_base("media"@));
        assert(relative_name("images"@));
        assert("media"@.len() != seq!['.'].len() && "media"@.len() != seq!['.', '.'].len());
        assert("images"@.len() != seq!['.'].len() && "images"@.len() != seq!['.', '.'].len());
        assert(simple_name("media"@) && simple_name("images"@));
    }
    if directories {
        let post_dir = join_path(output_dir, post_id);
        proof {
            if relative_name(post_id@) && plain_base(post_id@) && plain_base(output_dir@) {
                lemma_joined_plain(output_dir@, post_id@, post_dir@);
            }
        }
        MediaLocation {
            media_dir: join_path(post_dir.as_str(), "media"),
            relative_prefix: String::from_str("media/"),
        }
    } else {
        let media = join_path(output_dir, "media");
        proof {
            if plain_base(output_dir@) {
                lemma_joined_plain(output_dir@, "media"@, media@);
            }
        }
        MediaLocation {
            media_dir: join_path(media.as_str(), "images"),
            relative_prefix: String::from_str("media/images/"),
        }
    }
}

/// Where a post is written: the post's own directory to create (when each post
/// has one) and the file.
#[derive(Debug)]
pub struct OutputLocation {
    pub post_dir: Option<String>,
    pub output_file: String,
}

/// The file of a post: `{id}/index.{ext}` when each post has its own
/// directory, else `{id}.{ext}`, with `json` or `html` as the extension.
pub fn output_location(output_dir: &str, post_id: &str, directories: bool, json: bool) -> (res: OutputLocation)
    ensures
        directories ==> (res.post_dir matches Some(d) && (relative_name(post_id@) && plain_base(post_id@)
            && plain_base(output_dir@) ==> joined(output_dir@, post_id@, d@) && joined(
            d@,
            if json { "index.json"@ } else { "index.html"@ },
            res.output_file@,
        ))),
        !directories ==> res.post_dir is None && (relative_name(post_id@) && plain_base(output_dir@)
            ==> joined(output_dir@, post_id@ + if json { ".json"@ } else { ".html"@ }, res.output_file@)),
        directories ==> ends_with(res.output_file@, if json { "index.json"@ } else { "index.html"@ }),
        !directories && simple_name(post_id@) ==> ends_with(
            res.output_file@,
            post_id@ + if json { ".json"@ } else { ".html"@ },
        ),
{
    proof {
        reveal_strlit("index.json");
        reveal_strlit("index.html");
        reveal_strlit(".json");
        reveal_strlit(".html");
        assert(relative_name("index.json"@) && relative_name("index.html"@));
        assert("index.json"@.len() != seq!['.'].len() && "index.json"@.len() != seq!['.', '.'].len());
        assert("index.html"@.len() != seq!['.'].len() && "index.html"@.len() != seq!['.', '.'].len());
        assert(simple_name("index.json"@) && simple_name("index.html"@));
    }
    if directories {
        let post_dir = join_path(output_dir, post_id);
        proof {
            if relative_name(post_id@) && plain_base(post_id@) && plain_base(output_dir@) {
                lemma_joined_plain(output_dir@, post_id@, post_dir@);
            }
        }
        let file = if json {
            join_path(post_dir.as_str(), "index.json")
        } else {
            join_path(post_dir.as_str(), "index.html")
        };
        OutputLocation { post_dir: Some(post_dir), output_file: file }
    } else {
        let ghost ext: Seq<char> = if json { ".json"@ } else { ".html"@ };
        let mut name = String::from_str(post_id);
        if json {
            name.append(".json");
        } else {
            name.append(".html");
        }
        proof {
            assert(name@ == post_id@ + ext);
            if simple_name(post_id@) {
                assert(ext.len() == 5);
                assert forall|i: int| 0 <= i < name@.len() implies #[trigger] name@[i] != '/' && name@[i] != '\\'
                    && name@[i] != ':' by {
                    if i < post_id@.len() {
                        assert(name@[i] == post_id@[i]);
                    } else {
                        assert(name@[i] == ext[i - post_id@.len()]);
                    }
                }
                assert(name@.len() != seq!['.'].len() && name@.len() != seq!['.', '.'].len());
                assert(simple_name(name@));
            }
            if relative_name(post_id@) {
                assert(name@.len() > 0 && name@[0] != '/' && name@[0] != '\\') by {
                    if post_id@.len() == 0 {
                        assert(name@ == ext);
                    } else {
                        assert(name@[0] == post_id@[0]);
                    }
                }
                assert forall|i: int| 0 <= i < name@.len() implies #[trigger] name@[i] != ':' by {
                    if i < post_id@.len() {
                        assert(name@[i] == post_id@[i]);
                    } else {
                        assert(name@[i] == ext[i - post_id@.len()]);
                    }
                }
            }
        }
        OutputLocation { post_dir: None, output_file: join_path(output_dir, name.as_str()) }
    }
}

/// The command-line parameters that a resumed job was started with.
pub open spec fn resume_param_list(job: JobState) -> Seq<Seq<char>> {
    (if job.json {
        seq!["--json"@]
    } else {
        Seq::empty()
    }) + (if job.directories {
        seq!["--directories"@]
    } else {
        Seq::empty()
    }) + (if job.save_images {
        seq!["--save-images"@]
    } else {
        Seq::empty()
    }) + (match job.before {
        Some(b) => seq!["--before "@ + signed_decimal(b as int)],
        None => Seq::empty(),
    }) + (match job.after {
        Some(a) => seq!["--after "@ + signed_decimal(a as int)],
        None => Seq::empty(),
    }) + (match job.template_path {
        Some(t) => seq!["--template "@ + t@],
        None => Seq::empty(),
    })
}

/// Lists the command-line parameters that a resumed job was started with.
pub fn resume_params(job: &JobState) -> (res: Vec<String>)
    ensures
        res.deep_view() == resume_param_list(*job),
{
    let mut params: Vec<String> = Vec::new();
    let ghost mut acc: Seq<Seq<char>> = Seq::empty();
    if job.json {
        params.push(String::from_str("--json"));
        proof {
            acc = acc + seq!["--json"@];
        }
    }
    assert(params.deep_view() =~= acc);
    if job.directories {
        params.push(String::from_str("--directories"));
        proof {
            acc = acc + seq!["--directories"@];
        }
    }
    assert(params.deep_view() =~= acc);
    if job.save_images {
        params.push(String::from_str("--save-images"));
        proof {
            acc = acc + seq!["--save-images"@];
        }
    }
    assert(params.deep_view() =~= acc);
    if let Some(before) = job.before {
        let mut s = String::from_str("--before ");
        let d = i64_to_string(before);
        s.append(d.as_str());
        params.push(s);
        proof {
            acc = acc + seq!["--before "@ + signed_decimal(before as int)];
        }
    }
    assert(params.deep_view() =~= acc);
    if let Some(after) = job.after {
        let mut s = String::from_str("--after ");
        let d = i64_to_string(after);
        s.append(d.as_str());
        params.push(s);
        proof {
            acc = acc + seq!["--after "@ + signed_decimal(after as int)];
        }
    }
    assert(params.deep_view() =~= acc);
    if let Some(tpl) = &job.template_path {
        let mut s = String::from_str("--template ");
        s.append(tpl.as_str());
        params.push(s);
        proof {
            acc = acc + seq!["--template "@ + tpl@];
        }
    }
    assert(params.deep_view() =~= acc);
    params
}

/// The words of `words` joined with single spaces.
pub open spec fn space_joined(words: Seq<Seq<char>>) -> Seq<char>
    decreases words.len(),
{
    if words.len() == 0 {
        Seq::empty()
    } else if words.len() == 1 {
        words[0]
    } else {
        space_joined(words.drop_last()) + seq![' '] + words.last()
    }
}

/// The line printed when a job is resumed.
pub open spec fn resume_text(job: JobState) -> Seq<char> {
    let params = resume_param_list(job);
    if params.len() == 0 {
        "Resuming with default parameters"@
    } else {
        "Resuming with saved parameters: "@ + space_joined(params)
    }
}

/// Builds the line printed when a job is resumed.
pub fn resume_message(job: &JobState) -> (res: String)
    ensures
        res@ == resume_text(*job),
{
    let params = resume_params(job);
    if params.len() == 0 {
        return String::from_str("Resuming with default parameters");
    }
    let mut joined_params = String::new();
    for i in 0..params.len()
        invariant
            params.deep_view() == resume_param_list(*job),
            params@.len() > 0,
            i == 0 ==> joined_params@ == Seq::<char>::empty(),
            i > 0 ==> joined_params@ == space_joined(params.deep_view().take(i as int)),
    {
        assert(params.deep_view().take(i + 1).drop_last() == params.deep_view().take(i as int));
        assert(params.deep_view()[i as int] == params@[i as int]@);
        if i > 0 {
            push_char(&mut joined_params, ' ');
        }
        joined_params.append(params[i].as_str());
    }
    assert(params.deep_view().take(params@.len() as int) == params.deep_view());
    let mut s = String::from_str("Resuming with saved parameters: ");
    s.append(joined_params.as_str());
    s
}

/// The page shown in the browser after the OAuth redirect arrives.
pub open spec fn callback_page_body() -> Seq<char> {
    "<h1>Success!</h1><p>You can close this tab.</p>"@
}

/// The HTTP response sent for the OAuth redirect.
pub open spec fn callback_response_text() -> Seq<char> {
    "HTTP/1.1 200 OK\r\nContent-Type: text/html\r\nContent-Length: "@ + decimal(
        callback_page_body().len(),
    ) + "\r\nConnection: close\r\n\r\n"@ + callback_page_body()
}

/// Builds the HTTP response sent for the OAuth redirect.
pub fn callback_response() -> (res: String)
    ensures
        res@ == callback_response_text(),
{
    let body = "<h1>Success!</h1><p>You can close this tab.</p>";
    proof {
        reveal_strlit("<h1>Success!</h1><p>You can close this tab.</p>");
        vstd::string::is_ascii_spec_bytes(body);
        assert(vstd::string::is_ascii(body));
    }
    let mut s = String::from_str("HTTP/1.1 200 OK\r\nContent-Type: text/html\r\nContent-Length: ");
    let n = u64_to_string(body.len() as u64);
    s.append(n.as_str());
    s.append("\r\nConnection: close\r\n\r\n");
    s.append(body);
    s
}

} // verus!
