//! Image URL collection, local file naming and URL rewriting.
use sha2::Digest;
use vstd::prelude::*;

use crate::post::{ContentBlock, MediaObject, Post, TrailItem};
use crate::post::{same_block, TrailBlog, TrailPost, copy_opt_string, copy_strings};
use crate::text::{after_last, find_from, push_char, chars_of, find_after_last, find_char_from, substring, lemma_find_from_bounds, lemma_after_last_bounds};
use vstd::utf8::encode_utf8;

verus! {

/// The lowercase hexadecimal digit for a value below 16.
pub open spec fn hex_digit(n: u8) -> char {
    if n < 10 {
        ((n + 48) as u8) as char
    } else {
        ((n + 87) as u8) as char
    }
}

/// Lowercase hexadecimal text of a byte sequence, two digits per byte.
pub open spec fn hex_text(bytes: Seq<u8>) -> Seq<char>
    decreases bytes.len(),
{
    if bytes.len() == 0 {
        Seq::empty()
    } else {
        let b = bytes.last();
        hex_text(bytes.drop_last()).push(hex_digit(b / 16)).push(hex_digit(b % 16))
    }
}

/// A lowercase hexadecimal digit.
pub open spec fn is_hex_digit(c: char) -> bool {
    ('0' <= c && c <= '9') || ('a' <= c && c <= 'f')
}

/// Hexadecimal text has two lowercase hexadecimal digits per byte.
pub proof fn lemma_hex_text(bytes: Seq<u8>)
    ensures
        hex_text(bytes).len() == 2 * bytes.len(),
        forall|i: int| 0 <= i < hex_text(bytes).len() ==> is_hex_digit(#[trigger] hex_text(bytes)[i]),
    decreases bytes.len(),
{
    if bytes.len() > 0 {
        lemma_hex_text(bytes.drop_last());
        let b = bytes.last();
        assert(is_hex_digit(hex_digit(b / 16)));
        assert(is_hex_digit(hex_digit(b % 16)));
    }
}

fn hex_digit_exec(n: u8) -> (c: char)
    requires
        n < 16,
    ensures
        c == hex_digit(n),
{
    if n < 10 {
        (n + 48) as char
    } else {
        (n + 87) as char
    }
}

/// Encodes bytes as lowercase hexadecimal, two digits per byte.
pub fn encode(bytes: &[u8]) -> (res: String)
    ensures
        res@ == hex_text(bytes@),
{
    let mut res = String::new();
    let mut i: usize = 0;
    while i < bytes.len()
        invariant
            i <= bytes@.len(),
            res@ == hex_text(bytes@.take(i as int)),
        decreases bytes@.len() - i,
    {
        let b = bytes[i];
        assert(bytes@.take(i + 1).drop_last() == bytes@.take(i as int));
        crate::text::push_char(&mut res, hex_digit_exec(b / 16));
        crate::text::push_char(&mut res, hex_digit_exec(b % 16));
        i = i + 1;
    }
    assert(bytes@.take(bytes@.len() as int) == bytes@);
    res
}

/// The SHA-256 digest of a byte sequence.
pub uninterp spec fn sha256_of(data: Seq<u8>) -> Seq<u8>;

/// Computes the SHA-256 digest of `data` with `sha2::Sha256::digest`.
/// Trusted: the digest is the value named `sha256_of` of the input bytes and is
/// 32 bytes long (the output size of SHA-256); nothing else is claimed of it.
#[verifier::external_body]
fn sha256_digest(data: &[u8]) -> (res: Vec<u8>)
    ensures
        res@ == sha256_of(data@),
        res@.len() == 32,
{
    sha2::Sha256::digest(data).to_vec()
}

/// The index of the first media object at or after `i` that has its original
/// dimensions, or the length when there is none.
pub open spec fn first_original(media: Seq<MediaObject>, i: int) -> int
    decreases media.len() - i,
{
    if i >= media.len() {
        media.len() as int
    } else if media[i].has_original_dimensions == Some(true) {
        i
    } else {
        first_original(media, i + 1)
    }
}

/// The media object shown for an image: the first one with its original
/// dimensions, else the first one, else none.
pub open spec fn best_media(media: Seq<MediaObject>) -> Option<int> {
    let k = first_original(media, 0);
    if k < media.len() {
        Some(k)
    } else if media.len() > 0 {
        Some(0)
    } else {
        None
    }
}

pub proof fn lemma_best_media(media: Seq<MediaObject>)
    ensures
        best_media(media) matches Some(k) ==> 0 <= k < media.len(),
        best_media(media) is None <==> media.len() == 0,
{
    lemma_first_original_bounds(media, 0);
}

proof fn lemma_first_original_bounds(media: Seq<MediaObject>, i: int)
    requires
        0 <= i <= media.len(),
    ensures
        i <= first_original(media, i) <= media.len(),
    decreases media.len() - i,
{
    if i < media.len() && media[i].has_original_dimensions != Some(true) {
        lemma_first_original_bounds(media, i + 1);
    }
}

/// The media object shown for an image is the first one with its original
/// dimensions; when none has them it is the first one; an image without media
/// shows none.
pub proof fn lemma_best_media_choice(media: Seq<MediaObject>)
    ensures
        media.len() == 0 ==> best_media(media) is None,
        (exists|i: int| 0 <= i < media.len() && #[trigger] media[i].has_original_dimensions == Some(true))
            ==> (best_media(media) matches Some(k) && 0 <= k < media.len() && media[k].has_original_dimensions
            == Some(true) && forall|j: int| 0 <= j < k ==> #[trigger] media[j].has_original_dimensions != Some(
            true,
        )),
        media.len() > 0 && (forall|i: int| 0 <= i < media.len() ==> #[trigger] media[i].has_original_dimensions
            != Some(true)) ==> best_media(media) == Some(0int),
{
    lemma_first_original_bounds(media, 0);
    lemma_first_original_first(media, 0);
}

proof fn lemma_first_original_first(media: Seq<MediaObject>, i: int)
    requires
        0 <= i <= media.len(),
    ensures
        first_original(media, i) < media.len() ==> media[first_original(media, i)].has_original_dimensions
            == Some(true),
        forall|j: int| i <= j < first_original(media, i) ==> #[trigger] media[j].has_original_dimensions != Some(true),
    decreases media.len() - i,
{
    if i < media.len() && media[i].has_original_dimensions != Some(true) {
        lemma_first_original_first(media, i + 1);
    }
}

/// Picks the media object shown for an image: the first one with its original
/// dimensions, falling back to the first one.
pub fn best_media_index(media: &Vec<MediaObject>) -> (res: Option<usize>)
    ensures
        res matches Some(k) ==> best_media(media@) == Some(k as int),
        res is None ==> best_media(media@) is None,
{
    proof {
        lemma_first_original_bounds(media@, 0);
    }
    let mut i: usize = 0;
    while i < media.len()
        invariant
            i <= media@.len(),
            first_original(media@, 0) == first_original(media@, i as int),
        decreases media@.len() - i,
    {
        if media[i].has_original_dimensions == Some(true) {
            return Some(i);
        }
        i = i + 1;
    }
    if media.len() > 0 {
        Some(0)
    } else {
        None
    }
}

/// The URL collected from a block: that of the shown media of an image block,
/// when it is not empty.
pub open spec fn block_image_url(block: ContentBlock) -> Option<Seq<char>> {
    match block {
        ContentBlock::Image { media, .. } => match best_media(media@) {
            Some(k) => if media@[k].url@.len() > 0 {
                Some(media@[k].url@)
            } else {
                None
            },
            None => None,
        },
        _ => None,
    }
}

/// The URLs collected from a list of blocks, in order.
pub open spec fn blocks_image_urls(blocks: Seq<ContentBlock>) -> Seq<Seq<char>>
    decreases blocks.len(),
{
    if blocks.len() == 0 {
        Seq::empty()
    } else {
        let rest = blocks_image_urls(blocks.drop_last());
        match block_image_url(blocks.last()) {
            Some(u) => rest.push(u),
            None => rest,
        }
    }
}

/// The URLs collected from a reblog trail, item by item.
pub open spec fn trail_image_urls(trail: Seq<TrailItem>) -> Seq<Seq<char>>
    decreases trail.len(),
{
    if trail.len() == 0 {
        Seq::empty()
    } else {
        trail_image_urls(trail.drop_last()) + blocks_image_urls(trail.last().content@)
    }
}

/// All image URLs of a post: those of its content, then those of its trail.
pub open spec fn post_image_urls(post: Post) -> Seq<Seq<char>> {
    blocks_image_urls(post.content@) + trail_image_urls(post.trail@)
}

/// Appends the image URLs of `blocks` to `urls`.
pub fn collect_from_blocks(blocks: &Vec<ContentBlock>, urls: &mut Vec<String>)
    ensures
        final(urls).deep_view() == old(urls).deep_view() + blocks_image_urls(blocks@),
{
    let ghost start = urls.deep_view();
    for i in 0..blocks.len()
        invariant
            urls.deep_view() == start + blocks_image_urls(blocks@.take(i as int)),
    {
        assert(blocks@.take(i + 1).drop_last() == blocks@.take(i as int));
        let ghost before = urls.deep_view();
        if let ContentBlock::Image { media, .. } = &blocks[i] {
            proof {
                lemma_best_media(media@);
            }
            if let Some(k) = best_media_index(media) {
                if !media[k].url.as_str().is_empty() {
                    urls.push(media[k].url.clone());
                    assert(urls.deep_view() == before.push(media@[k as int].url@));
                }
            }
        }
    }
    assert(blocks@.take(blocks@.len() as int) == blocks@);
}

/// Collects all image URLs from a post's content and trail.
pub fn collect_image_urls(post: &Post) -> (res: Vec<String>)
    ensures
        res.deep_view() == post_image_urls(*post),
{
    let mut urls: Vec<String> = Vec::new();
    assert(urls.deep_view() == Seq::<Seq<char>>::empty());
    collect_from_blocks(&post.content, &mut urls);
    for i in 0..post.trail.len()
        invariant
            urls.deep_view() == blocks_image_urls(post.content@) + trail_image_urls(
                post.trail@.take(i as int),
            ),
    {
        assert(post.trail@.take(i + 1).drop_last() == post.trail@.take(i as int));
        collect_from_blocks(&post.trail[i].content, &mut urls);
    }
    assert(post.trail@.take(post.trail@.len() as int) == post.trail@);
    urls
}

/// The name of the file that a URL points at: the text after its last `/`, up
/// to its first `?`, or `image` when that is empty.
pub open spec fn url_file_name(url: Seq<char>) -> Seq<char> {
    let st = after_last(url, '/', url.len() as int);
    let en = find_from(url, '?', st);
    if en == st {
        "image"@
    } else {
        url.subrange(st, en)
    }
}

/// The local file name for an image URL: the first 8 bytes of the SHA-256 of the
/// URL's UTF-8 bytes in hexadecimal, `_`, and the URL's file name.
pub open spec fn local_filename(url: Seq<char>) -> Seq<char> {
    hex_text(sha256_of(encode_utf8(url)).take(8)) + seq!['_'] + url_file_name(url)
}

/// Produces a deterministic local filename for a URL.
///
/// Format: `{sha256_prefix_16hex}_{original_filename}`
pub fn local_filename_for_url(url: &str) -> (res: String)
    ensures
        res@ == local_filename(url@),
        sha256_of(encode_utf8(url@)).len() == 32,
        res@.len() > 16,
        forall|i: int| 0 <= i < 16 ==> is_hex_digit(#[trigger] res@[i]),
        res@[16] == '_',
{
    let hash = sha256_digest(url.as_bytes());
    let mut prefix: Vec<u8> = Vec::new();
    for i in 0..8usize
        invariant
            hash@.len() == 32,
            prefix@ == hash@.take(i as int),
    {
        prefix.push(hash[i]);
    }
    let mut res = encode(prefix.as_slice());
    push_char(&mut res, '_');
    let chars = chars_of(url);
    let st = find_after_last(&chars, '/', chars.len());
    proof {
        lemma_after_last_bounds(chars@, '/', chars@.len() as int);
    }
    let en = find_char_from(&chars, '?', st);
    proof {
        lemma_find_from_bounds(chars@, '?', st as int);
    }
    if en == st {
        res.append("image");
    } else {
        let name = substring(&chars, st, en);
        res.append(name.as_str());
    }
    proof {
        let h = sha256_of(encode_utf8(url@)).take(8);
        lemma_hex_text(h);
        assert(res@ == hex_text(h) + seq!['_'] + url_file_name(url@));
        assert(forall|i: int| 0 <= i < 16 ==> res@[i] == hex_text(h)[i]);
    }
    res
}

/// The first entry at or after `i` whose key is `k`, by its value.
pub open spec fn lookup_from(e: Seq<(String, String)>, k: Seq<char>, i: int) -> Option<Seq<char>>
    decreases e.len() - i,
{
    if i < 0 || i >= e.len() {
        None
    } else if e[i].0@ == k {
        Some(e[i].1@)
    } else {
        lookup_from(e, k, i + 1)
    }
}

proof fn lemma_lookup_push(e: Seq<(String, String)>, p: (String, String), x: Seq<char>, i: int)
    requires
        0 <= i <= e.len(),
    ensures
        lookup_from(e.push(p), x, i) == match lookup_from(e, x, i) {
            Some(v) => Some(v),
            None => if p.0@ == x {
                Some(p.1@)
            } else {
                None
            },
        },
    decreases e.len() - i,
{
    if i < e.len() {
        lemma_lookup_push(e, p, x, i + 1);
        assert(e.push(p)[i] == e[i]);
    } else {
        assert(e.push(p)[i] == p);
        assert(lookup_from(e.push(p), x, i + 1) is None);
    }
}

proof fn lemma_lookup_update_other(
    e: Seq<(String, String)>,
    j: int,
    q: (String, String),
    x: Seq<char>,
    i: int,
)
    requires
        0 <= j < e.len(),
        0 <= i <= e.len(),
        e[j].0@ != x,
        q.0@ != x,
    ensures
        lookup_from(e.update(j, q), x, i) == lookup_from(e, x, i),
    decreases e.len() - i,
{
    if i < e.len() {
        lemma_lookup_update_other(e, j, q, x, i + 1);
    }
}

proof fn lemma_lookup_update_same(e: Seq<(String, String)>, j: int, q: (String, String), i: int)
    requires
        0 <= i <= j < e.len(),
        forall|t: int| i <= t < j ==> e[t].0@ != q.0@,
    ensures
        lookup_from(e.update(j, q), q.0@, i) == Some(q.1@),
    decreases j - i,
{
    if i < j {
        lemma_lookup_update_same(e, j, q, i + 1);
    }
}

/// A map from original image URLs to the local paths they were saved under.
#[derive(Debug)]
pub struct UrlMap {
    entries: Vec<(String, String)>,
}

impl UrlMap {
    /// The path recorded for a URL, if any.
    pub closed spec fn lookup(self, k: Seq<char>) -> Option<Seq<char>> {
        lookup_from(self.entries@, k, 0)
    }
}

impl View for UrlMap {
    type V = Map<Seq<char>, Seq<char>>;

    closed spec fn view(&self) -> Map<Seq<char>, Seq<char>> {
        Map::new(|k: Seq<char>| self.lookup(k) is Some, |k: Seq<char>| self.lookup(k)->0)
    }
}

impl UrlMap {
    /// An empty map.
    pub fn new() -> (res: UrlMap)
        ensures
            res@ == Map::<Seq<char>, Seq<char>>::empty(),
    {
        let res = UrlMap { entries: Vec::new() };
        assert(res@ =~= Map::<Seq<char>, Seq<char>>::empty());
        res
    }

    /// Records `path` for `url`, replacing any earlier path.
    pub fn insert(&mut self, url: String, path: String)
        ensures
            final(self)@ == old(self)@.insert(url@, path@),
    {
        let ghost old_e = self.entries@;
        let mut i: usize = 0;
        while i < self.entries.len()
            invariant
                i <= self.entries@.len(),
                self.entries@ == old_e,
                old(self).entries@ == old_e,
                forall|t: int| 0 <= t < i ==> self.entries@[t].0@ != url@,
            decreases self.entries@.len() - i,
        {
            if self.entries[i].0 == url {
                let ghost q = (url, path);
                proof {
                    lemma_lookup_update_same(old_e, i as int, q, 0);
                    assert forall|x: Seq<char>| #[trigger] lookup_from(
                        old_e.update(i as int, q),
                        x,
                        0,
                    ) == if x == q.0@ {
                        Some(q.1@)
                    } else {
                        lookup_from(old_e, x, 0)
                    } by {
                        if x != q.0@ {
                            lemma_lookup_update_other(old_e, i as int, q, x, 0);
                        }
                    }
                }
                self.entries.set(i, (url, path));
                assert(self.entries@ == old_e.update(i as int, q));
                assert(self@ =~= old(self)@.insert(q.0@, q.1@));
                return;
            }
            i = i + 1;
        }
        let ghost q = (url, path);
        proof {
            assert forall|x: Seq<char>| #[trigger] lookup_from(old_e.push(q), x, 0) == match lookup_from(old_e, x, 0) {
                Some(v) => Some(v),
                None => if q.0@ == x {
                    Some(q.1@)
                } else {
                    None
                },
            } by {
                lemma_lookup_push(old_e, q, x, 0);
            }
            assert(lookup_from(old_e, url@, 0) is None) by {
                lemma_lookup_absent(old_e, url@, 0);
            }
        }
        self.entries.push((url, path));
        assert(self.entries@ == old_e.push(q));
        assert(self@ =~= old(self)@.insert(q.0@, q.1@));
    }

    /// The path recorded for `url`, if any.
    pub fn get(&self, url: &String) -> (res: Option<&String>)
        ensures
            res matches Some(p) ==> self@.contains_key(url@) && self@[url@] == p@,
            res is None ==> !self@.contains_key(url@),
    {
        let mut i: usize = 0;
        while i < self.entries.len()
            invariant
                i <= self.entries@.len(),
                lookup_from(self.entries@, url@, 0) == lookup_from(self.entries@, url@, i as int),
            decreases self.entries@.len() - i,
        {
            if self.entries[i].0 == *url {
                return Some(&self.entries[i].1);
            }
            i = i + 1;
        }
        None
    }

    /// Whether a path is recorded for `url`.
    pub fn contains_key(&self, url: &String) -> (res: bool)
        ensures
            res == self@.contains_key(url@),
    {
        self.get(url).is_some()
    }

    /// Whether no path is recorded at all.
    pub fn is_empty(&self) -> (res: bool)
        ensures
            res == (self@ == Map::<Seq<char>, Seq<char>>::empty()),
    {
        if self.entries.len() == 0 {
            assert(self@ =~= Map::<Seq<char>, Seq<char>>::empty());
            true
        } else {
            let ghost k = self.entries@[0].0@;
            assert(self@.contains_key(k));
            false
        }
    }
}

/// The URL a media object ends up with: its local path when the map has one.
pub open spec fn rewritten_url(map: Map<Seq<char>, Seq<char>>, url: Seq<char>) -> Seq<char> {
    if map.contains_key(url) {
        map[url]
    } else {
        url
    }
}

/// `new` is `old` with its URL rewritten through `map`.
pub open spec fn media_rewritten(old: MediaObject, new: MediaObject, map: Map<Seq<char>, Seq<char>>) -> bool {
    &&& new.url@ == rewritten_url(map, old.url@)
    &&& new.media_type == old.media_type
    &&& new.width == old.width
    &&& new.height == old.height
    &&& new.has_original_dimensions == old.has_original_dimensions
}

/// Every media object of `new` is the one of `old` at its position, rewritten.
pub open spec fn media_list_rewritten(
    old: Seq<MediaObject>,
    new: Seq<MediaObject>,
    map: Map<Seq<char>, Seq<char>>,
) -> bool {
    &&& new.len() == old.len()
    &&& forall|i: int| 0 <= i < old.len() ==> media_rewritten(old[i], #[trigger] new[i], map)
}

/// An image block has its media rewritten; any other block is left as it was.
pub open spec fn block_rewritten(old: ContentBlock, new: ContentBlock, map: Map<Seq<char>, Seq<char>>) -> bool {
    match old {
        ContentBlock::Image { media, alt_text, caption } => new matches ContentBlock::Image {
            media: m2,
            alt_text: a2,
            caption: c2,
        } && a2 == alt_text && c2 == caption && media_list_rewritten(media@, m2@, map),
        _ => same_block(old, new),
    }
}

/// Every block of `new` is the one of `old` at its position, rewritten.
pub open spec fn blocks_rewritten(
    old: Seq<ContentBlock>,
    new: Seq<ContentBlock>,
    map: Map<Seq<char>, Seq<char>>,
) -> bool {
    &&& new.len() == old.len()
    &&& forall|i: int| 0 <= i < old.len() ==> block_rewritten(old[i], #[trigger] new[i], map)
}

/// Every trail item of `new` is the one of `old` with its blocks rewritten.
pub open spec fn trail_rewritten(old: Seq<TrailItem>, new: Seq<TrailItem>, map: Map<Seq<char>, Seq<char>>) -> bool {
    &&& new.len() == old.len()
    &&& forall|i: int|
        0 <= i < old.len() ==> {
            &&& blocks_rewritten(old[i].content@, (#[trigger] new[i]).content@, map)
            &&& new[i].blog == old[i].blog
            &&& new[i].post == old[i].post
            &&& new[i].is_root_item == old[i].is_root_item
        }
}

/// `new` is `old` with the image URLs of its content and trail rewritten through `map`.
pub open spec fn post_rewritten(old: Post, new: Post, map: Map<Seq<char>, Seq<char>>) -> bool {
    &&& new.id == old.id
    &&& new.blog_name == old.blog_name
    &&& new.post_url == old.post_url
    &&& new.post_type == old.post_type
    &&& new.original_type == old.original_type
    &&& new.timestamp == old.timestamp
    &&& new.date == old.date
    &&& blocks_rewritten(old.content@, new.content@, map)
    &&& trail_rewritten(old.trail@, new.trail@, map)
    &&& new.tags@ == old.tags@
    &&& new.summary == old.summary
    &&& new.note_count == old.note_count
    &&& new.slug == old.slug
    &&& new.short_url == old.short_url
    &&& new.reblog_key == old.reblog_key
    &&& new.state == old.state
    &&& new.reblogged_from_name == old.reblogged_from_name
    &&& new.reblogged_from_url == old.reblogged_from_url
    &&& new.reblogged_root_name == old.reblogged_root_name
    &&& new.reblogged_root_url == old.reblogged_root_url
    &&& new.liked == old.liked
    &&& new.followed == old.followed
}

/// An image block has a media object whose URL the map holds.
pub open spec fn block_needs_rewrite(block: ContentBlock, map: Map<Seq<char>, Seq<char>>) -> bool {
    match block {
        ContentBlock::Image { media, .. } => exists|j: int|
            0 <= j < media@.len() && map.contains_key(#[trigger] media@[j].url@),
        _ => false,
    }
}

/// Some block of the list needs rewriting.
pub open spec fn blocks_need_rewrite(blocks: Seq<ContentBlock>, map: Map<Seq<char>, Seq<char>>) -> bool {
    exists|i: int| 0 <= i < blocks.len() && block_needs_rewrite(#[trigger] blocks[i], map)
}

/// Some block of the post's content or trail needs rewriting.
pub open spec fn post_needs_rewrite(post: Post, map: Map<Seq<char>, Seq<char>>) -> bool {
    ||| blocks_need_rewrite(post.content@, map)
    ||| exists|t: int|
        0 <= t < post.trail@.len() && blocks_need_rewrite(#[trigger] post.trail@[t].content@, map)
}

/// Some image URL of `blocks`, in any image block at any position, is one the map holds.
pub open spec fn some_image_url_mapped(blocks: Seq<ContentBlock>, map: Map<Seq<char>, Seq<char>>) -> bool {
    exists|i: int, j: int|
        #![trigger blocks[i], map.contains_key(image_media(blocks[i])[j].url@)]
        0 <= i < blocks.len() && blocks[i] is Image && 0 <= j < image_media(blocks[i]).len()
            && map.contains_key(image_media(blocks[i])[j].url@)
}

/// The media of an image block (none for other blocks).
pub open spec fn image_media(b: ContentBlock) -> Seq<MediaObject> {
    match b {
        ContentBlock::Image { media, .. } => media@,
        _ => Seq::empty(),
    }
}

/// A list of blocks needs rewriting exactly when an image block at any position
/// has a media object whose URL the map holds; a post needs it exactly when its
/// content or the content of any of its trail items does.
pub proof fn lemma_needs_rewrite_any_block(post: Post, blocks: Seq<ContentBlock>, map: Map<Seq<char>, Seq<char>>)
    ensures
        blocks_need_rewrite(blocks, map) <==> some_image_url_mapped(blocks, map),
        post_needs_rewrite(post, map) <==> (some_image_url_mapped(post.content@, map) || exists|t: int|
            0 <= t < post.trail@.len() && some_image_url_mapped(#[trigger] post.trail@[t].content@, map)),
{
    assert forall|bs: Seq<ContentBlock>| blocks_need_rewrite(bs, map) <==> some_image_url_mapped(bs, map) by {
        if blocks_need_rewrite(bs, map) {
            let i = choose|i: int| 0 <= i < bs.len() && block_needs_rewrite(#[trigger] bs[i], map);
            let j = choose|j: int| 0 <= j < image_media(bs[i]).len() && map.contains_key(#[trigger] image_media(bs[i])[j].url@);
            assert(bs[i] is Image);
        }
        if some_image_url_mapped(bs, map) {
            let (i, j) = choose|i: int, j: int|
                0 <= i < bs.len() && bs[i] is Image && 0 <= j < image_media(bs[i]).len()
                    && map.contains_key(image_media(bs[i])[j].url@);
            assert(block_needs_rewrite(bs[i], map));
        }
    }
}

/// A post as it was, or a rewritten copy of it.
#[derive(Debug)]
pub enum RewrittenPost<'a> {
    Borrowed(&'a Post),
    Owned(Post),
}

impl<'a> RewrittenPost<'a> {
    /// The post, whichever way it is held.
    pub fn get(&self) -> (res: &Post)
        ensures
            match self {
                RewrittenPost::Borrowed(p) => res == *p,
                RewrittenPost::Owned(p) => res == p,
            },
    {
        match self {
            RewrittenPost::Borrowed(p) => p,
            RewrittenPost::Owned(p) => p,
        }
    }
}

#[verifier::loop_isolation(false)]
fn block_needs_rewrite_exec(block: &ContentBlock, map: &UrlMap) -> (res: bool)
    ensures
        res == block_needs_rewrite(*block, map@),
{
    if let ContentBlock::Image { media, .. } = block {
        for j in 0..media.len()
            invariant
                forall|t: int| 0 <= t < j ==> !map@.contains_key(#[trigger] media@[t].url@),
        {
            if map.contains_key(&media[j].url) {
                assert(map@.contains_key(media@[j as int].url@));
                return true;
            }
        }
        false
    } else {
        false
    }
}

fn blocks_need_rewrite_exec(blocks: &Vec<ContentBlock>, map: &UrlMap) -> (res: bool)
    ensures
        res == blocks_need_rewrite(blocks@, map@),
{
    for i in 0..blocks.len()
        invariant
            forall|t: int| 0 <= t < i ==> !block_needs_rewrite(#[trigger] blocks@[t], map@),
    {
        if block_needs_rewrite_exec(&blocks[i], map) {
            return true;
        }
    }
    false
}

fn rewrite_media(media: &Vec<MediaObject>, map: &UrlMap) -> (res: Vec<MediaObject>)
    ensures
        media_list_rewritten(media@, res@, map@),
{
    let mut res: Vec<MediaObject> = Vec::new();
    for j in 0..media.len()
        invariant
            res@.len() == j,
            forall|t: int| 0 <= t < j ==> media_rewritten(media@[t], #[trigger] res@[t], map@),
    {
        let m = &media[j];
        let url = match map.get(&m.url) {
            Some(local_path) => local_path.clone(),
            None => m.url.clone(),
        };
        res.push(
            MediaObject {
                url,
                media_type: copy_opt_string(&m.media_type),
                width: m.width,
                height: m.height,
                has_original_dimensions: m.has_original_dimensions,
            },
        );
    }
    res
}

/// Rewrites the image URLs of a list of blocks through `map`.
pub fn rewrite_blocks(blocks: &Vec<ContentBlock>, map: &UrlMap) -> (res: Vec<ContentBlock>)
    ensures
        blocks_rewritten(blocks@, res@, map@),
{
    let mut res: Vec<ContentBlock> = Vec::new();
    for i in 0..blocks.len()
        invariant
            res@.len() == i,
            forall|t: int| 0 <= t < i ==> block_rewritten(blocks@[t], #[trigger] res@[t], map@),
    {
        let b = match &blocks[i] {
            ContentBlock::Image { media, alt_text, caption } => ContentBlock::Image {
                media: rewrite_media(media, map),
                alt_text: copy_opt_string(alt_text),
                caption: copy_opt_string(caption),
            },
            other => other.duplicate(),
        };
        res.push(b);
    }
    res
}

/// Rewrites image URLs in a post, returning a modified copy.
///
/// Only URLs present in `url_map` (successful downloads) are rewritten; the
/// post is handed back as it was when none of its image URLs is in the map.
pub fn rewrite_post_image_urls<'a>(post: &'a Post, url_map: &UrlMap) -> (res: RewrittenPost<'a>)
    ensures
        match res {
            RewrittenPost::Borrowed(p) => p == post && !post_needs_rewrite(*post, url_map@),
            RewrittenPost::Owned(p) => post_needs_rewrite(*post, url_map@) && post_rewritten(
                *post,
                p,
                url_map@,
            ),
        },
{
    if url_map.is_empty() {
        return RewrittenPost::Borrowed(post);
    }
    let mut has_rewritable = blocks_need_rewrite_exec(&post.content, url_map);
    let mut t: usize = 0;
    while !has_rewritable && t < post.trail.len()
        invariant
            t <= post.trail@.len(),
            has_rewritable ==> post_needs_rewrite(*post, url_map@),
            !has_rewritable ==> !blocks_need_rewrite(post.content@, url_map@),
            !has_rewritable ==> forall|u: int|
                0 <= u < t ==> !blocks_need_rewrite(#[trigger] post.trail@[u].content@, url_map@),
        decreases post.trail@.len() - t,
    {
        has_rewritable = blocks_need_rewrite_exec(&post.trail[t].content, url_map);
        t = t + 1;
    }
    if !has_rewritable {
        return RewrittenPost::Borrowed(post);
    }
    let content = rewrite_blocks(&post.content, url_map);
    let mut trail: Vec<TrailItem> = Vec::new();
    for i in 0..post.trail.len()
        invariant
            trail@.len() == i,
            forall|u: int|
                0 <= u < i ==> {
                    &&& blocks_rewritten(post.trail@[u].content@, (#[trigger] trail@[u]).content@, url_map@)
                    &&& trail@[u].blog == post.trail@[u].blog
                    &&& trail@[u].post == post.trail@[u].post
                    &&& trail@[u].is_root_item == post.trail@[u].is_root_item
                },
    {
        let item = &post.trail[i];
        trail.push(
            TrailItem {
                content: rewrite_blocks(&item.content, url_map),
                blog: match &item.blog {
                    Some(b) => Some(b.duplicate()),
                    None => None,
                },
                post: match &item.post {
                    Some(p) => Some(p.duplicate()),
                    None => None,
                },
                is_root_item: item.is_root_item,
            },
        );
    }
    RewrittenPost::Owned(
        Post {
            id: post.id.clone(),
            blog_name: post.blog_name.clone(),
            post_url: post.post_url.clone(),
            post_type: post.post_type.clone(),
            original_type: copy_opt_string(&post.original_type),
            timestamp: post.timestamp,
            date: copy_opt_string(&post.date),
            content,
            trail,
            tags: copy_strings(&post.tags),
            summary: copy_opt_string(&post.summary),
            note_count: post.note_count,
            slug: copy_opt_string(&post.slug),
            short_url: copy_opt_string(&post.short_url),
            reblog_key: post.reblog_key.clone(),
            state: copy_opt_string(&post.state),
            reblogged_from_name: copy_opt_string(&post.reblogged_from_name),
            reblogged_from_url: copy_opt_string(&post.reblogged_from_url),
            reblogged_root_name: copy_opt_string(&post.reblogged_root_name),
            reblogged_root_url: copy_opt_string(&post.reblogged_root_url),
            liked: post.liked,
            followed: post.followed,
        },
    )
}

/// The URLs of a list with later repeats dropped, in order of first occurrence.
pub open spec fn first_occurrences(s: Seq<Seq<char>>) -> Seq<Seq<char>>
    decreases s.len(),
{
    if s.len() == 0 {
        Seq::empty()
    } else {
        let r = first_occurrences(s.drop_last());
        if r.contains(s.last()) {
            r
        } else {
            r.push(s.last())
        }
    }
}

/// Deduplicating a list keeps every URL once and no other: the result holds
/// exactly the URLs of the input, and none of them twice.
pub proof fn lemma_first_occurrences(s: Seq<Seq<char>>)
    ensures
        first_occurrences(s).no_duplicates(),
        forall|x: Seq<char>| #[trigger] first_occurrences(s).contains(x) <==> s.contains(x),
    decreases s.len(),
{
    if s.len() > 0 {
        let p = s.drop_last();
        lemma_first_occurrences(p);
        assert forall|x: Seq<char>| #[trigger] first_occurrences(s).contains(x) <==> s.contains(x) by {
            if s.contains(x) && x != s.last() {
                let k = choose|k: int| 0 <= k < s.len() && s[k] == x;
                assert(p[k] == x);
            }
            if p.contains(x) {
                let k = choose|k: int| 0 <= k < p.len() && p[k] == x;
                assert(s[k] == x);
            }
            if first_occurrences(s).contains(x) && !first_occurrences(p).contains(x) {
                assert(x == s.last());
                assert(s[s.len() - 1] == x);
            }
            if first_occurrences(p).contains(x) && first_occurrences(s) != first_occurrences(p) {
                let r = first_occurrences(p);
                let k = choose|k: int| 0 <= k < r.len() && r[k] == x;
                assert(r.push(s.last())[k] == x);
            }
            if x == s.last() && first_occurrences(s) != first_occurrences(p) {
                let r = first_occurrences(p);
                assert(r.push(s.last())[r.len() as int] == x);
            }
        }
    }
}

/// A map whose keys and local paths are all non-empty.
pub open spec fn non_empty_paths(map: Map<Seq<char>, Seq<char>>) -> bool {
    forall|k: Seq<char>| #[trigger] map.contains_key(k) ==> k.len() > 0 && map[k].len() > 0
}

proof fn lemma_first_original_rewritten(
    old: Seq<MediaObject>,
    new: Seq<MediaObject>,
    map: Map<Seq<char>, Seq<char>>,
    i: int,
)
    requires
        media_list_rewritten(old, new, map),
        0 <= i <= old.len(),
    ensures
        first_original(new, i) == first_original(old, i),
    decreases old.len() - i,
{
    if i < old.len() {
        assert(media_rewritten(old[i], new[i], map));
        lemma_first_original_rewritten(old, new, map, i + 1);
    }
}

proof fn lemma_block_url_rewritten(old: ContentBlock, new: ContentBlock, map: Map<Seq<char>, Seq<char>>)
    requires
        block_rewritten(old, new, map),
        non_empty_paths(map),
    ensures
        block_image_url(new) == match block_image_url(old) {
            Some(u) => Some(rewritten_url(map, u)),
            None => None,
        },
{
    if let ContentBlock::Image { media, .. } = old {
        if let ContentBlock::Image { media: m2, .. } = new {
            lemma_first_original_rewritten(media@, m2@, map, 0);
            lemma_best_media(media@);
            if let Some(k) = best_media(media@) {
                assert(media_rewritten(media@[k], m2@[k], map));
                if map.contains_key(media@[k].url@) {
                    assert(media@[k].url@.len() > 0);
                }
            }
        }
    }
}

proof fn lemma_blocks_urls_rewritten(old: Seq<ContentBlock>, new: Seq<ContentBlock>, map: Map<Seq<char>, Seq<char>>)
    requires
        blocks_rewritten(old, new, map),
        non_empty_paths(map),
    ensures
        blocks_image_urls(new) == blocks_image_urls(old).map_values(|u: Seq<char>| rewritten_url(map, u)),
    decreases old.len(),
{
    let f = |u: Seq<char>| rewritten_url(map, u);
    if old.len() == 0 {
        assert(blocks_image_urls(new) =~= blocks_image_urls(old).map_values(f));
    } else {
        let (a, b) = (old.drop_last(), new.drop_last());
        assert(blocks_rewritten(a, b, map)) by {
            assert forall|i: int| 0 <= i < a.len() implies block_rewritten(a[i], #[trigger] b[i], map) by {
                assert(block_rewritten(old[i], new[i], map));
            }
        }
        lemma_blocks_urls_rewritten(a, b, map);
        assert(block_rewritten(old[old.len() - 1], new[new.len() - 1], map));
        lemma_block_url_rewritten(old.last(), new.last(), map);
        let rest = blocks_image_urls(a);
        match block_image_url(old.last()) {
            Some(u) => {
                assert(rest.push(u).map_values(f) =~= rest.map_values(f).push(f(u)));
            },
            None => {},
        }
    }
}

proof fn lemma_trail_urls_rewritten(old: Seq<TrailItem>, new: Seq<TrailItem>, map: Map<Seq<char>, Seq<char>>)
    requires
        trail_rewritten(old, new, map),
        non_empty_paths(map),
    ensures
        trail_image_urls(new) == trail_image_urls(old).map_values(|u: Seq<char>| rewritten_url(map, u)),
    decreases old.len(),
{
    let f = |u: Seq<char>| rewritten_url(map, u);
    if old.len() == 0 {
        assert(trail_image_urls(new) =~= trail_image_urls(old).map_values(f));
    } else {
        let (a, b) = (old.drop_last(), new.drop_last());
        assert(trail_rewritten(a, b, map)) by {
            assert forall|i: int| 0 <= i < a.len() implies {
                &&& blocks_rewritten(a[i].content@, (#[trigger] b[i]).content@, map)
                &&& b[i].blog == a[i].blog
                &&& b[i].post == a[i].post
                &&& b[i].is_root_item == a[i].is_root_item
            } by {
                assert(b[i] == new[i]);
            }
        }
        lemma_trail_urls_rewritten(a, b, map);
        assert(b.len() == new.len() - 1);
        assert(new[new.len() - 1] == new.last());
        lemma_blocks_urls_rewritten(old.last().content@, new.last().content@, map);
        let x = trail_image_urls(a);
        let y = blocks_image_urls(old.last().content@);
        assert((x + y).map_values(f) =~= x.map_values(f) + y.map_values(f));
    }
}

/// Collecting the image URLs of a rewritten post gives the URLs collected from
/// the original, each rewritten through the map (for a map whose URLs and local
/// paths are all non-empty, as those of downloaded images are).
pub proof fn lemma_collect_after_rewrite(old: Post, new: Post, map: Map<Seq<char>, Seq<char>>)
    requires
        post_rewritten(old, new, map),
        non_empty_paths(map),
    ensures
        post_image_urls(new) == post_image_urls(old).map_values(|u: Seq<char>| rewritten_url(map, u)),
{
    let f = |u: Seq<char>| rewritten_url(map, u);
    lemma_blocks_urls_rewritten(old.content@, new.content@, map);
    lemma_trail_urls_rewritten(old.trail@, new.trail@, map);
    let x = blocks_image_urls(old.content@);
    let y = trail_image_urls(old.trail@);
    assert((x + y).map_values(f) =~= x.map_values(f) + y.map_values(f));
}

/// The URLs of `urls` with later repeats dropped, in order of first occurrence.
pub fn unique_urls(urls: &Vec<String>) -> (res: Vec<String>)
    ensures
        res.deep_view() == first_occurrences(urls.deep_view()),
{
    let mut res: Vec<String> = Vec::new();
    assert(res.deep_view() == first_occurrences(urls.deep_view().take(0)));
    for i in 0..urls.len()
        invariant
            res.deep_view() == first_occurrences(urls.deep_view().take(i as int)),
    {
        assert(urls.deep_view().take(i + 1).drop_last() == urls.deep_view().take(i as int));
        assert(urls.deep_view().take(i + 1).last() == urls@[i as int]@);
        let mut seen = false;
        let mut j: usize = 0;
        while j < res.len()
            invariant
                j <= res@.len(),
                i < urls@.len(),
                seen <==> exists|t: int| 0 <= t < j && res@[t]@ == urls@[i as int]@,
            decreases res@.len() - j,
        {
            if res[j] == urls[i] {
                seen = true;
            }
            j = j + 1;
        }
        if seen {
            proof {
                let t = choose|t: int| 0 <= t < j && res@[t]@ == urls@[i as int]@;
                assert(res.deep_view()[t] == urls@[i as int]@);
            }
        } else {
            assert(!res.deep_view().contains(urls@[i as int]@)) by {
                if res.deep_view().contains(urls@[i as int]@) {
                    let t = choose|t: int|
                        0 <= t < res.deep_view().len() && res.deep_view()[t] == urls@[i as int]@;
                    assert(res@[t]@ == urls@[i as int]@);
                }
            }
            let ghost before = res.deep_view();
            res.push(urls[i].clone());
            assert(res.deep_view() == before.push(urls@[i as int]@));
        }
    }
    assert(urls.deep_view().take(urls@.len() as int) == urls.deep_view());
    res
}

/// The path, relative to a post's output, under which the image at `url` is saved.
pub fn local_relative_path(relative_prefix: &str, url: &str) -> (res: String)
    ensures
        res@ == relative_prefix@ + local_filename(url@),
{
    let mut res = String::from_str(relative_prefix);
    let name = local_filename_for_url(url);
    res.append(name.as_str());
    res
}

proof fn lemma_lookup_absent(e: Seq<(String, String)>, x: Seq<char>, i: int)
    requires
        0 <= i <= e.len(),
        forall|t: int| i <= t < e.len() ==> e[t].0@ != x,
    ensures
        lookup_from(e, x, i) is None,
    decreases e.len() - i,
{
    if i < e.len() {
        lemma_lookup_absent(e, x, i + 1);
    }
}

} // verus!
