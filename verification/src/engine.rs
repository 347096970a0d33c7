//! The post engine of a peer: the store of compact posts, the pool of their
//! texts, and the conversion between the compact and the full form.

use vstd::prelude::*;
use vstd::slice::slice_to_vec;
use vstd::string::StringExecFns;
use std::collections::HashMap;
use crate::clock::{rfc3339, rfc3339_text, unix_time};
use crate::codec::{
    bincode_read, can_unpack, laid_out_size, lz4_unpacked, pack, packable, read_posts, unpack,
    unpackable, write_posts,
};
use crate::hashing::{hash_string, string_hash};
use crate::post::{toggled, CompactPost, FullPost, FullPostView};
use crate::post_index::{position_of, PostIndex};
use crate::wire::{decimal, decimal_text};

verus! {

/// Why the engine turned a request down.
#[derive(Debug, Clone, PartialEq, Eq)]
pub enum EngineError {
    /// The data is no LZ4 block; the text says why.
    Decompress(String),
    /// The unpacked bytes are no list of posts; the text says why.
    Parse(String),
    /// No post has this id.
    NotFound(u32),
}

/// An engine error as a value.
pub enum EngineErrorView {
    Decompress(Seq<char>),
    Parse(Seq<char>),
    NotFound(u32),
}

impl View for EngineError {
    type V = EngineErrorView;

    open spec fn view(&self) -> EngineErrorView {
        match self {
            EngineError::Decompress(reason) => EngineErrorView::Decompress(reason@),
            EngineError::Parse(reason) => EngineErrorView::Parse(reason@),
            EngineError::NotFound(id) => EngineErrorView::NotFound(*id),
        }
    }
}

/// The message of an error.
pub open spec fn message_text(error: EngineErrorView) -> Seq<char> {
    match error {
        EngineErrorView::Decompress(reason) => "Decompress error: "@ + reason,
        EngineErrorView::Parse(reason) => "Parse error: "@ + reason,
        EngineErrorView::NotFound(id) => "Post "@ + decimal_text(id as nat) + " not found"@,
    }
}

impl EngineError {
    /// The message of the error.
    pub fn message(&self) -> (text: String)
        ensures
            text@ == message_text(self@),
    {
        match self {
            EngineError::Decompress(reason) => {
                let mut text = "Decompress error: ".to_owned();
                text.append(reason.as_str());
                text
            },
            EngineError::Parse(reason) => {
                let mut text = "Parse error: ".to_owned();
                text.append(reason.as_str());
                text
            },
            EngineError::NotFound(id) => {
                let mut text = "Post ".to_owned();
                text.append(decimal(*id as u64).as_str());
                text.append(" not found");
                text
            },
        }
    }
}

/// Texts by hash.
pub type Texts = Map<u32, Seq<char>>;

/// The text shown for `hash`: what the cache holds for it, else what the
/// pool holds for it, else `Unknown`.
pub open spec fn resolve(cache: Texts, pool: Texts, hash: u32) -> Seq<char> {
    if cache.contains_key(hash) {
        cache[hash]
    } else if pool.contains_key(hash) {
        pool[hash]
    } else {
        "Unknown"@
    }
}

/// The cache after `hash` was resolved: what was shown stays cached.
pub open spec fn remember(cache: Texts, pool: Texts, hash: u32) -> Texts {
    if cache.contains_key(hash) {
        cache
    } else {
        cache.insert(hash, resolve(cache, pool, hash))
    }
}

/// The cache after `post` was converted: its title was resolved first, its
/// description second.
pub open spec fn cache_after(cache: Texts, pool: Texts, post: CompactPost) -> Texts {
    remember(remember(cache, pool, post.title_hash), pool, post.description_hash)
}

/// The full form of the compact post `post`.
pub open spec fn full_form(cache: Texts, pool: Texts, post: CompactPost) -> FullPostView {
    dated_form(cache, pool, post, rfc3339_text(post.timestamp as i64))
}

/// The full form of the compact post `post` whose time of creation is
/// written `date`, or cannot be written.
pub open spec fn dated_form(
    cache: Texts,
    pool: Texts,
    post: CompactPost,
    date: Option<Seq<char>>,
) -> FullPostView {
    FullPostView {
        id: post.id,
        title: resolve(cache, pool, post.title_hash),
        description: resolve(
            remember(cache, pool, post.title_hash),
            pool,
            post.description_hash,
        ),
        city: Some("Moscow"@),
        types: seq!["General"@],
        gender: Some("All"@),
        date: None,
        creator_id: post.creator_id,
        creator_name: "User"@,
        creator_username: "username"@,
        creator_avatar: None,
        liked_by: Seq::empty(),
        created_at: match date {
            Some(text) => text,
            None => "Unknown"@,
        },
    }
}

/// The full forms of `posts`, converted one after the other.
pub open spec fn full_forms(cache: Texts, pool: Texts, posts: Seq<CompactPost>) -> Seq<
    FullPostView,
>
    decreases posts.len(),
{
    if posts.len() == 0 {
        Seq::empty()
    } else {
        seq![full_form(cache, pool, posts[0])] + full_forms(
            cache_after(cache, pool, posts[0]),
            pool,
            posts.drop_first(),
        )
    }
}

/// The cache after `posts` were converted one after the other.
pub open spec fn cache_after_all(cache: Texts, pool: Texts, posts: Seq<CompactPost>) -> Texts
    decreases posts.len(),
{
    if posts.len() == 0 {
        cache
    } else {
        cache_after_all(cache_after(cache, pool, posts[0]), pool, posts.drop_first())
    }
}

/// The compact form under which a full post is stored at `timestamp`.
pub open spec fn compact_form(post: FullPostView, timestamp: u32) -> CompactPost {
    CompactPost {
        id: post.id,
        creator_id: post.creator_id,
        title_hash: string_hash(post.title),
        description_hash: string_hash(post.description),
        timestamp,
        likes_count: (post.liked_by.len() % 0x1_0000) as u16,
        city_id: 0,
        gender_id: 0,
        type_flags: 0,
        meta_flags: 0,
    }
}

/// The pool after the texts of `post` were added to it.
pub open spec fn pool_with(pool: Texts, post: FullPostView) -> Texts {
    pool.insert(string_hash(post.title), post.title).insert(
        string_hash(post.description),
        post.description,
    )
}

/// The views of full posts.
pub open spec fn views_of(posts: Seq<FullPost>) -> Seq<FullPostView> {
    posts.map_values(|post: FullPost| post@)
}

/// The engine of one peer.
pub struct WasmEngine {
    ws_url: String,
    string_pool: HashMap<u32, String>,
    post_storage: PostIndex,
    string_cache: HashMap<u32, String>,
}

impl WasmEngine {
    /// The engine's store is well formed.
    pub closed spec fn wf(&self) -> bool {
        self.post_storage.wf()
    }

    /// The address of the relay that the engine was made for.
    pub closed spec fn url(&self) -> Seq<char> {
        self.ws_url@
    }

    /// The texts that the engine has pooled, by hash.
    pub closed spec fn pool(&self) -> Texts {
        self.string_pool@.map_values(|text: String| text@)
    }

    /// The texts that the engine has shown, by hash.
    pub closed spec fn cache(&self) -> Texts {
        self.string_cache@.map_values(|text: String| text@)
    }

    /// The stored posts, in order.
    pub closed spec fn posts(&self) -> Seq<CompactPost> {
        self.post_storage@
    }

    /// An engine without posts or texts.
    pub fn new(ws_url: String) -> (engine: WasmEngine)
        ensures
            engine.wf(),
            engine.url() == ws_url@,
            engine.pool() == Map::<u32, Seq<char>>::empty(),
            engine.cache() == Map::<u32, Seq<char>>::empty(),
            engine.posts() == Seq::<CompactPost>::empty(),
    {
        let engine = WasmEngine {
            ws_url,
            string_pool: HashMap::new(),
            post_storage: PostIndex::new(),
            string_cache: HashMap::new(),
        };
        assert(engine.pool() =~= Map::<u32, Seq<char>>::empty());
        assert(engine.cache() =~= Map::<u32, Seq<char>>::empty());
        engine
    }

    /// Resolves `hash` to its text and caches what it found.
    fn lookup(&mut self, hash: u32) -> (text: String)
        ensures
            final(self).wf() == old(self).wf(),
            final(self).url() == old(self).url(),
            final(self).pool() == old(self).pool(),
            final(self).posts() == old(self).posts(),
            final(self).cache() == remember(old(self).cache(), old(self).pool(), hash),
            text@ == resolve(old(self).cache(), old(self).pool(), hash),
    {
        broadcast use vstd::std_specs::hash::group_hash_axioms;

        match self.string_cache.get(&hash) {
            Some(text) => text.clone(),
            None => {
                let text = match self.string_pool.get(&hash) {
                    Some(text) => text.clone(),
                    None => "Unknown".to_owned(),
                };
                self.string_cache.insert(hash, text.clone());
                assert(self.cache() =~= remember(old(self).cache(), old(self).pool(), hash));
                text
            },
        }
    }

    /// Converts a compact post to its full form, resolving its title and
    /// then its description through the cache, and writing its time of
    /// creation as a date.
    pub fn compact_to_full(&mut self, compact: &CompactPost) -> (full: FullPost)
        ensures
            final(self).wf() == old(self).wf(),
            final(self).url() == old(self).url(),
            final(self).pool() == old(self).pool(),
            final(self).posts() == old(self).posts(),
            final(self).cache() == cache_after(old(self).cache(), old(self).pool(), *compact),
            full@ == full_form(old(self).cache(), old(self).pool(), *compact),
    {
        let date = rfc3339(compact.timestamp as i64);
        self.compact_to_full_dated(compact, date)
    }

    /// Converts a compact post to its full form, resolving its title and
    /// then its description through the cache. `date` is its time of
    /// creation as text; a post without one was created at a time `Unknown`.
    pub fn compact_to_full_dated(&mut self, compact: &CompactPost, date: Option<String>) -> (full:
        FullPost)
        ensures
            final(self).wf() == old(self).wf(),
            final(self).url() == old(self).url(),
            final(self).pool() == old(self).pool(),
            final(self).posts() == old(self).posts(),
            final(self).cache() == cache_after(old(self).cache(), old(self).pool(), *compact),
            full@ == dated_form(
                old(self).cache(),
                old(self).pool(),
                *compact,
                crate::post::text_of(date),
            ),
    {
        let title = self.lookup(compact.title_hash);
        let description = self.lookup(compact.description_hash);
        let created_at = match date {
            Some(text) => text,
            None => "Unknown".to_owned(),
        };
        let mut types: Vec<String> = Vec::new();
        types.push("General".to_owned());
        let full = FullPost {
            id: compact.id,
            title,
            description,
            city: Some("Moscow".to_owned()),
            types,
            gender: Some("All".to_owned()),
            date: None,
            creator_id: compact.creator_id,
            creator_name: "User".to_owned(),
            creator_username: "username".to_owned(),
            creator_avatar: None,
            liked_by: Vec::new(),
            created_at,
        };
        proof {
            let goal = dated_form(
                old(self).cache(),
                old(self).pool(),
                *compact,
                crate::post::text_of(date),
            );
            assert(full@.types =~= goal.types);
            assert(full@.liked_by =~= goal.liked_by);
        }
        full
    }

    /// Stores `full_post` in compact form, stamped `timestamp`, pools its
    /// title and its description, and hands back the full form of what was
    /// stored.
    pub fn create_post_at(&mut self, full_post: FullPost, timestamp: u32) -> (created: FullPost)
        requires
            old(self).wf(),
        ensures
            final(self).wf(),
            final(self).url() == old(self).url(),
            final(self).pool() == pool_with(old(self).pool(), full_post@),
            final(self).posts() == old(self).posts().push(compact_form(full_post@, timestamp)),
            final(self).cache() == cache_after(
                old(self).cache(),
                pool_with(old(self).pool(), full_post@),
                compact_form(full_post@, timestamp),
            ),
            created@ == full_form(
                old(self).cache(),
                pool_with(old(self).pool(), full_post@),
                compact_form(full_post@, timestamp),
            ),
    {
        broadcast use vstd::std_specs::hash::group_hash_axioms;

        let title_hash = hash_string(full_post.title.as_str());
        self.string_pool.insert(title_hash, full_post.title.clone());
        let description_hash = hash_string(full_post.description.as_str());
        self.string_pool.insert(description_hash, full_post.description.clone());
        let compact = CompactPost {
            id: full_post.id,
            creator_id: full_post.creator_id,
            title_hash,
            description_hash,
            timestamp,
            likes_count: (full_post.liked_by.len() % 0x1_0000) as u16,
            city_id: 0,
            gender_id: 0,
            type_flags: 0,
            meta_flags: 0,
        };
        assert(compact == compact_form(full_post@, timestamp));
        assert(self.pool() =~= pool_with(old(self).pool(), full_post@));
        self.post_storage.add_post(compact);
        self.compact_to_full(&compact)
    }

    /// Stores `full_post`, stamped with the wall clock's time cut to 32
    /// bits.
    pub fn create_post(&mut self, full_post: FullPost) -> (created: FullPost)
        requires
            old(self).wf(),
        ensures
            final(self).wf(),
            final(self).url() == old(self).url(),
            final(self).pool() == pool_with(old(self).pool(), full_post@),
            exists|timestamp: u32|
                {
                    &&& final(self).posts() == old(self).posts().push(
                        #[trigger] compact_form(full_post@, timestamp),
                    )
                    &&& final(self).cache() == cache_after(
                        old(self).cache(),
                        pool_with(old(self).pool(), full_post@),
                        compact_form(full_post@, timestamp),
                    )
                    &&& created@ == full_form(
                        old(self).cache(),
                        pool_with(old(self).pool(), full_post@),
                        compact_form(full_post@, timestamp),
                    )
                },
    {
        let timestamp = (unix_time() % 0x1_0000_0000) as u32;
        self.create_post_at(full_post, timestamp)
    }

    /// The full forms of all stored posts, in order.
    pub fn get_posts(&mut self) -> (full_posts: Vec<FullPost>)
        ensures
            final(self).wf() == old(self).wf(),
            final(self).url() == old(self).url(),
            final(self).pool() == old(self).pool(),
            final(self).posts() == old(self).posts(),
            final(self).cache() == cache_after_all(
                old(self).cache(),
                old(self).pool(),
                old(self).posts(),
            ),
            views_of(full_posts@) == full_forms(
                old(self).cache(),
                old(self).pool(),
                old(self).posts(),
            ),
    {
        let posts = slice_to_vec(self.post_storage.get_all());
        let ghost pool = self.pool();
        let ghost start = self.cache();
        let mut full_posts: Vec<FullPost> = Vec::new();
        let mut i: usize = 0;
        assert(posts@.skip(0) =~= posts@);
        assert(views_of(full_posts@) =~= Seq::<FullPostView>::empty());
        while i < posts.len()
            invariant
                i <= posts.len(),
                posts@ == old(self).posts(),
                self.wf() == old(self).wf(),
                self.url() == old(self).url(),
                self.pool() == pool,
                self.posts() == old(self).posts(),
                full_forms(start, pool, posts@) == views_of(full_posts@) + full_forms(
                    self.cache(),
                    pool,
                    posts@.skip(i as int),
                ),
                cache_after_all(start, pool, posts@) == cache_after_all(
                    self.cache(),
                    pool,
                    posts@.skip(i as int),
                ),
            decreases posts.len() - i,
        {
            let ghost done = views_of(full_posts@);
            let full = self.compact_to_full(&posts[i]);
            full_posts.push(full);
            proof {
                let rest = posts@.skip(i as int);
                assert(rest[0] == posts@[i as int]);
                assert(rest.drop_first() =~= posts@.skip(i + 1));
                assert(views_of(full_posts@) =~= done.push(full@));
                assert(done + (seq![full@] + full_forms(self.cache(), pool, posts@.skip(i + 1)))
                    =~= done.push(full@) + full_forms(self.cache(), pool, posts@.skip(i + 1)));
            }
            i = i + 1;
        }
        proof {
            assert(posts@.skip(i as int) =~= Seq::<CompactPost>::empty());
            assert(views_of(full_posts@) + Seq::<FullPostView>::empty() =~= views_of(full_posts@));
        }
        full_posts
    }

    /// Toggles the like of the post `post_id` on behalf of `user_id` and
    /// hands back all posts, or says that there is no such post.
    pub fn toggle_like(&mut self, post_id: u32, user_id: u32) -> (result: Result<
        Vec<FullPost>,
        EngineError,
    >)
        requires
            old(self).wf(),
        ensures
            final(self).wf(),
            final(self).url() == old(self).url(),
            final(self).pool() == old(self).pool(),
            match position_of(old(self).posts(), post_id) {
                Some(i) => {
                    &&& final(self).posts() == old(self).posts().update(
                        i,
                        toggled(old(self).posts()[i]),
                    )
                    &&& final(self).cache() == cache_after_all(
                        old(self).cache(),
                        old(self).pool(),
                        final(self).posts(),
                    )
                    &&& result matches Ok(full_posts) && views_of(full_posts@) == full_forms(
                        old(self).cache(),
                        old(self).pool(),
                        final(self).posts(),
                    )
                },
                None => {
                    &&& final(self).posts() == old(self).posts()
                    &&& final(self).cache() == old(self).cache()
                    &&& result matches Err(error) && error@ == EngineErrorView::NotFound(post_id)
                },
            },
    {
        if self.post_storage.update_like(post_id, user_id) {
            Ok(self.get_posts())
        } else {
            Err(EngineError::NotFound(post_id))
        }
    }

    /// Whether the stored posts are few enough for LZ4 to size its buffer
    /// for them.
    pub fn can_compress(&self) -> (able: bool)
        ensures
            able == packable(laid_out_size(self.posts().len())),
    {
        let room: usize = (usize::MAX - 2400) / 110;
        self.post_storage.len() <= (room - 8) / 28
    }

    /// The stored posts as bytes for the network: laid out by `bincode`,
    /// packed by LZ4. A peer that takes the data with `decompress_posts`
    /// holds the same posts afterwards, as long as the laid-out posts are
    /// short enough for LZ4 to note their length in 32 bits and the data can
    /// be unpacked within the numbers that LZ4 reckons in.
    pub fn compress_posts(&self) -> (data: Vec<u8>)
        requires
            packable(laid_out_size(self.posts().len())),
        ensures
            laid_out_size(self.posts().len()) <= u32::MAX && unpackable(data@) ==> (received(
                data@,
            ) matches Ok(posts) && posts == self.posts()),
    {
        let serialized = write_posts(self.post_storage.get_all());
        pack(serialized.as_slice())
    }

    /// Takes posts from the network: unpacks `data`, reads the posts, puts
    /// them in place of the stored ones and hands back their full forms.
    /// Data that cannot be unpacked within the numbers that LZ4 reckons in,
    /// that does not unpack, or that holds no list of posts, is refused and
    /// changes nothing.
    pub fn decompress_posts(&mut self, data: &[u8]) -> (result: Result<Vec<FullPost>, EngineError>)
        requires
            old(self).wf(),
        ensures
            final(self).wf(),
            final(self).url() == old(self).url(),
            final(self).pool() == old(self).pool(),
            match received(data@) {
                Ok(posts) => {
                    &&& final(self).posts() == posts
                    &&& final(self).cache() == cache_after_all(
                        old(self).cache(),
                        old(self).pool(),
                        posts,
                    )
                    &&& result matches Ok(full_posts) && views_of(full_posts@) == full_forms(
                        old(self).cache(),
                        old(self).pool(),
                        posts,
                    )
                },
                Err(refusal) => {
                    &&& final(self).posts() == old(self).posts()
                    &&& final(self).cache() == old(self).cache()
                    &&& result matches Err(error) && refused_as(error@, refusal)
                },
            },
    {
        if !can_unpack(data) {
            return Err(EngineError::Decompress("length is out of range".to_owned()));
        }
        let decompressed = match unpack(data) {
            Ok(bytes) => bytes,
            Err(reason) => {
                return Err(EngineError::Decompress(reason));
            },
        };
        let posts = match read_posts(decompressed.as_slice()) {
            Ok(posts) => posts,
            Err(reason) => {
                return Err(EngineError::Parse(reason));
            },
        };
        self.post_storage.replace_all(posts);
        Ok(self.get_posts())
    }
}

/// Why data from the network holds no posts.
pub enum Refusal {
    /// LZ4 cannot unpack the data within the numbers it reckons in.
    OutOfRange,
    /// The data is no LZ4 block; the text says why.
    Decompress(Seq<char>),
    /// The unpacked bytes are no list of posts.
    Parse,
}

/// The posts that data from the network holds, or why it holds none.
pub open spec fn received(data: Seq<u8>) -> Result<Seq<CompactPost>, Refusal> {
    if !unpackable(data) {
        Err(Refusal::OutOfRange)
    } else {
        match lz4_unpacked(data) {
            Ok(bytes) => match bincode_read(bytes) {
                Some(posts) => Ok(posts),
                None => Err(Refusal::Parse),
            },
            Err(reason) => Err(Refusal::Decompress(reason)),
        }
    }
}

/// Whether `error` is the error that the engine gives for `refusal`. What
/// `bincode` says of bytes that are no posts is passed on as it came.
pub open spec fn refused_as(error: EngineErrorView, refusal: Refusal) -> bool {
    match refusal {
        Refusal::OutOfRange => error == EngineErrorView::Decompress("length is out of range"@),
        Refusal::Decompress(reason) => error == EngineErrorView::Decompress(reason),
        Refusal::Parse => error is Parse,
    }
}

} // verus!
