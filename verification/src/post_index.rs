//! The store of compact posts, with an index from post id to position.

use vstd::prelude::*;
use std::collections::HashMap;
use crate::post::{toggled, CompactPost};

verus! {

/// The ids of `posts`, in order.
pub open spec fn ids_of(posts: Seq<CompactPost>) -> Seq<u32> {
    posts.map_values(|post: CompactPost| post.id)
}

/// The position of the last of `ids` that equals `id`, if there is one.
pub open spec fn last_position(ids: Seq<u32>, id: u32) -> Option<int>
    decreases ids.len(),
{
    if ids.len() == 0 {
        None
    } else if ids.last() == id {
        Some(ids.len() - 1)
    } else {
        last_position(ids.drop_last(), id)
    }
}

/// The position at which a lookup of `id` finds its post: that of the post
/// with this id that was added last.
pub open spec fn position_of(posts: Seq<CompactPost>, id: u32) -> Option<int> {
    last_position(ids_of(posts), id)
}

/// The posts of `posts` in the city `city_id`, in order.
pub open spec fn in_city(posts: Seq<CompactPost>, city_id: u8) -> Seq<CompactPost> {
    posts.filter(|post: CompactPost| post.city_id == city_id)
}

/// A position that `last_position` gives lies in the sequence and holds the
/// id that was asked for.
pub proof fn lemma_last_position_in_range(ids: Seq<u32>, id: u32)
    ensures
        match last_position(ids, id) {
            Some(i) => 0 <= i < ids.len() && ids[i] == id,
            None => forall|j: int| 0 <= j < ids.len() ==> ids[j] != id,
        },
    decreases ids.len(),
{
    if ids.len() > 0 && ids.last() != id {
        lemma_last_position_in_range(ids.drop_last(), id);
        assert forall|j: int| 0 <= j < ids.len() && last_position(ids, id) is None implies ids[j]
            != id by {
            if j < ids.len() - 1 {
                assert(ids.drop_last()[j] == ids[j]);
            }
        }
    }
}

/// A post that was just added is the one that a lookup of its id finds, and
/// a lookup of any other id finds what it found before.
pub proof fn lemma_added_post_is_found(posts: Seq<CompactPost>, post: CompactPost, id: u32)
    ensures
        position_of(posts.push(post), post.id) == Some(posts.len() as int),
        id != post.id ==> position_of(posts.push(post), id) == position_of(posts, id),
{
    assert(ids_of(posts.push(post)) =~= ids_of(posts).push(post.id));
    assert(ids_of(posts.push(post)).drop_last() =~= ids_of(posts));
}

/// Posts in the order in which they were added, found by id through an
/// index.
pub struct PostIndex {
    posts: Vec<CompactPost>,
    index: HashMap<u32, usize>,
}

impl View for PostIndex {
    type V = Seq<CompactPost>;

    closed spec fn view(&self) -> Seq<CompactPost> {
        self.posts@
    }
}

impl PostIndex {
    /// The index knows every id that occurs, under its last position, and
    /// nothing else.
    pub closed spec fn wf(&self) -> bool {
        forall|id: u32|
            match #[trigger] position_of(self.posts@, id) {
                Some(i) => self.index@.contains_key(id) && self.index@[id] == i,
                None => !self.index@.contains_key(id),
            }
    }

    /// A store without posts.
    pub fn new() -> (store: PostIndex)
        ensures
            store.wf(),
            store@ == Seq::<CompactPost>::empty(),
    {
        let store = PostIndex { posts: Vec::new(), index: HashMap::new() };
        assert(ids_of(store.posts@) =~= Seq::<u32>::empty());
        store
    }

    /// Adds `post` behind the others. A lookup of its id finds it from now
    /// on, also where an earlier post has the same id.
    pub fn add_post(&mut self, post: CompactPost)
        requires
            old(self).wf(),
        ensures
            final(self).wf(),
            final(self)@ == old(self)@.push(post),
    {
        broadcast use vstd::std_specs::hash::group_hash_axioms;

        let id = post.id;
        let index = self.posts.len();
        self.posts.push(post);
        self.index.insert(id, index);
        proof {
            let before = old(self).posts@;
            assert forall|other: u32|
                match #[trigger] position_of(self.posts@, other) {
                    Some(i) => self.index@.contains_key(other) && self.index@[other] == i,
                    None => !self.index@.contains_key(other),
                } by {
                lemma_added_post_is_found(before, post, other);
            }
        }
    }

    /// The post with the id `id`: the one added last, if several have it.
    pub fn get_post(&self, id: u32) -> (found: Option<&CompactPost>)
        requires
            self.wf(),
        ensures
            match position_of(self@, id) {
                Some(i) => found == Some(&self@[i]),
                None => found is None,
            },
    {
        broadcast use vstd::std_specs::hash::group_hash_axioms;

        proof {
            lemma_last_position_in_range(ids_of(self.posts@), id);
        }
        match self.index.get(&id) {
            Some(position) => Some(&self.posts[*position]),
            None => None,
        }
    }

    /// Toggles the like of the post with the id `post_id`, on behalf of
    /// `user_id`. Returns whether there is such a post.
    pub fn update_like(&mut self, post_id: u32, user_id: u32) -> (found: bool)
        requires
            old(self).wf(),
        ensures
            final(self).wf(),
            match position_of(old(self)@, post_id) {
                Some(i) => found && final(self)@ == old(self)@.update(i, toggled(old(self)@[i])),
                None => !found && final(self)@ == old(self)@,
            },
    {
        broadcast use vstd::std_specs::hash::group_hash_axioms;

        proof {
            lemma_last_position_in_range(ids_of(self.posts@), post_id);
        }
        let position = match self.index.get(&post_id) {
            Some(position) => *position,
            None => {
                return false;
            },
        };
        let post = self.posts[position];
        let likes_count: u16 = if post.likes_count > 0 {
            post.likes_count - 1
        } else {
            post.likes_count + 1
        };
        let updated = CompactPost { likes_count, ..post };
        self.posts.set(position, updated);
        proof {
            assert(updated == toggled(post));
            assert(ids_of(self.posts@) =~= ids_of(old(self).posts@));
            assert forall|id: u32|
                match #[trigger] position_of(self.posts@, id) {
                    Some(i) => self.index@.contains_key(id) && self.index@[id] == i,
                    None => !self.index@.contains_key(id),
                } by {
                assert(position_of(self.posts@, id) == position_of(old(self).posts@, id));
            }
        }
        true
    }

    /// The posts in the city `city_id`, in the order in which they were
    /// added.
    pub fn filter_by_city(&self, city_id: u8) -> (found: Vec<&CompactPost>)
        ensures
            found@.map_values(|post: &CompactPost| *post) == in_city(self@, city_id),
    {
        let mut found: Vec<&CompactPost> = Vec::new();
        let mut i: usize = 0;
        assert(self.posts@.take(0) =~= Seq::<CompactPost>::empty());
        while i < self.posts.len()
            invariant
                i <= self.posts.len(),
                found@.map_values(|post: &CompactPost| *post) == in_city(
                    self.posts@.take(i as int),
                    city_id,
                ),
            decreases self.posts.len() - i,
        {
            let ghost earlier = found@;
            let post = &self.posts[i];
            proof {
                assert(self.posts@.take(i + 1) =~= self.posts@.take(i as int).push(*post));
                assert(self.posts@.take(i + 1).drop_last() =~= self.posts@.take(i as int));
                reveal(Seq::filter);
            }
            if post.city_id == city_id {
                found.push(post);
                assert(found@.map_values(|post: &CompactPost| *post) =~= earlier.map_values(
                    |post: &CompactPost| *post,
                ).push(*post));
            }
            i = i + 1;
        }
        assert(self.posts@.take(i as int) =~= self.posts@);
        found
    }

    /// All posts, in the order in which they were added.
    pub fn get_all(&self) -> (posts: &[CompactPost])
        ensures
            posts@ == self@,
    {
        self.posts.as_slice()
    }

    /// The number of posts.
    pub fn len(&self) -> (n: usize)
        ensures
            n == self@.len(),
    {
        self.posts.len()
    }

    /// Puts `new_posts` in place of all posts and builds the index anew.
    pub fn replace_all(&mut self, new_posts: Vec<CompactPost>)
        ensures
            final(self).wf(),
            final(self)@ == new_posts@,
    {
        broadcast use vstd::std_specs::hash::group_hash_axioms;

        self.posts = new_posts;
        self.index.clear();
        let mut i: usize = 0;
        assert(ids_of(self.posts@.take(0)) =~= Seq::<u32>::empty());
        while i < self.posts.len()
            invariant
                i <= self.posts.len(),
                self.posts@ == new_posts@,
                forall|id: u32|
                    match #[trigger] position_of(self.posts@.take(i as int), id) {
                        Some(at) => self.index@.contains_key(id) && self.index@[id] == at,
                        None => !self.index@.contains_key(id),
                    },
            decreases self.posts.len() - i,
        {
            let id = self.posts[i].id;
            self.index.insert(id, i);
            proof {
                let before = self.posts@.take(i as int);
                let after = self.posts@.take(i + 1);
                assert(after =~= before.push(self.posts@[i as int]));
                assert forall|other: u32|
                    match #[trigger] position_of(after, other) {
                        Some(at) => self.index@.contains_key(other) && self.index@[other] == at,
                        None => !self.index@.contains_key(other),
                    } by {
                    lemma_added_post_is_found(before, self.posts@[i as int], other);
                }
            }
            i = i + 1;
        }
        assert(self.posts@.take(i as int) =~= self.posts@);
    }
}

} // verus!
