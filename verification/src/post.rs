//! The posts that peers exchange: the compact form that is stored and sent,
//! and the full form that is shown.

use vstd::prelude::*;

verus! {

/// A post in 28 bytes: numbers, and hashes in place of its texts.
#[derive(Debug, Clone, Copy, PartialEq, Eq)]
pub struct CompactPost {
    pub id: u32,
    pub creator_id: u32,
    pub title_hash: u32,
    pub description_hash: u32,
    pub timestamp: u32,
    pub likes_count: u16,
    pub city_id: u8,
    pub gender_id: u8,
    pub type_flags: u16,
    pub meta_flags: u16,
}

/// A post as the interface shows it.
#[derive(Debug, Clone, PartialEq, Eq)]
pub struct FullPost {
    pub id: u32,
    pub title: String,
    pub description: String,
    pub city: Option<String>,
    pub types: Vec<String>,
    pub gender: Option<String>,
    pub date: Option<String>,
    pub creator_id: u32,
    pub creator_name: String,
    pub creator_username: String,
    pub creator_avatar: Option<String>,
    pub liked_by: Vec<u32>,
    pub created_at: String,
}

/// A full post as a value.
pub struct FullPostView {
    pub id: u32,
    pub title: Seq<char>,
    pub description: Seq<char>,
    pub city: Option<Seq<char>>,
    pub types: Seq<Seq<char>>,
    pub gender: Option<Seq<char>>,
    pub date: Option<Seq<char>>,
    pub creator_id: u32,
    pub creator_name: Seq<char>,
    pub creator_username: Seq<char>,
    pub creator_avatar: Option<Seq<char>>,
    pub liked_by: Seq<u32>,
    pub created_at: Seq<char>,
}

/// The characters of a text that may be absent.
pub open spec fn text_of(text: Option<String>) -> Option<Seq<char>> {
    match text {
        Some(text) => Some(text@),
        None => None,
    }
}

impl View for FullPost {
    type V = FullPostView;

    open spec fn view(&self) -> FullPostView {
        FullPostView {
            id: self.id,
            title: self.title@,
            description: self.description@,
            city: text_of(self.city),
            types: self.types@.map_values(|text: String| text@),
            gender: text_of(self.gender),
            date: text_of(self.date),
            creator_id: self.creator_id,
            creator_name: self.creator_name@,
            creator_username: self.creator_username@,
            creator_avatar: text_of(self.creator_avatar),
            liked_by: self.liked_by@,
            created_at: self.created_at@,
        }
    }
}

/// The post with its like toggled: a post that has likes loses one, a post
/// without likes gains one.
pub open spec fn toggled(post: CompactPost) -> CompactPost {
    CompactPost {
        likes_count: if post.likes_count > 0 {
            (post.likes_count - 1) as u16
        } else {
            1
        },
        ..post
    }
}

} // verus!
