//! The site's data as the library hands it out, and the library's errors.

use std::collections::HashMap;
use vstd::prelude::*;

use crate::text::{decimal_of, decimal_string};

verus! {

/// What went wrong while talking to the site.
#[derive(Debug)]
pub enum TabunError {
    /// The site answered `Hacking attempt!`.
    HackingAttempt,
    /// An error with a title and a description, as the site's pop-up
    /// messages carry them.
    Error(String, String),
    /// An HTTP status other than the expected one, such as 404 or 403.
    NumError(u16),
    /// A network or HTTP failure, described in words.
    IoError(String),
    /// A page that could not be read: where (the operation), which of its
    /// steps failed (counted from 1), and a message.
    ParseError(String, u32, String),
}

/// [`TabunError`] with its strings taken by their characters.
pub enum ErrorView {
    HackingAttempt,
    Error(Seq<char>, Seq<char>),
    NumError(u16),
    IoError(Seq<char>),
    ParseError(Seq<char>, u32, Seq<char>),
}

impl View for TabunError {
    type V = ErrorView;

    open spec fn view(&self) -> ErrorView {
        match self {
            TabunError::HackingAttempt => ErrorView::HackingAttempt,
            TabunError::Error(t, m) => ErrorView::Error(t@, m@),
            TabunError::NumError(c) => ErrorView::NumError(*c),
            TabunError::IoError(m) => ErrorView::IoError(m@),
            TabunError::ParseError(w, k, m) => ErrorView::ParseError(w@, *k, m@),
        }
    }
}

/// The message of every page that could not be read.
pub open spec fn unparsable_message() -> Seq<char> {
    "Cannot parse page"@
}

/// The error for a page that failed step `step` of operation `place`.
pub open spec fn unparsable(place: Seq<char>, step: u32) -> ErrorView {
    ErrorView::ParseError(place, step, unparsable_message())
}

impl TabunError {
    /// The error for an unexpected HTTP status.
    pub fn from_status(code: u16) -> (r: TabunError)
        ensures
            r@ == ErrorView::NumError(code),
    {
        TabunError::NumError(code)
    }

    /// The error for a page that failed step `step` of operation `place`.
    pub fn unparsable_page(place: &str, step: u32) -> (r: TabunError)
        ensures
            r@ == unparsable(place@, step),
    {
        TabunError::ParseError(String::from_str(place), step, String::from_str("Cannot parse page"))
    }
}

/// Where a reply goes.
pub enum CommentType {
    /// A comment to a post.
    Post,
    /// A reply in a private conversation.
    Talk,
}

/// A comment.
#[derive(Debug, Clone)]
pub struct Comment {
    pub body: String,
    pub id: u32,
    pub author: String,
    pub date: String,
    pub votes: i32,
    pub parent: u32,
    pub post_id: u32,
    pub deleted: bool,
}

/// A post.
#[derive(Debug, Clone)]
pub struct Post {
    pub title: String,
    pub body: String,
    pub date: String,
    pub tags: Vec<String>,
    pub comments_count: u32,
    pub author: String,
    pub id: u32,
}

/// A post as it is given to the editor.
#[derive(Debug, Clone)]
pub struct EditablePost {
    pub title: String,
    pub body: String,
    pub tags: Vec<String>,
}

/// The blogs listed in a user's profile.
#[derive(Debug, Clone)]
pub struct InBlogs {
    /// Blogs the user created.
    pub created: Vec<String>,
    /// Blogs the user administers.
    pub admin: Vec<String>,
    /// Blogs the user moderates.
    pub moderator: Vec<String>,
    /// Blogs the user is a member of.
    pub member: Vec<String>,
}

/// A private conversation.
#[derive(Debug, Clone)]
pub struct Talk {
    pub title: String,
    pub body: String,
    /// The participants.
    pub users: Vec<String>,
    pub comments: HashMap<u32, Comment>,
    pub date: String,
}

/// An entry of the list of private conversations.
#[derive(Debug, Clone)]
pub struct TalkItem {
    pub id: u32,
    pub title: String,
    pub users: Vec<String>,
}

/// The text of `Comment(id,"author","body")`.
pub open spec fn comment_text(id: u32, author: Seq<char>, body: Seq<char>) -> Seq<char> {
    "Comment("@ + decimal_of(id as nat) + ",\""@ + author + "\",\""@ + body + "\")"@
}

/// The text of `Post(id,"author","body")`.
pub open spec fn post_text(id: u32, author: Seq<char>, body: Seq<char>) -> Seq<char> {
    "Post("@ + decimal_of(id as nat) + ",\""@ + author + "\",\""@ + body + "\")"@
}

/// `head`, the number `id`, then `,"author","body")`.
fn labelled(head: &str, id: u32, author: &String, body: &String) -> (r: String)
    ensures
        r@ == head@ + decimal_of(id as nat) + ",\""@ + author@ + "\",\""@ + body@ + "\")"@,
{
    let mut r = String::from_str(head);
    let number = decimal_string(id);
    r.append(number.as_str());
    r.append(",\"");
    r.append(author.as_str());
    r.append("\",\"");
    r.append(body.as_str());
    r.append("\")");
    r
}

impl Comment {
    /// The comment as text: its id, its author and its body.
    pub fn to_display_string(&self) -> (r: String)
        ensures
            r@ == comment_text(self.id, self.author@, self.body@),
    {
        labelled("Comment(", self.id, &self.author, &self.body)
    }
}

impl Post {
    /// The post as text: its id, its author and its body.
    pub fn to_display_string(&self) -> (r: String)
        ensures
            r@ == post_text(self.id, self.author@, self.body@),
    {
        labelled("Post(", self.id, &self.author, &self.body)
    }
}

} // verus!
