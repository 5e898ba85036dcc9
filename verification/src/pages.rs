//! Reading the site's HTML pages: where each value sits on a page, and what
//! the client makes of it.

use vstd::prelude::*;

use crate::pairs::names_distinct;
use crate::profile::{
    blog_id_of, blog_place, count_result_view, profile_of, profile_place, profile_result_view,
    read_blog_id, read_profile, FactLineView, Profile, ProfilePage, ProfilePageView,
    StrengthArea,
};
use crate::replies::{group_at, group_of, text_outcome_view, SECURITY_KEY_PATTERN};
use crate::trusted::{
    attr_in_first, attr_in_first_of, fact_lists, fact_lists_of, first_attr_inside,
    first_attr_inside_of, first_element_html, first_element_html_of, first_text_and_attr_within,
    first_text_and_attr_within_of, first_text_inside_with_attr, first_text_inside_with_attr_of,
    first_text_with_class, first_text_with_class_of, first_text_within_class,
    first_text_within_class_of, inner_html_in_first, inner_html_in_first_of, menu_links,
    menu_links_of, regex_captures, regex_captures_of,
};
use crate::types::{unparsable, ErrorView, TabunError};

verus! {

/// The operation name in the errors of opening a session.
pub open spec fn session_place() -> Seq<char> {
    "new"@
}

/// The operation name in the errors of signing in.
pub open spec fn login_place() -> Seq<char> {
    "login"@
}

/// What the login page gives, from the HTML `root` of its `html` element
/// (`None` where the page has none, step 1) and the capture result
/// `key_caps` of [`SECURITY_KEY_PATTERN`] on that HTML: the key in group 1.
/// `None` marks the page the client cannot go on from: an element without a
/// key.
pub open spec fn key_reply_of(
    root: Option<Seq<char>>,
    key_caps: Option<Seq<Option<Seq<char>>>>,
) -> Option<Result<Seq<char>, ErrorView>> {
    match root {
        None => Some(Err(unparsable(session_place(), 1))),
        Some(_) => match group_of(key_caps, 1) {
            Some(key) => Some(Ok(key)),
            None => None,
        },
    }
}

/// What the login page `html` gives (see [`key_reply_of`]).
pub open spec fn login_page_key_of(html: Seq<char>) -> Option<Result<Seq<char>, ErrorView>> {
    let root = first_element_html_of(html, "html"@);
    key_reply_of(
        root,
        match root {
            Some(r) => regex_captures_of(SECURITY_KEY_PATTERN@, r),
            None => None,
        },
    )
}

/// Reads the security key, given the HTML `root` of the login page's `html`
/// element and the capture result `key_caps` of [`SECURITY_KEY_PATTERN`] on
/// it (see [`key_reply_of`]).
pub fn key_from_root(root: &Option<String>, key_caps: &Option<Vec<Option<String>>>) -> (r: Option<
    Result<String, TabunError>,
>)
    ensures
        text_outcome_view(r) == key_reply_of(root.deep_view(), key_caps.deep_view()),
{
    match root {
        None => Some(Err(TabunError::unparsable_page("new", 1))),
        Some(_) => match group_at(key_caps, 1) {
            Some(key) => Some(Ok(key)),
            None => None,
        },
    }
}

/// Reads the security key from the login page.
pub fn login_page_key(html: &str) -> (r: Option<Result<String, TabunError>>)
    ensures
        text_outcome_view(r) == login_page_key_of(html@),
{
    let root = first_element_html(html, "html");
    let key_caps = match &root {
        Some(r) => regex_captures(SECURITY_KEY_PATTERN, r.as_str()),
        None => None,
    };
    key_from_root(&root, &key_caps)
}

/// The view of a text or an error.
pub open spec fn text_result_view(r: Result<String, TabunError>) -> Result<Seq<char>, ErrorView> {
    match r {
        Ok(s) => Ok(s@),
        Err(e) => Err(e@),
    }
}

/// The signed-in user's name, given the text `found` of the page's first
/// element of class `username`, required (step 1).
pub open spec fn username_of(found: Option<Seq<char>>) -> Result<Seq<char>, ErrorView> {
    match found {
        Some(name) => Ok(name),
        None => Err(unparsable(login_place(), 1)),
    }
}

/// Reads the signed-in user's name from the text `found` of the page's first
/// element of class `username` (see [`username_of`]).
pub fn username_from(found: Option<String>) -> (r: Result<String, TabunError>)
    ensures
        text_result_view(r) == username_of(found.deep_view()),
{
    match found {
        Some(name) => Ok(name),
        None => Err(TabunError::unparsable_page("login", 1)),
    }
}

/// The signed-in user's name on the page `html` (see [`username_of`]).
pub fn username_on_page(html: &str) -> (r: Result<String, TabunError>)
    ensures
        text_result_view(r) == username_of(first_text_with_class_of(html@, "username"@)),
{
    username_from(first_text_with_class(html, "username"))
}

/// The security key is exactly the text the key pattern captures in its
/// group 1, whatever else the captures hold; a page without an `html`
/// element fails at step 1 whatever the captures; and a found user name is
/// kept as found.
pub proof fn law_login_page_reading(
    root: Seq<char>,
    key_caps: Option<Seq<Option<Seq<char>>>>,
    other_caps: Option<Seq<Option<Seq<char>>>>,
    key: Seq<char>,
    name: Seq<char>,
)
    ensures
        group_of(key_caps, 1) == Some(key) ==> key_reply_of(Some(root), key_caps) == Some(
            Ok::<Seq<char>, ErrorView>(key),
        ),
        key_reply_of(Some(root), key_caps) == Some(Ok::<Seq<char>, ErrorView>(key)) ==> group_of(
            key_caps,
            1,
        ) == Some(key),
        key_reply_of(None, key_caps) == key_reply_of(None, other_caps),
        key_reply_of(None, key_caps) == Some(
            Err::<Seq<char>, ErrorView>(unparsable(session_place(), 1)),
        ),
        username_of(Some(name)) == Ok::<Seq<char>, ErrorView>(name),
        username_of(None) == Err::<Seq<char>, ErrorView>(unparsable(login_place(), 1)),
{
}

/// The `id` of the first `span` in the blog's vote box on the page `html`.
pub open spec fn blog_span_id_of(html: Seq<char>) -> Option<Seq<char>> {
    first_attr_inside_of(html, "div"@, "vote-item"@, "span"@, "id"@)
}

/// The blog id on the blog page `html`.
pub fn blog_id_on_page(html: &str) -> (r: Result<u32, TabunError>)
    ensures
        count_result_view(r) == match blog_span_id_of(html@) {
            Some(id) => match blog_id_of(id) {
                Some(n) => Ok(n),
                None => Err(unparsable(blog_place(), 1)),
            },
            None => Err(unparsable(blog_place(), 1)),
        },
{
    read_blog_id(first_attr_inside(html, "div", "vote-item", "span", "id"))
}

/// The last of `lists`, `None` where there is none.
pub open spec fn last_of(lists: Seq<Seq<FactLineView>>) -> Option<Seq<FactLineView>> {
    if lists.len() == 0 {
        None
    } else {
        Some(lists.last())
    }
}

/// What the client finds on the profile page `html`: inside the `div` of
/// class `profile`, the `h2` with `itemprop="nickname"`, the `p` with
/// `itemprop="name"`, the first `div` in the `div` of class `strength` and the
/// `span` in the box of class `vote-count`; in the first `div` of class
/// `profile-info-about`, the `src` of the `img` in the box of class `avatar`
/// and the inner HTML of the `div` of class `text`; the lines (`li`, with
/// `span`, `strong` and links `a`) of the last `ul` of class
/// `profile-dotted-list`; and the link of each `li` of the box of class
/// `nav-profile`.
pub open spec fn profile_page_of(html: Seq<char>) -> ProfilePageView {
    ProfilePageView {
        username: first_text_inside_with_attr_of(
            html,
            "div"@,
            "profile"@,
            "h2"@,
            "itemprop"@,
            "nickname"@,
        ),
        realname: first_text_inside_with_attr_of(
            html,
            "div"@,
            "profile"@,
            "p"@,
            "itemprop"@,
            "name"@,
        ),
        strength: first_text_and_attr_within_of(
            html,
            "div"@,
            "profile"@,
            "div"@,
            "strength"@,
            "div"@,
            "id"@,
        ),
        rating: first_text_within_class_of(html, "div"@, "profile"@, "vote-count"@, "span"@),
        userpic: attr_in_first_of(
            html,
            "div"@,
            "profile-info-about"@,
            "avatar"@,
            "img"@,
            "src"@,
        ),
        description: inner_html_in_first_of(
            html,
            "div"@,
            "profile-info-about"@,
            "div"@,
            "text"@,
        ),
        dotted: last_of(
            fact_lists_of(html, "ul"@, "profile-dotted-list"@, "li"@, "span"@, "strong"@, "a"@),
        ),
        nav: menu_links_of(html, "nav-profile"@, "li"@, "a"@),
    }
}

/// Finds on the profile page `html` what a profile is read from.
pub fn profile_page(html: &str) -> (r: ProfilePage)
    ensures
        r@ == profile_page_of(html@),
{
    let username = first_text_inside_with_attr(html, "div", "profile", "h2", "itemprop", "nickname");
    let realname = first_text_inside_with_attr(html, "div", "profile", "p", "itemprop", "name");
    let strength = match first_text_and_attr_within(
        html,
        "div",
        "profile",
        "div",
        "strength",
        "div",
        "id",
    ) {
        Some((text, id)) => Some(StrengthArea { text, id }),
        None => None,
    };
    let rating = first_text_within_class(html, "div", "profile", "vote-count", "span");
    let userpic = attr_in_first(html, "div", "profile-info-about", "avatar", "img", "src");
    let description = inner_html_in_first(html, "div", "profile-info-about", "div", "text");
    let mut lists = fact_lists(html, "ul", "profile-dotted-list", "li", "span", "strong", "a");
    let ghost all = lists.deep_view();
    let dotted = lists.pop();
    proof {
        if all.len() > 0 {
            assert(dotted.deep_view() == Some(all.last()));
        }
    }
    let nav = menu_links(html, "nav-profile", "li", "a");
    ProfilePage { username, realname, strength, rating, userpic, description, dotted, nav }
}

/// Reads the profile on the profile page `html`.
pub fn profile_on_page(html: &str) -> (r: Result<Profile, TabunError>)
    ensures
        profile_result_view(r) == match profile_of(profile_page_of(html@)) {
            Ok(v) => Ok(v),
            Err(k) => Err(unparsable(profile_place(), k)),
        },
        r matches Ok(p) ==> names_distinct(p.other_info.deep_view()),
{
    read_profile(profile_page(html))
}

} // verus!
