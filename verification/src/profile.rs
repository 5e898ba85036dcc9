//! Reading a user's profile page and a blog page.
//!
//! The pages arrive as the texts and attributes of the elements that the
//! client looks up in them; this module turns them into a profile.

use vstd::prelude::*;

use crate::text::{
    all_digits, contains, contains_seq, decimal_of, lemma_decimal_of_spells,
    lemma_decimal_roundtrip, lemma_split_append_piece, lemma_split_single_piece, parse_u32,
    parse_u32_spec, remove_char, split_char, split_on, without_char,
};
use crate::pairs::{names_distinct, pairs_map, set_pair};
use crate::types::{unparsable, ErrorView, InBlogs, TabunError};

verus! {

/// The skill box of a profile: its text and its `id` attribute, if any.
pub struct StrengthArea {
    pub text: String,
    pub id: Option<String>,
}

/// The value of a line of a profile's list of facts: the text of its
/// `strong` element and the texts of the links in it.
pub struct FactValue {
    pub text: String,
    pub links: Vec<String>,
}

/// A line of a profile's list of facts: the text of its `span` element (its
/// label) and its value, each `None` when the line lacks it.
pub struct FactLine {
    pub label: Option<String>,
    pub value: Option<FactValue>,
}

/// A line of the list of facts, taken by its views: the label, and the
/// value's text with the texts of its links.
pub struct FactLineView {
    pub label: Option<Seq<char>>,
    pub value: Option<(Seq<char>, Seq<Seq<char>>)>,
}

impl DeepView for FactLine {
    type V = FactLineView;

    open spec fn deep_view(&self) -> FactLineView {
        FactLineView {
            label: self.label.deep_view(),
            value: match &self.value {
                Some(v) => Some((v.text@, v.links.deep_view())),
                None => None,
            },
        }
    }
}

/// What the client finds on a profile page. A field is `None` where the
/// page lacks the element it comes from.
pub struct ProfilePage {
    /// The user name (the `h2` with `itemprop="nickname"`).
    pub username: Option<String>,
    /// The real name (the `p` with `itemprop="name"`).
    pub realname: Option<String>,
    /// The skill box (the first `div` in the `strength` box).
    pub strength: Option<StrengthArea>,
    /// The text of the rating (the `span` in the `vote-count` box).
    pub rating: Option<String>,
    /// The `src` of the avatar image in the "about" box.
    pub userpic: Option<String>,
    /// The inner HTML of the `text` box in the "about" box.
    pub description: Option<String>,
    /// The lines of the last list of facts, `None` where there is no list.
    pub dotted: Option<Vec<FactLine>>,
    /// The text of the link of each entry of the profile's menu, `None` for
    /// an entry without a link.
    pub nav: Vec<Option<String>>,
}

/// A profile page's findings, taken by their views; the skill box is its
/// text and its `id`.
pub struct ProfilePageView {
    pub username: Option<Seq<char>>,
    pub realname: Option<Seq<char>>,
    pub strength: Option<(Seq<char>, Option<Seq<char>>)>,
    pub rating: Option<Seq<char>>,
    pub userpic: Option<Seq<char>>,
    pub description: Option<Seq<char>>,
    pub dotted: Option<Seq<FactLineView>>,
    pub nav: Seq<Option<Seq<char>>>,
}

impl View for ProfilePage {
    type V = ProfilePageView;

    open spec fn view(&self) -> ProfilePageView {
        ProfilePageView {
            username: self.username.deep_view(),
            realname: self.realname.deep_view(),
            strength: match &self.strength {
                Some(a) => Some((a.text@, a.id.deep_view())),
                None => None,
            },
            rating: self.rating.deep_view(),
            userpic: self.userpic.deep_view(),
            description: self.description.deep_view(),
            dotted: self.dotted.deep_view(),
            nav: self.nav.deep_view(),
        }
    }
}

/// A profile, with skill and rating still as the page writes them.
pub struct Profile {
    pub username: String,
    pub realname: String,
    /// The skill, as text.
    pub skill: String,
    pub id: u32,
    /// The rating, as text.
    pub rating: String,
    /// The address of the avatar, sometimes with `//`, sometimes with
    /// `https://`.
    pub userpic: String,
    pub description: String,
    /// Facts such as the date of birth or of the last visit, named as the
    /// site names them, each name once, in the order in which the page first
    /// names it; a later fact with the same name replaces the earlier value.
    pub other_info: Vec<(String, String)>,
    pub blogs: InBlogs,
    /// The number of publications.
    pub publications: u32,
    /// The number of favourites.
    pub favourites: u32,
    /// The number of friends.
    pub friends: u32,
}

/// The blog lists and other facts read from a profile's list of facts.
#[verifier::ext_equal]
pub struct FactsView {
    pub created: Seq<Seq<char>>,
    pub admin: Seq<Seq<char>>,
    pub moderator: Seq<Seq<char>>,
    pub member: Seq<Seq<char>>,
    pub other: Map<Seq<char>, Seq<char>>,
}

/// A profile taken by its views.
pub struct ProfileView {
    pub username: Seq<char>,
    pub realname: Seq<char>,
    pub skill: Seq<char>,
    pub id: u32,
    pub rating: Seq<char>,
    pub userpic: Seq<char>,
    pub description: Seq<char>,
    pub facts: FactsView,
    pub publications: u32,
    pub favourites: u32,
    pub friends: u32,
}

impl View for Profile {
    type V = ProfileView;

    open spec fn view(&self) -> ProfileView {
        ProfileView {
            username: self.username@,
            realname: self.realname@,
            skill: self.skill@,
            id: self.id,
            rating: self.rating@,
            userpic: self.userpic@,
            description: self.description@,
            facts: FactsView {
                created: self.blogs.created.deep_view(),
                admin: self.blogs.admin.deep_view(),
                moderator: self.blogs.moderator.deep_view(),
                member: self.blogs.member.deep_view(),
                other: pairs_map(self.other_info.deep_view()),
            },
            publications: self.publications,
            favourites: self.favourites,
            friends: self.friends,
        }
    }
}

/// The operation name in the errors of reading a profile.
pub open spec fn profile_place() -> Seq<char> {
    "get_profile"@
}

/// The user id in the skill box's `id` attribute: the third piece between
/// underscores, read as a `u32`.
pub open spec fn user_id_of(id: Seq<char>) -> Option<u32> {
    let pieces = split_char(id, '_');
    if pieces.len() > 2 {
        parse_u32_spec(pieces[2])
    } else {
        None
    }
}

/// No facts yet.
pub open spec fn no_facts() -> FactsView {
    FactsView {
        created: Seq::empty(),
        admin: Seq::empty(),
        moderator: Seq::empty(),
        member: Seq::empty(),
        other: Map::empty(),
    }
}

/// One line of the list of facts read on top of `facts`. A label that holds
/// `Создал` (created), `Администрирует` (administers), `Модерирует` (moderates)
/// or `Состоит` (member of), tried in this order, sets that blog list to the
/// line's links; any other label, without its colons, names a fact whose
/// value is the line's text. A line without label or value cannot be read.
pub open spec fn fact_step(facts: FactsView, item: FactLineView) -> Option<FactsView> {
    match (item.label, item.value) {
        (Some(l), Some(value)) => {
            let links = value.1;
            Some(
                if contains_seq(l, "Создал"@) {
                    FactsView { created: links, ..facts }
                } else if contains_seq(l, "Администрирует"@) {
                    FactsView { admin: links, ..facts }
                } else if contains_seq(l, "Модерирует"@) {
                    FactsView { moderator: links, ..facts }
                } else if contains_seq(l, "Состоит"@) {
                    FactsView { member: links, ..facts }
                } else {
                    FactsView { other: facts.other.insert(remove_char(l, ':'), value.0), ..facts }
                },
            )
        },
        _ => None,
    }
}

/// The lines `items` read in order; `None` where a line cannot be read.
pub open spec fn facts_of(items: Seq<FactLineView>) -> Option<FactsView>
    decreases items.len(),
{
    if items.len() == 0 {
        Some(no_facts())
    } else {
        match facts_of(items.drop_last()) {
            Some(f) => fact_step(f, items.last()),
            None => None,
        }
    }
}

/// The counters of a profile's menu: publications, favourites, friends.
pub type Counters = (u32, u32, u32);

/// One menu entry read on top of `counts`. An entry without link cannot be
/// read (step 8). A link holding `Инфо` (info) counts nothing. Otherwise,
/// where the link has a `(`, the piece after it, without `)`, is a number
/// (else step 9 fails) that sets the publications where the piece before
/// holds `Публикации`, the favourites where it holds `Избранное`, and the
/// friends otherwise.
pub open spec fn nav_step(counts: Counters, link: Option<Seq<char>>) -> Result<Counters, u32> {
    match link {
        None => Err(8),
        Some(t) => if contains_seq(t, "Инфо"@) {
            Ok(counts)
        } else {
            let pieces = split_char(t, '(');
            if pieces.len() > 1 {
                match parse_u32_spec(remove_char(pieces[1], ')')) {
                    None => Err(9),
                    Some(v) => Ok(
                        if contains_seq(pieces[0], "Публикации"@) {
                            (v, counts.1, counts.2)
                        } else if contains_seq(pieces[0], "Избранное"@) {
                            (counts.0, v, counts.2)
                        } else {
                            (counts.0, counts.1, v)
                        },
                    ),
                }
            } else {
                Ok(counts)
            }
        },
    }
}

/// The menu entries `links` read in order from zero counters; the error is
/// the failed step.
pub open spec fn nav_of(links: Seq<Option<Seq<char>>>) -> Result<Counters, u32>
    decreases links.len(),
{
    if links.len() == 0 {
        Ok((0, 0, 0))
    } else {
        match nav_of(links.drop_last()) {
            Ok(c) => nav_step(c, links.last()),
            Err(k) => Err(k),
        }
    }
}

/// The profile on `page`, or the first step that fails: 1 the user name,
/// 2 the skill box and the user id in its `id`, 3 the rating, 4 the avatar,
/// 5 the description, 6 the list of facts, 7 a line of it, 8 and 9 the menu
/// (see [`nav_step`]). A missing real name is an empty one.
pub open spec fn profile_of(page: ProfilePageView) -> Result<ProfileView, u32> {
    if page.username is None {
        Err(1)
    } else if !(page.strength matches Some(area) && area.1 matches Some(id) && user_id_of(id) is Some) {
        Err(2)
    } else if page.rating is None {
        Err(3)
    } else if page.userpic is None {
        Err(4)
    } else if page.description is None {
        Err(5)
    } else if page.dotted is None {
        Err(6)
    } else {
        match facts_of(page.dotted->0) {
            None => Err(7),
            Some(facts) => match nav_of(page.nav) {
                Err(k) => Err(k),
                Ok(counts) => {
                    let area = page.strength->0;
                    Ok(
                    ProfileView {
                        username: page.username->0,
                        realname: match page.realname {
                            Some(r) => r,
                            None => Seq::empty(),
                        },
                        skill: area.0,
                        id: user_id_of(area.1->0)->0,
                        rating: page.rating->0,
                        userpic: page.userpic->0,
                        description: page.description->0,
                        facts,
                        publications: counts.0,
                        favourites: counts.1,
                        friends: counts.2,
                    },
                )
                },
            },
        }
    }
}

/// A copy of a list of strings.
fn copy_strings(v: &Vec<String>) -> (r: Vec<String>)
    ensures
        r.deep_view() == v.deep_view(),
{
    let mut r: Vec<String> = Vec::new();
    let mut i: usize = 0;
    while i < v.len()
        invariant
            i <= v@.len(),
            r.deep_view() == v.deep_view().take(i as int),
        decreases v@.len() - i,
    {
        let ghost before = r.deep_view();
        let c = v[i].clone();
        assert(c@ == v.deep_view()[i as int]);
        r.push(c);
        assert(r.deep_view() =~= before.push(c@));
        i += 1;
        assert(r.deep_view() =~= v.deep_view().take(i as int));
    }
    assert(v.deep_view().take(v@.len() as int) =~= v.deep_view());
    r
}

/// The user id in the skill box's `id` attribute.
pub fn user_id(id: &str) -> (r: Option<u32>)
    ensures
        r == user_id_of(id@),
{
    let pieces = split_on(id, '_');
    if pieces.len() > 2 {
        parse_u32(pieces[2].as_str())
    } else {
        None
    }
}

/// A failure of the first `j` items is a failure of all of them.
proof fn lemma_facts_none_extends(items: Seq<FactLineView>, j: int)
    requires
        0 <= j <= items.len(),
        facts_of(items.take(j)) is None,
    ensures
        facts_of(items) is None,
    decreases items.len(),
{
    if j < items.len() {
        assert(items.drop_last().take(j) =~= items.take(j));
        lemma_facts_none_extends(items.drop_last(), j);
    } else {
        assert(items.take(j) =~= items);
    }
}

/// A line with label `l`, value text `text` and link texts `links`.
pub open spec fn fact_line(l: Seq<char>, text: Seq<char>, links: Seq<Seq<char>>) -> FactLineView {
    FactLineView { label: Some(l), value: Some((text, links)) }
}

/// The facts of `items` followed by `line` are those of `items` and then
/// the one line.
proof fn lemma_facts_push(items: Seq<FactLineView>, line: FactLineView)
    ensures
        facts_of(items.push(line)) == match facts_of(items) {
            Some(f) => fact_step(f, line),
            None => None,
        },
{
    assert(items.push(line).drop_last() =~= items);
}

/// A line whose label holds `Создал` makes its links the list of blogs the
/// user created, whatever came before, and leaves every other fact as it was.
pub proof fn law_created_line(
    items: Seq<FactLineView>,
    l: Seq<char>,
    text: Seq<char>,
    links: Seq<Seq<char>>,
)
    requires
        facts_of(items) is Some,
        contains_seq(l, "Создал"@),
    ensures
        facts_of(items.push(fact_line(l, text, links))) matches Some(g) && {
            let f = facts_of(items)->0;
            &&& g.created == links
            &&& g.admin == f.admin
            &&& g.moderator == f.moderator
            &&& g.member == f.member
            &&& g.other == f.other
        },
{
    lemma_facts_push(items, fact_line(l, text, links));
}

/// A line whose label holds `Администрирует` (and not `Создал`) makes its
/// links the list of blogs the user administers, and leaves every other fact
/// as it was: on a list of that one line, the user administers exactly those
/// blogs and moderates none.
pub proof fn law_admin_line(
    items: Seq<FactLineView>,
    l: Seq<char>,
    text: Seq<char>,
    links: Seq<Seq<char>>,
)
    requires
        facts_of(items) is Some,
        contains_seq(l, "Администрирует"@),
        !contains_seq(l, "Создал"@),
    ensures
        facts_of(items.push(fact_line(l, text, links))) matches Some(g) && {
            let f = facts_of(items)->0;
            &&& g.admin == links
            &&& g.created == f.created
            &&& g.moderator == f.moderator
            &&& g.member == f.member
            &&& g.other == f.other
        },
        facts_of(seq![fact_line(l, text, links)]) matches Some(g) && g.admin == links
            && g.moderator.len() == 0 && g.created.len() == 0 && g.member.len() == 0,
{
    lemma_facts_push(items, fact_line(l, text, links));
    lemma_facts_push(Seq::empty(), fact_line(l, text, links));
    assert(Seq::<FactLineView>::empty().push(fact_line(l, text, links)) =~= seq![
        fact_line(l, text, links),
    ]);
}

/// A line whose label holds `Модерирует` (and neither `Создал` nor
/// `Администрирует`) makes its links the list of blogs the user moderates,
/// and leaves every other fact as it was.
pub proof fn law_moderator_line(
    items: Seq<FactLineView>,
    l: Seq<char>,
    text: Seq<char>,
    links: Seq<Seq<char>>,
)
    requires
        facts_of(items) is Some,
        contains_seq(l, "Модерирует"@),
        !contains_seq(l, "Создал"@),
        !contains_seq(l, "Администрирует"@),
    ensures
        facts_of(items.push(fact_line(l, text, links))) matches Some(g) && {
            let f = facts_of(items)->0;
            &&& g.moderator == links
            &&& g.created == f.created
            &&& g.admin == f.admin
            &&& g.member == f.member
            &&& g.other == f.other
        },
{
    lemma_facts_push(items, fact_line(l, text, links));
}

/// A line whose label holds `Состоит` (and none of the other blog words)
/// makes its links the list of blogs the user is a member of, and leaves
/// every other fact as it was.
pub proof fn law_member_line(
    items: Seq<FactLineView>,
    l: Seq<char>,
    text: Seq<char>,
    links: Seq<Seq<char>>,
)
    requires
        facts_of(items) is Some,
        contains_seq(l, "Состоит"@),
        !contains_seq(l, "Создал"@),
        !contains_seq(l, "Администрирует"@),
        !contains_seq(l, "Модерирует"@),
    ensures
        facts_of(items.push(fact_line(l, text, links))) matches Some(g) && {
            let f = facts_of(items)->0;
            &&& g.member == links
            &&& g.created == f.created
            &&& g.admin == f.admin
            &&& g.moderator == f.moderator
            &&& g.other == f.other
        },
{
    lemma_facts_push(items, fact_line(l, text, links));
}

/// A line whose label names no blog list records a fact: its name is the
/// label without colons, its value the line's text exactly as written
/// (colons included); the other facts and the blog lists stay as they were.
pub proof fn law_other_fact_line(
    items: Seq<FactLineView>,
    l: Seq<char>,
    text: Seq<char>,
    links: Seq<Seq<char>>,
)
    requires
        facts_of(items) is Some,
        !contains_seq(l, "Создал"@),
        !contains_seq(l, "Администрирует"@),
        !contains_seq(l, "Модерирует"@),
        !contains_seq(l, "Состоит"@),
    ensures
        facts_of(items.push(fact_line(l, text, links))) matches Some(g) && {
            let f = facts_of(items)->0;
            &&& g.other.contains_key(remove_char(l, ':'))
            &&& g.other[remove_char(l, ':')] == text
            &&& forall|name: Seq<char>|
                name != remove_char(l, ':') ==> (#[trigger] g.other.contains_key(name)
                    == f.other.contains_key(name) && g.other[name] == f.other[name])
            &&& g.created == f.created
            &&& g.admin == f.admin
            &&& g.moderator == f.moderator
            &&& g.member == f.member
        },
{
    lemma_facts_push(items, fact_line(l, text, links));
}

/// A line without a label or without a value makes the list unreadable.
pub proof fn law_incomplete_line(items: Seq<FactLineView>, line: FactLineView)
    requires
        line.label is None || line.value is None,
    ensures
        facts_of(items.push(line)) is None,
{
    lemma_facts_push(items, line);
}

/// The counters of `links` followed by `link` are those of `links` and then
/// the one entry.
proof fn lemma_nav_push(links: Seq<Option<Seq<char>>>, link: Option<Seq<char>>)
    ensures
        nav_of(links.push(link)) == match nav_of(links) {
            Ok(c) => nav_step(c, link),
            Err(k) => Err(k),
        },
{
    assert(links.push(link).drop_last() =~= links);
}

/// The number in a menu entry `t`: the piece after its first `(`, without
/// `)`.
pub open spec fn entry_number(t: Seq<char>) -> Option<u32> {
    let pieces = split_char(t, '(');
    if pieces.len() > 1 {
        parse_u32_spec(remove_char(pieces[1], ')'))
    } else {
        None
    }
}

/// A menu entry whose text before the `(` holds `Публикации` sets the number
/// of publications to its number and keeps the other two counters; one that
/// holds `Избранное` there sets the favourites; any other numbered entry sets
/// the friends. An entry that holds `Инфо` changes nothing.
pub proof fn law_nav_entry(links: Seq<Option<Seq<char>>>, t: Seq<char>, v: u32)
    requires
        nav_of(links) is Ok,
        !contains_seq(t, "Инфо"@),
        entry_number(t) == Some(v),
    ensures
        ({
            let c = nav_of(links)->Ok_0;
            let before = split_char(t, '(')[0];
            nav_of(links.push(Some(t))) == Ok::<Counters, u32>(
                if contains_seq(before, "Публикации"@) {
                    (v, c.1, c.2)
                } else if contains_seq(before, "Избранное"@) {
                    (c.0, v, c.2)
                } else {
                    (c.0, c.1, v)
                },
            )
        }),
{
    lemma_nav_push(links, Some(t));
}

/// An entry holding `Инфо` changes no counter; an entry without a link
/// fails at step 8; an entry with a `(` not followed by a number fails at
/// step 9.
pub proof fn law_nav_other_entries(links: Seq<Option<Seq<char>>>, t: Seq<char>)
    requires
        nav_of(links) is Ok,
    ensures
        contains_seq(t, "Инфо"@) ==> nav_of(links.push(Some(t))) == nav_of(links),
        nav_of(links.push(None)) == Err::<Counters, u32>(8),
        !contains_seq(t, "Инфо"@) && split_char(t, '(').len() > 1 && entry_number(t) is None
            ==> nav_of(links.push(Some(t))) == Err::<Counters, u32>(9),
{
    lemma_nav_push(links, Some(t));
    lemma_nav_push(links, None);
}

/// A profile read from a page carries what the page shows: its name, real
/// name (empty where the page has none), skill text, rating, avatar and
/// description as found, the user id from the skill box, the facts of its
/// list and the counters of its menu.
pub proof fn law_profile_fields(page: ProfilePageView)
    requires
        profile_of(page) is Ok,
    ensures
        ({
            let v = profile_of(page)->Ok_0;
            let area = page.strength->0;
            &&& page.username == Some(v.username)
            &&& page.realname is Some ==> page.realname == Some(v.realname)
            &&& page.realname is None ==> v.realname.len() == 0
            &&& page.strength is Some && area.0 == v.skill
            &&& area.1 is Some && user_id_of(area.1->0) == Some(v.id)
            &&& page.rating == Some(v.rating)
            &&& page.userpic == Some(v.userpic)
            &&& page.description == Some(v.description)
            &&& page.dotted is Some && facts_of(page.dotted->0) == Some(v.facts)
            &&& nav_of(page.nav) == Ok::<Counters, u32>((v.publications, v.favourites, v.friends))
        }),
{
}

/// A failure of the first `j` entries is the failure of all of them.
proof fn lemma_nav_err_extends(links: Seq<Option<Seq<char>>>, j: int)
    requires
        0 <= j <= links.len(),
        nav_of(links.take(j)) is Err,
    ensures
        nav_of(links) == nav_of(links.take(j)),
    decreases links.len(),
{
    if j < links.len() {
        assert(links.drop_last().take(j) =~= links.take(j));
        lemma_nav_err_extends(links.drop_last(), j);
    } else {
        assert(links.take(j) =~= links);
    }
}

/// Facts as they are being gathered.
struct Facts {
    blogs: InBlogs,
    other: Vec<(String, String)>,
}

impl Facts {
    spec fn view(&self) -> FactsView {
        FactsView {
            created: self.blogs.created.deep_view(),
            admin: self.blogs.admin.deep_view(),
            moderator: self.blogs.moderator.deep_view(),
            member: self.blogs.member.deep_view(),
            other: pairs_map(self.other.deep_view()),
        }
    }
}

/// Reads the lines of a list of facts.
fn read_facts(items: &Vec<FactLine>) -> (r: Option<Facts>)
    ensures
        match facts_of(items.deep_view()) {
            Some(f) => r matches Some(got) && got.view() == f,
            None => r is None,
        },
        r matches Some(got) ==> names_distinct(got.other.deep_view()),
{
    let mut facts = Facts {
        blogs: InBlogs {
            created: Vec::new(),
            admin: Vec::new(),
            moderator: Vec::new(),
            member: Vec::new(),
        },
        other: Vec::new(),
    };
    assert(facts.view() =~= no_facts());
    let ghost iv = items.deep_view();
    assert(iv.take(0) =~= Seq::<FactLineView>::empty());
    let mut i: usize = 0;
    while i < items.len()
        invariant
            iv == items.deep_view(),
            i <= iv.len(),
            facts_of(iv.take(i as int)) == Some(facts.view()),
            names_distinct(facts.other.deep_view()),
        decreases iv.len() - i,
    {
        let item = &items[i];
        assert(iv.take(i + 1).drop_last() =~= iv.take(i as int));
        assert(iv.take(i + 1).last() == item.deep_view());
        match (&item.label, &item.value) {
            (Some(label), Some(value)) => {
                let l = label.as_str();
                if contains(l, "Создал") {
                    facts.blogs.created = copy_strings(&value.links);
                } else if contains(l, "Администрирует") {
                    facts.blogs.admin = copy_strings(&value.links);
                } else if contains(l, "Модерирует") {
                    facts.blogs.moderator = copy_strings(&value.links);
                } else if contains(l, "Состоит") {
                    facts.blogs.member = copy_strings(&value.links);
                } else {
                    let name = without_char(l, ':');
                    set_pair(&mut facts.other, name, value.text.clone());
                }
                assert(facts_of(iv.take(i + 1)) == Some(facts.view()));
            },
            _ => {
                proof {
                    lemma_facts_none_extends(iv, i + 1);
                }
                return None;
            },
        }
        i += 1;
    }
    assert(iv.take(iv.len() as int) =~= iv);
    Some(facts)
}

/// Reads the entries of a profile's menu.
fn read_nav(links: &Vec<Option<String>>) -> (r: Result<Counters, u32>)
    ensures
        r == nav_of(links.deep_view()),
{
    let ghost lv = links.deep_view();
    let mut counts: Counters = (0, 0, 0);
    assert(lv.take(0) =~= Seq::<Option<Seq<char>>>::empty());
    let mut i: usize = 0;
    while i < links.len()
        invariant
            lv == links.deep_view(),
            i <= lv.len(),
            nav_of(lv.take(i as int)) == Ok::<Counters, u32>(counts),
        decreases lv.len() - i,
    {
        assert(lv.take(i + 1).drop_last() =~= lv.take(i as int));
        assert(lv.take(i + 1).last() == lv[i as int]);
        match &links[i] {
            None => {
                proof {
                    lemma_nav_err_extends(lv, i + 1);
                }
                return Err(8);
            },
            Some(t) => {
                let text = t.as_str();
                if !contains(text, "Инфо") {
                    let pieces = split_on(text, '(');
                    if pieces.len() > 1 {
                        let digits = without_char(pieces[1].as_str(), ')');
                        match parse_u32(digits.as_str()) {
                            None => {
                                proof {
                                    lemma_nav_err_extends(lv, i + 1);
                                }
                                return Err(9);
                            },
                            Some(v) => {
                                let head = pieces[0].as_str();
                                if contains(head, "Публикации") {
                                    counts = (v, counts.1, counts.2);
                                } else if contains(head, "Избранное") {
                                    counts = (counts.0, v, counts.2);
                                } else {
                                    counts = (counts.0, counts.1, v);
                                }
                            },
                        }
                    }
                }
            },
        }
        i += 1;
    }
    assert(lv.take(lv.len() as int) =~= lv);
    Ok(counts)
}

/// The view of the result of reading a profile.
pub open spec fn profile_result_view(r: Result<Profile, TabunError>) -> Result<ProfileView, ErrorView> {
    match r {
        Ok(p) => Ok(p@),
        Err(e) => Err(e@),
    }
}

/// Reads a profile from what was found on its page; every failed step is
/// an unreadable page, numbered as [`profile_of`] numbers them.
pub fn read_profile(page: ProfilePage) -> (r: Result<Profile, TabunError>)
    ensures
        profile_result_view(r) == match profile_of(page@) {
            Ok(v) => Ok(v),
            Err(k) => Err(unparsable(profile_place(), k)),
        },
        r matches Ok(p) ==> names_distinct(p.other_info.deep_view()),
{
    let ghost found = page@;
    let ProfilePage { username, realname, strength, rating, userpic, description, dotted, nav } =
        page;
    let username = match username {
        Some(u) => u,
        None => return Err(TabunError::unparsable_page("get_profile", 1)),
    };
    let (skill, id) = match strength {
        Some(area) => match &area.id {
            Some(attr) => match user_id(attr.as_str()) {
                Some(id) => (area.text, id),
                None => return Err(TabunError::unparsable_page("get_profile", 2)),
            },
            None => return Err(TabunError::unparsable_page("get_profile", 2)),
        },
        None => return Err(TabunError::unparsable_page("get_profile", 2)),
    };
    let rating = match rating {
        Some(r) => r,
        None => return Err(TabunError::unparsable_page("get_profile", 3)),
    };
    let userpic = match userpic {
        Some(u) => u,
        None => return Err(TabunError::unparsable_page("get_profile", 4)),
    };
    let description = match description {
        Some(d) => d,
        None => return Err(TabunError::unparsable_page("get_profile", 5)),
    };
    let items = match dotted {
        Some(items) => items,
        None => return Err(TabunError::unparsable_page("get_profile", 6)),
    };
    let facts = match read_facts(&items) {
        Some(f) => f,
        None => return Err(TabunError::unparsable_page("get_profile", 7)),
    };
    let counts = match read_nav(&nav) {
        Ok(c) => c,
        Err(k) => return Err(TabunError::unparsable_page("get_profile", k)),
    };
    let realname = match realname {
        Some(r) => r,
        None => String::new(),
    };
    let Facts { blogs, other } = facts;
    let profile = Profile {
        username,
        realname,
        skill,
        id,
        rating,
        userpic,
        description,
        other_info: other,
        blogs,
        publications: counts.0,
        favourites: counts.1,
        friends: counts.2,
    };
    assert(profile@.facts == facts_of(found.dotted->0)->0);
    Ok(profile)
}

/// The operation name in the errors of reading a blog page.
pub open spec fn blog_place() -> Seq<char> {
    "get_blog_id"@
}

/// The blog id in the `id` attribute of a blog's vote box: the piece after
/// the last underscore, read as a `u32`.
pub open spec fn blog_id_of(id: Seq<char>) -> Option<u32> {
    parse_u32_spec(split_char(id, '_').last())
}

/// The view of a number or an error.
pub open spec fn count_result_view(r: Result<u32, TabunError>) -> Result<u32, ErrorView> {
    match r {
        Ok(n) => Ok(n),
        Err(e) => Err(e@),
    }
}

/// Reads the blog id from the `id` attribute of the first `span` in the
/// blog's vote box, `None` where the page has no such span or attribute;
/// either that or an id that does not end in a number is an unreadable page.
pub fn read_blog_id(span_id: Option<String>) -> (r: Result<u32, TabunError>)
    ensures
        count_result_view(r) == match span_id.deep_view() {
            Some(id) => match blog_id_of(id) {
                Some(n) => Ok(n),
                None => Err(unparsable(blog_place(), 1)),
            },
            None => Err(unparsable(blog_place(), 1)),
        },
{
    match span_id {
        Some(id) => {
            let pieces = split_on(id.as_str(), '_');
            let last = pieces.len() - 1;
            match parse_u32(pieces[last].as_str()) {
                Some(n) => Ok(n),
                None => Err(TabunError::unparsable_page("get_blog_id", 1)),
            }
        },
        None => Err(TabunError::unparsable_page("get_blog_id", 1)),
    }
}

/// A decimal spelling holds no underscore.
proof fn lemma_decimal_free_of(n: nat, c: char)
    requires
        c == '_' || c == '(',
    ensures
        forall|i: int| 0 <= i < decimal_of(n).len() ==> decimal_of(n)[i] != c,
{
    lemma_decimal_of_spells(n);
    assert forall|i: int| 0 <= i < decimal_of(n).len() implies decimal_of(n)[i] != c by {
        assert(all_digits(decimal_of(n)));
    }
}

/// Whatever comes before it, an id that ends with an underscore and the
/// decimal spelling of a number names the blog with that number.
pub proof fn lemma_blog_id_of_spelled(prefix: Seq<char>, n: u32)
    ensures
        blog_id_of(prefix.push('_') + decimal_of(n as nat)) == Some(n),
{
    lemma_decimal_free_of(n as nat, '_');
    lemma_split_append_piece(prefix, '_', decimal_of(n as nat));
    lemma_decimal_roundtrip(n);
}

/// An id made of two underscore-free words and the decimal spelling of a
/// number, joined by underscores, names the user with that number.
pub proof fn lemma_user_id_of_spelled(first: Seq<char>, second: Seq<char>, n: u32)
    requires
        forall|i: int| 0 <= i < first.len() ==> first[i] != '_',
        forall|i: int| 0 <= i < second.len() ==> second[i] != '_',
    ensures
        user_id_of(first.push('_') + second.push('_') + decimal_of(n as nat)) == Some(n),
{
    let head = first.push('_') + second;
    assert(first.push('_') + second.push('_') + decimal_of(n as nat) =~= head.push('_')
        + decimal_of(n as nat));
    lemma_decimal_free_of(n as nat, '_');
    lemma_split_append_piece(head, '_', decimal_of(n as nat));
    lemma_split_append_piece(first, '_', second);
    lemma_split_single_piece(first, '_');
    lemma_decimal_roundtrip(n);
}

} // verus!
