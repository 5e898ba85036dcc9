//! The cookies the site sets, kept between requests and sent back with each.

use vstd::prelude::*;

use crate::pairs::{
    lemma_pairs_map_values, lemma_pairs_map_witness, names_distinct, pairs_map, set_pair,
};
use crate::text::{lemma_split_first_piece, split_char, split_on};

verus! {

/// The name and value that a `Set-Cookie` line sets: the part before the
/// first `;`, split at its first `=`; `None` where that part has no `=`.
pub open spec fn set_cookie_pair_of(line: Seq<char>) -> Option<(Seq<char>, Seq<char>)> {
    let head = split_char(line, ';')[0];
    let pieces = split_char(head, '=');
    if pieces.len() >= 2 {
        Some((pieces[0], head.skip(pieces[0].len() as int + 1)))
    } else {
        None
    }
}

/// The cookies in hand, by name.
pub struct CookieJar {
    cookies: Vec<(String, String)>,
}

/// `name=value`.
pub open spec fn cookie_text(pair: (Seq<char>, Seq<char>)) -> Seq<char> {
    pair.0 + "="@ + pair.1
}

/// The `name=value` texts of `pairs`, in order.
pub open spec fn cookie_texts(pairs: Seq<(Seq<char>, Seq<char>)>) -> Seq<Seq<char>> {
    Seq::new(pairs.len(), |k: int| cookie_text(pairs[k]))
}

/// Every cookie the jar holds is sent back, as `name=value`, by
/// [`CookieJar::header_values`].
pub proof fn lemma_cookie_sent_back(jar: CookieJar, name: Seq<char>)
    requires
        jar.view().contains_key(name),
    ensures
        exists|i: int|
            0 <= i < cookie_texts(jar.pairs()).len() && #[trigger] cookie_texts(jar.pairs())[i]
                == name + "="@ + jar.view()[name],
{
    lemma_pairs_map_witness(jar.pairs(), name);
    let i = choose|i: int|
        0 <= i < jar.pairs().len() && #[trigger] jar.pairs()[i] == (name, jar.view()[name]);
    assert(cookie_texts(jar.pairs())[i] == name + "="@ + jar.view()[name]);
}

impl CookieJar {
    /// The jar holds each name once.
    #[verifier::type_invariant]
    spec fn wf(&self) -> bool {
        names_distinct(self.cookies.deep_view())
    }

    /// The cookies, by name.
    pub open spec fn view(&self) -> Map<Seq<char>, Seq<char>> {
        pairs_map(self.pairs())
    }

    /// The cookies in the order they were first set.
    pub closed spec fn pairs(&self) -> Seq<(Seq<char>, Seq<char>)> {
        self.cookies.deep_view()
    }

    /// An empty jar.
    pub fn new() -> (r: CookieJar)
        ensures
            r.view() == Map::<Seq<char>, Seq<char>>::empty(),
            r.pairs() == Seq::<(Seq<char>, Seq<char>)>::empty(),
    {
        let r = CookieJar { cookies: Vec::new() };
        assert(r.cookies.deep_view() =~= Seq::<(Seq<char>, Seq<char>)>::empty());
        r
    }

    /// Keeps the cookie that a `Set-Cookie` line sets, replacing any of the
    /// same name; a line that sets none leaves the jar as it was.
    pub fn apply_set_cookie(&mut self, line: &str)
        ensures
            final(self).view() == match set_cookie_pair_of(line@) {
                Some(p) => old(self).view().insert(p.0, p.1),
                None => old(self).view(),
            },
    {
        let parts = split_on(line, ';');
        let head = parts[0].as_str();
        let pieces = split_on(head, '=');
        if pieces.len() < 2 {
            return;
        }
        let name_len = pieces[0].unicode_len();
        let total = head.unicode_len();
        proof {
            lemma_split_first_piece(line@, ';');
            lemma_split_first_piece(head@, '=');
        }
        let name = pieces[0].clone();
        let value = String::from_str(head.substring_char(name_len + 1, total));
        self.set(name, value);
    }

    /// Sets cookie `name` to `value`.
    fn set(&mut self, name: String, value: String)
        ensures
            final(self).view() == old(self).view().insert(name@, value@),
    {
        proof {
            use_type_invariant(&*self);
        }
        let mut cookies: Vec<(String, String)> = Vec::new();
        proof {
            assert(names_distinct(cookies.deep_view()));
        }
        std::mem::swap(&mut cookies, &mut self.cookies);
        set_pair(&mut cookies, name, value);
        self.cookies = cookies;
    }

    /// The `name=value` texts to send back, one per cookie.
    pub fn header_values(&self) -> (r: Vec<String>)
        ensures
            r.deep_view() == cookie_texts(self.pairs()),
            names_distinct(self.pairs()),
            forall|i: int|
                0 <= i < self.pairs().len() ==> self.view().contains_key(#[trigger] self.pairs()[i].0)
                    && self.view()[self.pairs()[i].0] == self.pairs()[i].1,
    {
        proof {
            use_type_invariant(self);
            lemma_pairs_map_values(self.pairs());
        }
        let mut r: Vec<String> = Vec::new();
        let mut i: usize = 0;
        while i < self.cookies.len()
            invariant
                i <= self.cookies@.len(),
                r.deep_view() == cookie_texts(self.pairs().take(i as int)),
            decreases self.cookies@.len() - i,
        {
            let mut t = self.cookies[i].0.clone();
            t.append("=");
            t.append(self.cookies[i].1.as_str());
            let ghost before = r.deep_view();
            assert(t@ == cookie_text(self.pairs()[i as int]));
            r.push(t);
            assert(r.deep_view() =~= before.push(t@));
            assert(cookie_texts(self.pairs().take(i + 1)) =~= cookie_texts(
                self.pairs().take(i as int),
            ).push(cookie_text(self.pairs()[i as int])));
            i += 1;
        }
        assert(self.pairs().take(self.cookies@.len() as int) =~= self.pairs());
        r
    }
}

} // verus!
