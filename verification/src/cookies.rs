//! The cookies of one request, and what the handling of the request does to
//! them.
//!
//! A jar holds the cookies that came with the request and, in the order in
//! which they were made, the changes that the response is to carry back. The
//! caller fills the jar from the request and, when the request is handled,
//! sends the changes with the response. Every cookie in a jar is meant to be
//! kept tamper-evident by the caller: signed or encrypted on its way out, and
//! checked on its way in.

use vstd::prelude::*;

verus! {

/// When a browser sends a cookie along with a request that another site
/// caused.
#[derive(Clone, Copy, Debug, PartialEq, Eq, Structural)]
pub enum SameSite {
    /// Never.
    Strict,
    /// Only when the request takes the user to this site, as a redirect that
    /// comes back from an identity provider does.
    Lax,
}

/// A cookie: a value under a name, and the rule by which the browser sends
/// it back.
#[derive(Debug)]
pub struct Cookie {
    pub name: String,
    pub value: String,
    pub same_site: SameSite,
}

/// A change that the response makes to the cookies of the client.
#[derive(Debug)]
pub enum CookieChange {
    /// The cookie is stored, in place of any other of its name.
    Add(Cookie),
    /// The cookie of this name is deleted.
    Remove(String),
}

/// A change to the cookies of the client, by the text of its parts.
pub enum CookieChangeView {
    /// A cookie is stored, in place of any other of its name.
    Add { name: Seq<char>, value: Seq<char>, same_site: SameSite },
    /// The cookie of this name is deleted.
    Remove { name: Seq<char> },
}

impl View for CookieChange {
    type V = CookieChangeView;

    open spec fn view(&self) -> CookieChangeView {
        match *self {
            CookieChange::Add(cookie) => CookieChangeView::Add {
                name: cookie.name@,
                value: cookie.value@,
                same_site: cookie.same_site,
            },
            CookieChange::Remove(name) => CookieChangeView::Remove { name: name@ },
        }
    }
}

impl CookieChangeView {
    /// The cookies after the change, given the cookies before it.
    pub open spec fn apply(self, cookies: Map<Seq<char>, Seq<char>>) -> Map<Seq<char>, Seq<char>> {
        match self {
            CookieChangeView::Add { name, value, .. } => cookies.insert(name, value),
            CookieChangeView::Remove { name } => cookies.remove(name),
        }
    }
}

/// The cookies that a request brought, from names to values. Of two cookies
/// of one name the later one counts.
pub open spec fn brought(incoming: Seq<Cookie>) -> Map<Seq<char>, Seq<char>>
    decreases incoming.len(),
{
    if incoming.len() == 0 {
        Map::empty()
    } else {
        brought(incoming.drop_last()).insert(incoming.last().name@, incoming.last().value@)
    }
}

/// The cookies after a run of changes, given the cookies before it.
pub open spec fn changed(
    cookies: Map<Seq<char>, Seq<char>>,
    changes: Seq<CookieChangeView>,
) -> Map<Seq<char>, Seq<char>>
    decreases changes.len(),
{
    if changes.len() == 0 {
        cookies
    } else {
        changes.last().apply(changed(cookies, changes.drop_last()))
    }
}

/// The value under a name, if there is one.
pub open spec fn value_of(cookies: Map<Seq<char>, Seq<char>>, name: Seq<char>) -> Option<
    Seq<char>,
> {
    if cookies.contains_key(name) {
        Some(cookies[name])
    } else {
        None
    }
}

/// The cookies of one request: those that the request brought, and the
/// changes that its handling has made so far.
#[derive(Debug)]
pub struct CookieJar {
    pub incoming: Vec<Cookie>,
    pub changes: Vec<CookieChange>,
}

impl View for CookieJar {
    type V = Map<Seq<char>, Seq<char>>;

    /// The cookies as the client holds them once the changes have reached
    /// it, from names to values.
    open spec fn view(&self) -> Map<Seq<char>, Seq<char>> {
        changed(brought(self.incoming@), self.pending())
    }
}

/// One more change acts on the cookies that the changes before it left.
pub proof fn lemma_changed_push(
    cookies: Map<Seq<char>, Seq<char>>,
    changes: Seq<CookieChangeView>,
    change: CookieChangeView,
)
    ensures
        changed(cookies, changes.push(change)) == change.apply(changed(cookies, changes)),
{
    assert(changes.push(change).drop_last() == changes);
}

impl CookieJar {
    /// The changes that the handling of the request has made so far, in the
    /// order in which the response is to carry them.
    pub open spec fn pending(&self) -> Seq<CookieChangeView> {
        self.changes@.map_values(|change: CookieChange| change@)
    }

    /// The jar of a request that brought no cookies.
    pub fn new() -> (jar: CookieJar)
        ensures
            jar.incoming@ == Seq::<Cookie>::empty(),
            jar.pending() == Seq::<CookieChangeView>::empty(),
            jar@ == Map::<Seq<char>, Seq<char>>::empty(),
    {
        CookieJar { incoming: Vec::new(), changes: Vec::new() }
    }

    /// The jar of a request that brought the cookies `incoming`.
    pub fn from_cookies(incoming: Vec<Cookie>) -> (jar: CookieJar)
        ensures
            jar.incoming == incoming,
            jar.pending() == Seq::<CookieChangeView>::empty(),
            jar@ == brought(incoming@),
    {
        CookieJar { incoming, changes: Vec::new() }
    }

    /// The value of the cookie of this name, as the changes so far have left
    /// it.
    pub fn get(&self, name: &str) -> (value: Option<String>)
        ensures
            value is Some <==> self@.contains_key(name@),
            value matches Some(v) ==> v@ == self@[name@],
    {
        let wanted = name.to_owned();
        let mut i: usize = self.changes.len();
        assert(self.pending().take(i as int) == self.pending());
        while i > 0
            invariant
                i <= self.changes.len(),
                wanted@ == name@,
                value_of(self@, name@) == value_of(
                    changed(brought(self.incoming@), self.pending().take(i as int)),
                    name@,
                ),
            decreases i,
        {
            i = i - 1;
            proof {
                let before = self.pending().take(i as int);
                assert(self.pending().take(i + 1) == before.push(self.changes@[i as int]@));
                lemma_changed_push(brought(self.incoming@), before, self.changes@[i as int]@);
            }
            match &self.changes[i] {
                CookieChange::Add(cookie) => {
                    if cookie.name == wanted {
                        return Some(cookie.value.clone());
                    }
                },
                CookieChange::Remove(removed) => {
                    if *removed == wanted {
                        return None;
                    }
                },
            }
        }
        let mut j: usize = self.incoming.len();
        assert(self.incoming@.take(j as int) == self.incoming@);
        while j > 0
            invariant
                j <= self.incoming.len(),
                wanted@ == name@,
                value_of(self@, name@) == value_of(brought(self.incoming@.take(j as int)), name@),
            decreases j,
        {
            j = j - 1;
            proof {
                let before = self.incoming@.take(j as int);
                assert(self.incoming@.take(j + 1).drop_last() == before);
            }
            if self.incoming[j].name == wanted {
                return Some(self.incoming[j].value.clone());
            }
        }
        None
    }

    /// Stores a cookie, in place of any other of its name.
    pub fn add(&mut self, cookie: Cookie)
        ensures
            final(self).incoming == old(self).incoming,
            final(self).pending() == old(self).pending().push(CookieChange::Add(cookie)@),
            final(self)@ == old(self)@.insert(cookie.name@, cookie.value@),
    {
        proof {
            lemma_changed_push(brought(self.incoming@), self.pending(), CookieChange::Add(cookie)@);
        }
        self.changes.push(CookieChange::Add(cookie));
    }

    /// Deletes the cookie of this name.
    pub fn remove(&mut self, name: &str)
        ensures
            final(self).incoming == old(self).incoming,
            final(self).pending() == old(self).pending().push(
                CookieChangeView::Remove { name: name@ },
            ),
            final(self)@ == old(self)@.remove(name@),
    {
        proof {
            lemma_changed_push(
                brought(self.incoming@),
                self.pending(),
                CookieChangeView::Remove { name: name@ },
            );
        }
        self.changes.push(CookieChange::Remove(name.to_owned()));
        assert(self.pending() == old(self).pending().push(
            CookieChangeView::Remove { name: name@ },
        ));
    }
}

} // verus!
