//! Result Shaper: the shape of the documents a read operation returns. The
//! store's answers are modelled as typed records over a snapshot, and each
//! projection is a pure function on that model: the mutually exclusive type
//! tag, capped relation previews beside independently computed exact counts,
//! the transitive location chain, and the author-enriched post and comment
//! documents. Every declared projection field is always present in the
//! returned document (possibly `None` or empty), so a client can match on a
//! fixed schema.

use vstd::prelude::*;

verus! {

/// The closed set of page variants: every page is exactly one of these.
#[derive(Clone, Copy, Debug, PartialEq, Eq, Structural)]
pub enum PageKind {
    Person,
    Organization,
    Group,
}

/// The type tag reported for a page variant.
pub open spec fn spec_type_tag(k: PageKind) -> Seq<char> {
    match k {
        PageKind::Person => "person"@,
        PageKind::Organization => "organization"@,
        PageKind::Group => "group"@,
    }
}

/// Computes the type tag of a page variant: an exhaustive match with no
/// default case, so a new variant cannot be misreported silently.
pub fn type_tag(kind: PageKind) -> (r: String)
    ensures
        r@ == spec_type_tag(kind),
{
    match kind {
        PageKind::Person => String::from_str("person"),
        PageKind::Organization => String::from_str("organization"),
        PageKind::Group => String::from_str("group"),
    }
}

/// Law: the type tag is exactly one of the three variant names, and names the
/// variant the page actually has: the three readings exclude one another.
pub proof fn lemma_type_tag_exclusive(k: PageKind)
    ensures
        spec_type_tag(k) == "person"@ || spec_type_tag(k) == "organization"@ || spec_type_tag(k)
            == "group"@,
        spec_type_tag(k) == "person"@ <==> k is Person,
        spec_type_tag(k) == "organization"@ <==> k is Organization,
        spec_type_tag(k) == "group"@ <==> k is Group,
{
    reveal_strlit("person");
    reveal_strlit("organization");
    reveal_strlit("group");
    assert("person"@.len() == 6);
    assert("organization"@.len() == 12);
    assert("group"@.len() == 5);
}

/// A relation preview never shows more than this many entries.
pub const PREVIEW_CAP: usize = 9;

/// The capped preview of a relation: the first entries, in store order, up to
/// the cap.
pub open spec fn spec_preview(ids: Seq<Seq<char>>) -> Seq<Seq<char>> {
    if ids.len() <= PREVIEW_CAP {
        ids
    } else {
        ids.take(PREVIEW_CAP as int)
    }
}

/// Returns the capped preview of a relation's id list.
pub fn relation_preview(ids: &Vec<String>) -> (r: Vec<String>)
    ensures
        r.deep_view() == spec_preview(ids.deep_view()),
{
    let n = if ids.len() < PREVIEW_CAP {
        ids.len()
    } else {
        PREVIEW_CAP
    };
    let mut out: Vec<String> = Vec::new();
    let mut i: usize = 0;
    while i < n
        invariant
            n <= ids@.len(),
            i <= n,
            n as int == if ids@.len() < PREVIEW_CAP {
                ids@.len() as int
            } else {
                PREVIEW_CAP as int
            },
            out.deep_view() == ids.deep_view().take(i as int),
        decreases n - i,
    {
        proof {
            assert(out.deep_view().len() == i as int);
        }
        let x = ids[i].clone();
        out.push(x);
        assert(out.deep_view() =~~= ids.deep_view().take(i as int + 1));
        i = i + 1;
    }
    assert(ids.deep_view().len() == ids@.len());
    if ids.len() <= PREVIEW_CAP {
        assert(ids.deep_view().take(n as int) =~= ids.deep_view());
    }
    out
}

/// Returns the exact total of a relation, computed from the whole relation
/// and never derived from the capped preview.
pub fn relation_count(ids: &Vec<String>) -> (r: usize)
    ensures
        r == ids@.len(),
{
    ids.len()
}

/// Law: the preview and the count are independent readings of the same
/// relation. A relation below the cap previews whole; one at or above the cap
/// previews exactly the cap while the count still reports the full size; an
/// empty relation previews empty with count zero.
pub proof fn lemma_preview_independent_of_count(ids: Seq<Seq<char>>)
    ensures
        spec_preview(ids).len() == if ids.len() <= PREVIEW_CAP {
            ids.len()
        } else {
            PREVIEW_CAP as nat
        },
        ids.len() == 0 ==> spec_preview(ids) == Seq::<Seq<char>>::empty(),
{
    if ids.len() == 0 {
        assert(spec_preview(ids) =~= Seq::<Seq<char>>::empty());
    }
}

/// One place of the location hierarchy. The parent, when present, stands
/// earlier in the place table, so parent chains always lead to a root.
pub struct Place {
    pub place_id: String,
    pub name: String,
    pub parent: Option<usize>,
}

/// One hop of a resolved location chain: a child place and its parent.
pub struct LocationLink {
    pub place_name: String,
    pub place_id: String,
    pub parent_name: String,
    pub parent_id: String,
}

pub ghost struct LocationLinkView {
    pub place_name: Seq<char>,
    pub place_id: Seq<char>,
    pub parent_name: Seq<char>,
    pub parent_id: Seq<char>,
}

impl View for LocationLink {
    type V = LocationLinkView;

    open spec fn view(&self) -> LocationLinkView {
        LocationLinkView {
            place_name: self.place_name@,
            place_id: self.place_id@,
            parent_name: self.parent_name@,
            parent_id: self.parent_id@,
        }
    }
}

/// The place table is a well-formed hierarchy: every parent stands strictly
/// earlier in the table than its child.
pub open spec fn wf_places(places: Seq<Place>) -> bool {
    forall|i: int|
        0 <= i < places.len() ==> (#[trigger] places[i].parent matches Some(p) ==> (p as int) < i)
}

/// The transitive location chain from the place at `cur` to the root: one
/// ordered (child, parent) link per hop, ending at the place with no parent.
pub open spec fn spec_location_chain(places: Seq<Place>, cur: int) -> Seq<LocationLinkView>
    decreases (if 0 <= cur < places.len() {
        cur + 1
    } else {
        0
    }),
{
    if 0 <= cur < places.len() {
        match places[cur].parent {
            Some(p) => if (p as int) < cur {
                seq![
                    LocationLinkView {
                        place_name: places[cur].name@,
                        place_id: places[cur].place_id@,
                        parent_name: places[p as int].name@,
                        parent_id: places[p as int].place_id@,
                    },
                ] + spec_location_chain(places, p as int)
            } else {
                Seq::empty()
            },
            None => Seq::empty(),
        }
    } else {
        Seq::empty()
    }
}

pub open spec fn links_view(s: Seq<LocationLink>) -> Seq<LocationLinkView> {
    s.map_values(|l: LocationLink| l@)
}

fn walk_chain(places: &Vec<Place>, cur: usize, out: &mut Vec<LocationLink>)
    requires
        wf_places(places@),
        cur < places@.len(),
    ensures
        links_view(final(out)@) == links_view(old(out)@) + spec_location_chain(
            places@,
            cur as int,
        ),
    decreases cur,
{
    let parent = places[cur].parent;
    match parent {
        Some(p) => {
            assert((p as int) < cur as int);
            let link = LocationLink {
                place_name: places[cur].name.clone(),
                place_id: places[cur].place_id.clone(),
                parent_name: places[p].name.clone(),
                parent_id: places[p].place_id.clone(),
            };
            let ghost before = out@;
            out.push(link);
            assert(links_view(out@) =~= links_view(before).push(link@));
            walk_chain(places, p, out);
            assert(links_view(out@) =~= links_view(before) + spec_location_chain(
                places@,
                cur as int,
            ));
        },
        None => {
            assert(links_view(out@) =~= links_view(out@) + spec_location_chain(
                places@,
                cur as int,
            ));
        },
    }
}

/// Resolves the transitive location chain of a page: from its immediate
/// place, when it has one, up to the root of the hierarchy. A page with no
/// location yields the empty chain, never an error.
pub fn location_chain(places: &Vec<Place>, start: Option<usize>) -> (r: Vec<LocationLink>)
    requires
        wf_places(places@),
        start matches Some(s) ==> s < places@.len(),
    ensures
        links_view(r@) == match start {
            Some(s) => spec_location_chain(places@, s as int),
            None => Seq::<LocationLinkView>::empty(),
        },
{
    let mut out: Vec<LocationLink> = Vec::new();
    assert(links_view(out@) =~= Seq::<LocationLinkView>::empty());
    match start {
        Some(s0) => {
            walk_chain(places, s0, &mut out);
            assert(links_view(out@) =~= spec_location_chain(places@, s0 as int));
        },
        None => {},
    }
    out
}

/// One page of the snapshot. Profile attributes belong to Person pages and
/// are absent on the other variants; tags belong to Group and Organization
/// pages.
pub struct PageRecord {
    pub id: String,
    pub name: String,
    pub bio: String,
    pub profile_picture: Option<String>,
    pub badge: Option<String>,
    pub is_active: bool,
    pub kind: PageKind,
    pub username: Option<String>,
    pub can_publish: Option<bool>,
    pub gender: Option<String>,
    pub language: Option<String>,
    pub email: Option<String>,
    pub phone: Option<String>,
    pub relationship_status: Option<String>,
    pub page_visibility: Option<String>,
    pub post_visibility: Option<String>,
    pub tags: Vec<String>,
    pub place: Option<usize>,
}

/// One post, authored by exactly one page.
pub struct PostRecord {
    pub post_id: String,
    pub author: usize,
    pub text: String,
    pub visibility: String,
    pub image: Option<String>,
    pub language: Option<String>,
    pub tags: Vec<String>,
    pub is_visible: bool,
    pub creation_timestamp: u64,
}

/// One comment: it belongs to exactly one post and has exactly one author
/// page.
pub struct CommentRecord {
    pub post: usize,
    pub author: usize,
    pub text: String,
    pub is_visible: bool,
    pub creation_timestamp: u64,
}

/// An immutable snapshot of the store's answer-relevant contents, read within
/// one transaction. Relations refer to records by table index.
pub struct Snapshot {
    pub pages: Vec<PageRecord>,
    pub places: Vec<Place>,
    pub friendships: Vec<(usize, usize)>,
    pub followings: Vec<(usize, usize)>,
    pub posts: Vec<PostRecord>,
    pub comments: Vec<CommentRecord>,
    pub post_reactions: Vec<(usize, String)>,
    pub comment_reactions: Vec<(usize, String)>,
}

pub open spec fn pairs_in_bounds(pairs: Seq<(usize, usize)>, n: int) -> bool {
    forall|k: int|
        0 <= k < pairs.len() ==> ((#[trigger] pairs[k]).0 < n && pairs[k].1 < n)
}

pub open spec fn page_ids_unique(pages: Seq<PageRecord>) -> bool {
    forall|i: int, j: int|
        0 <= i < j < pages.len() ==> (#[trigger] pages[i]).id@ != (#[trigger] pages[j]).id@
}

pub open spec fn post_ids_unique(posts: Seq<PostRecord>) -> bool {
    forall|i: int, j: int|
        0 <= i < j < posts.len() ==> (#[trigger] posts[i]).post_id@ != (
        #[trigger] posts[j]).post_id@
}

/// The snapshot is internally consistent: every relation endpoint refers to
/// an existing record, the place hierarchy is well formed, and ids are
/// stable, so one id names at most one record.
pub open spec fn wf_snapshot(s: Snapshot) -> bool {
    &&& wf_places(s.places@)
    &&& page_ids_unique(s.pages@)
    &&& post_ids_unique(s.posts@)
    &&& pairs_in_bounds(s.friendships@, s.pages@.len() as int)
    &&& pairs_in_bounds(s.followings@, s.pages@.len() as int)
    &&& (forall|i: int|
        0 <= i < s.pages@.len() ==> ((#[trigger] s.pages@[i]).place matches Some(pl) ==> pl
            < s.places@.len()))
    &&& (forall|k: int| 0 <= k < s.posts@.len() ==> (#[trigger] s.posts@[k]).author < s.pages@.len())
    &&& (forall|k: int|
        0 <= k < s.comments@.len() ==> ((#[trigger] s.comments@[k]).author < s.pages@.len()
            && s.comments@[k].post < s.posts@.len()))
    &&& (forall|k: int|
        0 <= k < s.post_reactions@.len() ==> (#[trigger] s.post_reactions@[k]).0
            < s.posts@.len())
    &&& (forall|k: int|
        0 <= k < s.comment_reactions@.len() ==> (#[trigger] s.comment_reactions@[k]).0
            < s.comments@.len())
}

/// What one friendship pair contributes to page `i`'s friend list: the other
/// end's id, when the pair touches `i` at all.
pub open spec fn friend_contrib(pages: Seq<PageRecord>, pr: (usize, usize), i: int) -> Seq<
    Seq<char>,
> {
    if pr.0 == i {
        seq![pages[pr.1 as int].id@]
    } else if pr.1 == i {
        seq![pages[pr.0 as int].id@]
    } else {
        Seq::empty()
    }
}

/// The friend ids of page `i`, in store order: friendship is symmetric, so a
/// pair contributes whichever end is not `i`.
pub open spec fn spec_friend_ids(
    pages: Seq<PageRecord>,
    pairs: Seq<(usize, usize)>,
    i: int,
) -> Seq<Seq<char>>
    decreases pairs.len(),
{
    if pairs.len() == 0 {
        Seq::empty()
    } else {
        spec_friend_ids(pages, pairs.drop_last(), i) + friend_contrib(pages, pairs.last(), i)
    }
}

/// What one following pair `(follower, page)` contributes to page `i`'s
/// follower list.
pub open spec fn follower_contrib(pages: Seq<PageRecord>, pr: (usize, usize), i: int) -> Seq<
    Seq<char>,
> {
    if pr.1 == i {
        seq![pages[pr.0 as int].id@]
    } else {
        Seq::empty()
    }
}

/// The follower ids of page `i`, in store order: following is directed, so
/// only pairs whose page end is `i` contribute their follower end.
pub open spec fn spec_follower_ids(
    pages: Seq<PageRecord>,
    pairs: Seq<(usize, usize)>,
    i: int,
) -> Seq<Seq<char>>
    decreases pairs.len(),
{
    if pairs.len() == 0 {
        Seq::empty()
    } else {
        spec_follower_ids(pages, pairs.drop_last(), i) + follower_contrib(pages, pairs.last(), i)
    }
}

/// Collects the friend ids of page `i`, in store order.
pub fn friend_ids(pages: &Vec<PageRecord>, friendships: &Vec<(usize, usize)>, i: usize) -> (r: Vec<
    String,
>)
    requires
        pairs_in_bounds(friendships@, pages@.len() as int),
    ensures
        r.deep_view() == spec_friend_ids(pages@, friendships@, i as int),
{
    let n = friendships.len();
    let mut out: Vec<String> = Vec::new();
    let mut k: usize = 0;
    while k < n
        invariant
            n == friendships@.len(),
            k <= n,
            pairs_in_bounds(friendships@, pages@.len() as int),
            out.deep_view() == spec_friend_ids(pages@, friendships@.take(k as int), i as int),
        decreases n - k,
    {
        let pr = friendships[k];
        let ghost pre = out.deep_view();
        if pr.0 == i {
            let x = pages[pr.1].id.clone();
            out.push(x);
            assert(out.deep_view() =~= pre.push(pages@[pr.1 as int].id@));
        } else if pr.1 == i {
            let x = pages[pr.0].id.clone();
            out.push(x);
            assert(out.deep_view() =~= pre.push(pages@[pr.0 as int].id@));
        }
        proof {
            assert(friendships@.take(k as int + 1).drop_last() =~= friendships@.take(k as int));
            assert(friendships@.take(k as int + 1).last() == friendships@[k as int]);
            assert(out.deep_view() =~= spec_friend_ids(
                pages@,
                friendships@.take(k as int + 1),
                i as int,
            ));
        }
        k = k + 1;
    }
    proof {
        assert(friendships@.take(n as int) =~= friendships@);
    }
    out
}

/// Collects the follower ids of page `i`, in store order.
pub fn follower_ids(pages: &Vec<PageRecord>, followings: &Vec<(usize, usize)>, i: usize) -> (r: Vec<
    String,
>)
    requires
        pairs_in_bounds(followings@, pages@.len() as int),
    ensures
        r.deep_view() == spec_follower_ids(pages@, followings@, i as int),
{
    let n = followings.len();
    let mut out: Vec<String> = Vec::new();
    let mut k: usize = 0;
    while k < n
        invariant
            n == followings@.len(),
            k <= n,
            pairs_in_bounds(followings@, pages@.len() as int),
            out.deep_view() == spec_follower_ids(pages@, followings@.take(k as int), i as int),
        decreases n - k,
    {
        let pr = followings[k];
        let ghost pre = out.deep_view();
        if pr.1 == i {
            let x = pages[pr.0].id.clone();
            out.push(x);
            assert(out.deep_view() =~= pre.push(pages@[pr.0 as int].id@));
        }
        proof {
            assert(followings@.take(k as int + 1).drop_last() =~= followings@.take(k as int));
            assert(followings@.take(k as int + 1).last() == followings@[k as int]);
            assert(out.deep_view() =~= spec_follower_ids(
                pages@,
                followings@.take(k as int + 1),
                i as int,
            ));
        }
        k = k + 1;
    }
    proof {
        assert(followings@.take(n as int) =~= followings@);
    }
    out
}

/// Finds the page a lookup id names, scanning in store order.
pub fn find_page_index(pages: &Vec<PageRecord>, id: &String) -> (r: Option<usize>)
    ensures
        r matches Some(i) ==> i < pages@.len() && pages@[i as int].id@ == id@,
        r is None ==> forall|j: int| 0 <= j < pages@.len() ==> (#[trigger] pages@[j]).id@ != id@,
{
    let n = pages.len();
    let mut k: usize = 0;
    while k < n
        invariant
            n == pages@.len(),
            k <= n,
            forall|j: int| 0 <= j < k ==> (#[trigger] pages@[j]).id@ != id@,
        decreases n - k,
    {
        if pages[k].id == *id {
            return Some(k);
        }
        k = k + 1;
    }
    None
}

/// Finds the post a lookup id names, scanning in store order.
pub fn find_post_index(posts: &Vec<PostRecord>, id: &String) -> (r: Option<usize>)
    ensures
        r matches Some(i) ==> i < posts@.len() && posts@[i as int].post_id@ == id@,
        r is None ==> forall|j: int|
            0 <= j < posts@.len() ==> (#[trigger] posts@[j]).post_id@ != id@,
{
    let n = posts.len();
    let mut k: usize = 0;
    while k < n
        invariant
            n == posts@.len(),
            k <= n,
            forall|j: int| 0 <= j < k ==> (#[trigger] posts@[j]).post_id@ != id@,
        decreases n - k,
    {
        if posts[k].post_id == *id {
            return Some(k);
        }
        k = k + 1;
    }
    None
}

fn clone_opt_string(o: &Option<String>) -> (r: Option<String>)
    ensures
        r.deep_view() == o.deep_view(),
{
    match o {
        Some(s) => Some(s.clone()),
        None => None,
    }
}

fn clone_strings(v: &Vec<String>) -> (r: Vec<String>)
    ensures
        r.deep_view() == v.deep_view(),
{
    let n = v.len();
    let mut out: Vec<String> = Vec::new();
    let mut i: usize = 0;
    while i < n
        invariant
            n == v@.len(),
            i <= n,
            out.deep_view() == v.deep_view().take(i as int),
        decreases n - i,
    {
        let ghost pre = out.deep_view();
        let x = v[i].clone();
        out.push(x);
        proof {
            assert(out.deep_view() =~= pre.push(v@[i as int]@));
            assert(out.deep_view() =~= v.deep_view().take(i as int + 1));
        }
        i = i + 1;
    }
    proof {
        assert(v.deep_view().take(n as int) =~= v.deep_view());
    }
    out
}

/// The full profile document of one page: a fixed schema in which every
/// declared projection field is always present, possibly `None` or empty.
pub struct ProfileDoc {
    pub name: String,
    pub bio: String,
    pub profile_picture: Option<String>,
    pub badge: Option<String>,
    pub is_active: bool,
    pub page_type: String,
    pub username: Option<String>,
    pub can_publish: Option<bool>,
    pub gender: Option<String>,
    pub language: Option<String>,
    pub email: Option<String>,
    pub phone: Option<String>,
    pub relationship_status: Option<String>,
    pub page_visibility: Option<String>,
    pub post_visibility: Option<String>,
    pub tags: Vec<String>,
    pub friends: Vec<String>,
    pub number_of_friends: usize,
    pub followers: Vec<String>,
    pub number_of_followers: usize,
    pub location: Vec<LocationLink>,
}

/// The profile document `d` is exactly the projection of page `i` in the
/// snapshot: its own attributes, the variant's type tag, capped friend and
/// follower previews beside exact counts, and the transitive location chain.
pub open spec fn profile_doc_matches(d: ProfileDoc, s: Snapshot, i: int) -> bool {
    let pg = s.pages@[i];
    &&& d.name@ == pg.name@
    &&& d.bio@ == pg.bio@
    &&& d.profile_picture.deep_view() == pg.profile_picture.deep_view()
    &&& d.badge.deep_view() == pg.badge.deep_view()
    &&& d.is_active == pg.is_active
    &&& d.page_type@ == spec_type_tag(pg.kind)
    &&& d.username.deep_view() == pg.username.deep_view()
    &&& d.can_publish == pg.can_publish
    &&& d.gender.deep_view() == pg.gender.deep_view()
    &&& d.language.deep_view() == pg.language.deep_view()
    &&& d.email.deep_view() == pg.email.deep_view()
    &&& d.phone.deep_view() == pg.phone.deep_view()
    &&& d.relationship_status.deep_view() == pg.relationship_status.deep_view()
    &&& d.page_visibility.deep_view() == pg.page_visibility.deep_view()
    &&& d.post_visibility.deep_view() == pg.post_visibility.deep_view()
    &&& d.tags.deep_view() == pg.tags.deep_view()
    &&& d.friends.deep_view() == spec_preview(spec_friend_ids(s.pages@, s.friendships@, i))
    &&& d.number_of_friends == spec_friend_ids(s.pages@, s.friendships@, i).len()
    &&& d.followers.deep_view() == spec_preview(spec_follower_ids(s.pages@, s.followings@, i))
    &&& d.number_of_followers == spec_follower_ids(s.pages@, s.followings@, i).len()
    &&& links_view(d.location@) == (match pg.place {
        Some(pl) => spec_location_chain(s.places@, pl as int),
        None => Seq::<LocationLinkView>::empty(),
    })
}

/// Shapes the profile of the page a lookup id names. An id that names no
/// page yields `None`, never an error; ids are unique in a well-formed
/// snapshot, so the document is pinned to the one page the id names.
pub fn get_profile(s: &Snapshot, id: &String) -> (r: Option<ProfileDoc>)
    requires
        wf_snapshot(*s),
    ensures
        r is Some <==> exists|i: int|
            0 <= i < s.pages@.len() && (#[trigger] s.pages@[i]).id@ == id@,
        r matches Some(d) ==> forall|i: int|
            0 <= i < s.pages@.len() && (#[trigger] s.pages@[i]).id@ == id@
                ==> profile_doc_matches(d, *s, i),
{
    let pi = match find_page_index(&s.pages, id) {
        Some(pi) => pi,
        None => {
            return None;
        },
    };
    let pg = &s.pages[pi];
    let fr = friend_ids(&s.pages, &s.friendships, pi);
    let fo = follower_ids(&s.pages, &s.followings, pi);
    let number_of_friends = relation_count(&fr);
    let number_of_followers = relation_count(&fo);
    let d = ProfileDoc {
        name: pg.name.clone(),
        bio: pg.bio.clone(),
        profile_picture: clone_opt_string(&pg.profile_picture),
        badge: clone_opt_string(&pg.badge),
        is_active: pg.is_active,
        page_type: type_tag(pg.kind),
        username: clone_opt_string(&pg.username),
        can_publish: pg.can_publish,
        gender: clone_opt_string(&pg.gender),
        language: clone_opt_string(&pg.language),
        email: clone_opt_string(&pg.email),
        phone: clone_opt_string(&pg.phone),
        relationship_status: clone_opt_string(&pg.relationship_status),
        page_visibility: clone_opt_string(&pg.page_visibility),
        post_visibility: clone_opt_string(&pg.post_visibility),
        tags: clone_strings(&pg.tags),
        friends: relation_preview(&fr),
        number_of_friends,
        followers: relation_preview(&fo),
        number_of_followers,
        location: location_chain(&s.places, pg.place),
    };
    proof {
        assert(fr.deep_view().len() == fr@.len());
        assert(fo.deep_view().len() == fo@.len());
        assert(profile_doc_matches(d, *s, pi as int));
        assert forall|i: int|
            0 <= i < s.pages@.len() && (#[trigger] s.pages@[i]).id@ == id@ implies i
            == pi as int by {
            if i < pi as int {
                assert(s.pages@[i].id@ != s.pages@[pi as int].id@);
            } else if i > pi as int {
                assert(s.pages@[pi as int].id@ != s.pages@[i].id@);
            }
        }
    }
    Some(d)
}

/// The indices of the posts authored by page `i`, in store order.
pub open spec fn spec_posts_of(posts: Seq<PostRecord>, i: int) -> Seq<int>
    decreases posts.len(),
{
    if posts.len() == 0 {
        Seq::empty()
    } else {
        spec_posts_of(posts.drop_last(), i) + (if posts.last().author == i {
            seq![posts.len() - 1]
        } else {
            Seq::empty()
        })
    }
}

/// The indices of the comments on post `k`, in store order.
pub open spec fn spec_comments_of(comments: Seq<CommentRecord>, k: int) -> Seq<int>
    decreases comments.len(),
{
    if comments.len() == 0 {
        Seq::empty()
    } else {
        spec_comments_of(comments.drop_last(), k) + (if comments.last().post == k {
            seq![comments.len() - 1]
        } else {
            Seq::empty()
        })
    }
}

/// The emoji of every reaction edge on target `k`, in store order, with no
/// deduplication.
pub open spec fn spec_reactions_of(reactions: Seq<(usize, String)>, k: int) -> Seq<Seq<char>>
    decreases reactions.len(),
{
    if reactions.len() == 0 {
        Seq::empty()
    } else {
        spec_reactions_of(reactions.drop_last(), k) + (if reactions.last().0 == k {
            seq![reactions.last().1@]
        } else {
            Seq::empty()
        })
    }
}

/// Collects the emoji of the reactions on target `k`: a flat list, one entry
/// per reaction edge, in store order.
pub fn reactions_of(reactions: &Vec<(usize, String)>, k: usize) -> (r: Vec<String>)
    ensures
        r.deep_view() == spec_reactions_of(reactions@, k as int),
{
    let n = reactions.len();
    let mut out: Vec<String> = Vec::new();
    let mut j: usize = 0;
    while j < n
        invariant
            n == reactions@.len(),
            j <= n,
            out.deep_view() == spec_reactions_of(reactions@.take(j as int), k as int),
        decreases n - j,
    {
        let ghost pre = out.deep_view();
        if reactions[j].0 == k {
            let x = reactions[j].1.clone();
            out.push(x);
            assert(out.deep_view() =~= pre.push(reactions@[j as int].1@));
        }
        proof {
            assert(reactions@.take(j as int + 1).drop_last() =~= reactions@.take(j as int));
            assert(reactions@.take(j as int + 1).last() == reactions@[j as int]);
            assert(out.deep_view() =~= spec_reactions_of(
                reactions@.take(j as int + 1),
                k as int,
            ));
        }
        j = j + 1;
    }
    proof {
        assert(reactions@.take(n as int) =~= reactions@);
    }
    out
}

/// One post document: the post's own fields plus the inlined author summary,
/// so a client never needs a second lookup for authorship.
pub struct PostDoc {
    pub post_text: String,
    pub post_visibility: String,
    pub post_image: Option<String>,
    pub language: Option<String>,
    pub tags: Vec<String>,
    pub is_visible: bool,
    pub creation_timestamp: u64,
    pub post_id: String,
    pub author_name: String,
    pub author_profile_picture: Option<String>,
    pub author_id: String,
    pub author_type: String,
    pub reactions: Vec<String>,
}

/// One comment document, with the same inlined author summary.
pub struct CommentDoc {
    pub comment_text: String,
    pub creation_timestamp: u64,
    pub is_visible: bool,
    pub author_name: String,
    pub author_profile_picture: Option<String>,
    pub author_id: String,
    pub author_type: String,
    pub reactions: Vec<String>,
}

/// The document `d` is exactly the projection of post `k` enriched with the
/// author page `pi`.
pub open spec fn post_doc_matches(d: PostDoc, s: Snapshot, k: int, pi: int) -> bool {
    let p = s.posts@[k];
    let a = s.pages@[pi];
    &&& d.post_text@ == p.text@
    &&& d.post_visibility@ == p.visibility@
    &&& d.post_image.deep_view() == p.image.deep_view()
    &&& d.language.deep_view() == p.language.deep_view()
    &&& d.tags.deep_view() == p.tags.deep_view()
    &&& d.is_visible == p.is_visible
    &&& d.creation_timestamp == p.creation_timestamp
    &&& d.post_id@ == p.post_id@
    &&& d.author_name@ == a.name@
    &&& d.author_profile_picture.deep_view() == a.profile_picture.deep_view()
    &&& d.author_id@ == a.id@
    &&& d.author_type@ == spec_type_tag(a.kind)
    &&& d.reactions.deep_view() == spec_reactions_of(s.post_reactions@, k)
}

/// The document `d` is exactly the projection of comment `k` enriched with
/// the author page `pi`.
pub open spec fn comment_doc_matches(d: CommentDoc, s: Snapshot, k: int, pi: int) -> bool {
    let c = s.comments@[k];
    let a = s.pages@[pi];
    &&& d.comment_text@ == c.text@
    &&& d.creation_timestamp == c.creation_timestamp
    &&& d.is_visible == c.is_visible
    &&& d.author_name@ == a.name@
    &&& d.author_profile_picture.deep_view() == a.profile_picture.deep_view()
    &&& d.author_id@ == a.id@
    &&& d.author_type@ == spec_type_tag(a.kind)
    &&& d.reactions.deep_view() == spec_reactions_of(s.comment_reactions@, k)
}

/// The whole answer of the posts query for page `i`: one enriched document
/// per authored post, in store order.
pub open spec fn posts_shaped(rs: Seq<PostDoc>, s: Snapshot, i: int) -> bool {
    let idxs = spec_posts_of(s.posts@, i);
    &&& rs.len() == idxs.len()
    &&& forall|j: int| 0 <= j < rs.len() ==> post_doc_matches(#[trigger] rs[j], s, idxs[j], i)
}

/// The whole answer of the comments query for post `k`: one enriched document
/// per comment, in store order, each carrying its own author's summary.
pub open spec fn comments_shaped(rs: Seq<CommentDoc>, s: Snapshot, k: int) -> bool {
    let idxs = spec_comments_of(s.comments@, k);
    &&& rs.len() == idxs.len()
    &&& forall|j: int|
        0 <= j < rs.len() ==> comment_doc_matches(
            #[trigger] rs[j],
            s,
            idxs[j],
            s.comments@[idxs[j]].author as int,
        )
}

fn make_post_doc(s: &Snapshot, k: usize, pi: usize) -> (d: PostDoc)
    requires
        k < s.posts@.len(),
        pi < s.pages@.len(),
    ensures
        post_doc_matches(d, *s, k as int, pi as int),
{
    let p = &s.posts[k];
    let a = &s.pages[pi];
    PostDoc {
        post_text: p.text.clone(),
        post_visibility: p.visibility.clone(),
        post_image: clone_opt_string(&p.image),
        language: clone_opt_string(&p.language),
        tags: clone_strings(&p.tags),
        is_visible: p.is_visible,
        creation_timestamp: p.creation_timestamp,
        post_id: p.post_id.clone(),
        author_name: a.name.clone(),
        author_profile_picture: clone_opt_string(&a.profile_picture),
        author_id: a.id.clone(),
        author_type: type_tag(a.kind),
        reactions: reactions_of(&s.post_reactions, k),
    }
}

fn make_comment_doc(s: &Snapshot, k: usize, pi: usize) -> (d: CommentDoc)
    requires
        k < s.comments@.len(),
        pi < s.pages@.len(),
    ensures
        comment_doc_matches(d, *s, k as int, pi as int),
{
    let c = &s.comments[k];
    let a = &s.pages[pi];
    CommentDoc {
        comment_text: c.text.clone(),
        creation_timestamp: c.creation_timestamp,
        is_visible: c.is_visible,
        author_name: a.name.clone(),
        author_profile_picture: clone_opt_string(&a.profile_picture),
        author_id: a.id.clone(),
        author_type: type_tag(a.kind),
        reactions: reactions_of(&s.comment_reactions, k),
    }
}

/// Shapes the posts of the page a lookup id names: every post it authored,
/// each enriched with the author summary and the reaction list. An id that
/// names no page, or a page with no posts, yields the empty list, never an
/// error.
pub fn posts_for_page(s: &Snapshot, page_id: &String) -> (r: Vec<PostDoc>)
    requires
        wf_snapshot(*s),
    ensures
        (forall|i: int| 0 <= i < s.pages@.len() ==> (#[trigger] s.pages@[i]).id@ != page_id@)
            ==> r@.len() == 0,
        forall|i: int|
            0 <= i < s.pages@.len() && (#[trigger] s.pages@[i]).id@ == page_id@ ==> posts_shaped(
                r@,
                *s,
                i,
            ),
{
    let pi = match find_page_index(&s.pages, page_id) {
        Some(pi) => pi,
        None => {
            let r: Vec<PostDoc> = Vec::new();
            return r;
        },
    };
    let n = s.posts.len();
    let mut out: Vec<PostDoc> = Vec::new();
    let mut k: usize = 0;
    while k < n
        invariant
            wf_snapshot(*s),
            n == s.posts@.len(),
            k <= n,
            pi < s.pages@.len(),
            out@.len() == spec_posts_of(s.posts@.take(k as int), pi as int).len(),
            forall|j: int|
                0 <= j < out@.len() ==> post_doc_matches(
                    #[trigger] out@[j],
                    *s,
                    spec_posts_of(s.posts@.take(k as int), pi as int)[j],
                    pi as int,
                ),
        decreases n - k,
    {
        let ghost pre_idxs = spec_posts_of(s.posts@.take(k as int), pi as int);
        if s.posts[k].author == pi {
            let d = make_post_doc(s, k, pi);
            out.push(d);
        }
        proof {
            assert(s.posts@.take(k as int + 1).drop_last() =~= s.posts@.take(k as int));
            assert(s.posts@.take(k as int + 1).last() == s.posts@[k as int]);
            if s.posts@[k as int].author == pi {
                assert(spec_posts_of(s.posts@.take(k as int + 1), pi as int) =~= pre_idxs.push(
                    k as int,
                ));
            } else {
                assert(spec_posts_of(s.posts@.take(k as int + 1), pi as int) =~= pre_idxs);
            }
        }
        k = k + 1;
    }
    proof {
        assert(s.posts@.take(n as int) =~= s.posts@);
        assert(posts_shaped(out@, *s, pi as int));
        assert forall|i: int|
            0 <= i < s.pages@.len() && (#[trigger] s.pages@[i]).id@ == page_id@ implies i
            == pi as int by {
            if i < pi as int {
                assert(s.pages@[i].id@ != s.pages@[pi as int].id@);
            } else if i > pi as int {
                assert(s.pages@[pi as int].id@ != s.pages@[i].id@);
            }
        }
    }
    out
}

/// Shapes the comments on the post a lookup id names, each enriched with the
/// author summary and the reaction list. An id that names no post, or a post
/// with no comments, yields the empty list, never an error.
pub fn comments_for_post(s: &Snapshot, post_id: &String) -> (r: Vec<CommentDoc>)
    requires
        wf_snapshot(*s),
    ensures
        (forall|i: int| 0 <= i < s.posts@.len() ==> (#[trigger] s.posts@[i]).post_id@ != post_id@)
            ==> r@.len() == 0,
        forall|i: int|
            0 <= i < s.posts@.len() && (#[trigger] s.posts@[i]).post_id@ == post_id@
                ==> comments_shaped(r@, *s, i),
{
    let ki = match find_post_index(&s.posts, post_id) {
        Some(ki) => ki,
        None => {
            let r: Vec<CommentDoc> = Vec::new();
            return r;
        },
    };
    let n = s.comments.len();
    let mut out: Vec<CommentDoc> = Vec::new();
    let mut k: usize = 0;
    while k < n
        invariant
            wf_snapshot(*s),
            n == s.comments@.len(),
            k <= n,
            ki < s.posts@.len(),
            out@.len() == spec_comments_of(s.comments@.take(k as int), ki as int).len(),
            forall|j: int|
                0 <= j < out@.len() ==> comment_doc_matches(
                    #[trigger] out@[j],
                    *s,
                    spec_comments_of(s.comments@.take(k as int), ki as int)[j],
                    s.comments@[spec_comments_of(s.comments@.take(k as int), ki as int)[j]].author as int,
                ),
        decreases n - k,
    {
        let ghost pre_idxs = spec_comments_of(s.comments@.take(k as int), ki as int);
        if s.comments[k].post == ki {
            let d = make_comment_doc(s, k, s.comments[k].author);
            out.push(d);
        }
        proof {
            assert(s.comments@.take(k as int + 1).drop_last() =~= s.comments@.take(k as int));
            assert(s.comments@.take(k as int + 1).last() == s.comments@[k as int]);
            if s.comments@[k as int].post == ki {
                assert(spec_comments_of(s.comments@.take(k as int + 1), ki as int)
                    =~= pre_idxs.push(k as int));
            } else {
                assert(spec_comments_of(s.comments@.take(k as int + 1), ki as int) =~= pre_idxs);
            }
        }
        k = k + 1;
    }
    proof {
        assert(s.comments@.take(n as int) =~= s.comments@);
        assert(comments_shaped(out@, *s, ki as int));
        assert forall|i: int|
            0 <= i < s.posts@.len() && (#[trigger] s.posts@[i]).post_id@ == post_id@ implies i
            == ki as int by {
            if i < ki as int {
                assert(s.posts@[i].post_id@ != s.posts@[ki as int].post_id@);
            } else if i > ki as int {
                assert(s.posts@[ki as int].post_id@ != s.posts@[i].post_id@);
            }
        }
    }
    out
}

} // verus!
