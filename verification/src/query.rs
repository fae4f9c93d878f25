//! Query Template Library: one builder per logical operation. Each builder is
//! a pure function from validated, typed parameters to the complete query
//! text, with every caller-supplied string rendered through the Value Encoder
//! so it cannot alter the structure of the query. A builder either returns
//! the whole query or fails with `EncodingError`; it never returns a
//! partially substituted query.
//!
//! Response keys follow the camel-case convention (`profilePicture`,
//! `placeName`) and the variant spelling `organization` throughout.

use vstd::prelude::*;

use crate::encode::{
    bool_lit, encodable, encodable_char, encode_str, escape_seq, str_lit, EncodingError,
};

verus! {

/// The typed payload for creating a Person page.
pub struct CreateUserPayload {
    pub username: String,
    pub name: String,
    pub profile_picture: Option<String>,
    pub badge: Option<String>,
    pub is_active: bool,
    pub gender: String,
    pub language: Option<String>,
    pub email: String,
    pub phone: Option<String>,
    pub relationship_status: Option<String>,
    pub can_publish: bool,
    pub page_visibility: String,
    pub post_visibility: String,
    pub bio: String,
}

pub ghost struct CreateUserPayloadView {
    pub username: Seq<char>,
    pub name: Seq<char>,
    pub profile_picture: Option<Seq<char>>,
    pub badge: Option<Seq<char>>,
    pub is_active: bool,
    pub gender: Seq<char>,
    pub language: Option<Seq<char>>,
    pub email: Seq<char>,
    pub phone: Option<Seq<char>>,
    pub relationship_status: Option<Seq<char>>,
    pub can_publish: bool,
    pub page_visibility: Seq<char>,
    pub post_visibility: Seq<char>,
    pub bio: Seq<char>,
}

impl View for CreateUserPayload {
    type V = CreateUserPayloadView;

    open spec fn view(&self) -> CreateUserPayloadView {
        CreateUserPayloadView {
            username: self.username@,
            name: self.name@,
            profile_picture: self.profile_picture.deep_view(),
            badge: self.badge.deep_view(),
            is_active: self.is_active,
            gender: self.gender@,
            language: self.language.deep_view(),
            email: self.email@,
            phone: self.phone.deep_view(),
            relationship_status: self.relationship_status.deep_view(),
            can_publish: self.can_publish,
            page_visibility: self.page_visibility@,
            post_visibility: self.post_visibility@,
            bio: self.bio@,
        }
    }
}

/// The typed payload for creating a Group page.
pub struct CreateGroupPayload {
    pub group_id: String,
    pub name: String,
    pub profile_picture: Option<String>,
    pub badge: Option<String>,
    pub is_active: bool,
    pub tags: Vec<String>,
    pub page_visibility: String,
    pub post_visibility: String,
    pub bio: String,
}

pub ghost struct CreateGroupPayloadView {
    pub group_id: Seq<char>,
    pub name: Seq<char>,
    pub profile_picture: Option<Seq<char>>,
    pub badge: Option<Seq<char>>,
    pub is_active: bool,
    pub tags: Seq<Seq<char>>,
    pub page_visibility: Seq<char>,
    pub post_visibility: Seq<char>,
    pub bio: Seq<char>,
}

impl View for CreateGroupPayload {
    type V = CreateGroupPayloadView;

    open spec fn view(&self) -> CreateGroupPayloadView {
        CreateGroupPayloadView {
            group_id: self.group_id@,
            name: self.name@,
            profile_picture: self.profile_picture.deep_view(),
            badge: self.badge.deep_view(),
            is_active: self.is_active,
            tags: self.tags.deep_view(),
            page_visibility: self.page_visibility@,
            post_visibility: self.post_visibility@,
            bio: self.bio@,
        }
    }
}

/// The typed payload for creating an Organization page.
pub struct CreateOrganizationPayload {
    pub username: String,
    pub name: String,
    pub profile_picture: Option<String>,
    pub badge: Option<String>,
    pub is_active: bool,
    pub can_publish: bool,
    pub tags: Vec<String>,
    pub bio: String,
}

pub ghost struct CreateOrganizationPayloadView {
    pub username: Seq<char>,
    pub name: Seq<char>,
    pub profile_picture: Option<Seq<char>>,
    pub badge: Option<Seq<char>>,
    pub is_active: bool,
    pub can_publish: bool,
    pub tags: Seq<Seq<char>>,
    pub bio: Seq<char>,
}

impl View for CreateOrganizationPayload {
    type V = CreateOrganizationPayloadView;

    open spec fn view(&self) -> CreateOrganizationPayloadView {
        CreateOrganizationPayloadView {
            username: self.username@,
            name: self.name@,
            profile_picture: self.profile_picture.deep_view(),
            badge: self.badge.deep_view(),
            is_active: self.is_active,
            can_publish: self.can_publish,
            tags: self.tags.deep_view(),
            bio: self.bio@,
        }
    }
}

/// One attribute fragment of an insert statement: the attribute name followed
/// by an already rendered literal.
pub open spec fn spec_frag(attr: Seq<char>, rendered: Seq<char>) -> Seq<char> {
    ", has "@ + attr + " "@ + rendered
}

/// The text an optional string field contributes: its fragment when present,
/// nothing at all when absent.
pub open spec fn opt_frag(attr: Seq<char>, o: Option<Seq<char>>) -> Seq<char> {
    match o {
        Some(v) => spec_frag(attr, str_lit(v)),
        None => Seq::empty(),
    }
}

/// The text a list of tags contributes: one `tag` fragment per element, in
/// order.
pub open spec fn tags_text(tags: Seq<Seq<char>>) -> Seq<char>
    decreases tags.len(),
{
    if tags.len() == 0 {
        Seq::empty()
    } else {
        spec_frag("tag"@, str_lit(tags[0])) + tags_text(tags.drop_first())
    }
}

pub open spec fn opt_encodable(o: Option<Seq<char>>) -> bool {
    o matches Some(v) ==> encodable(v)
}

pub open spec fn tags_encodable(tags: Seq<Seq<char>>) -> bool {
    forall|i: int| 0 <= i < tags.len() ==> encodable(tags[i])
}

proof fn lemma_tags_text_snoc(tags: Seq<Seq<char>>, t: Seq<char>)
    ensures
        tags_text(tags.push(t)) == tags_text(tags) + spec_frag("tag"@, str_lit(t)),
    decreases tags.len(),
{
    if tags.len() == 0 {
        assert(tags.push(t)[0] == t);
        assert(tags.push(t).drop_first() =~= Seq::<Seq<char>>::empty());
        assert(tags_text(tags.push(t)) == spec_frag("tag"@, str_lit(t)) + tags_text(
            Seq::<Seq<char>>::empty(),
        ));
        assert(spec_frag("tag"@, str_lit(t)) + Seq::<char>::empty() =~= Seq::<char>::empty()
            + spec_frag("tag"@, str_lit(t)));
        assert(tags_text(tags.push(t)) =~= tags_text(tags) + spec_frag("tag"@, str_lit(t)));
    } else {
        assert(tags.push(t).drop_first() =~= tags.drop_first().push(t));
        lemma_tags_text_snoc(tags.drop_first(), t);
        assert(tags_text(tags.push(t)) =~= tags_text(tags) + spec_frag("tag"@, str_lit(t)));
    }
}

/// Appends one string-valued attribute fragment, escaping the value.
fn append_str_frag(q: &mut String, attr: &str, v: &str) -> (r: Result<(), EncodingError>)
    ensures
        r is Ok ==> final(q)@ == old(q)@ + spec_frag(attr@, str_lit(v@)),
        r is Ok <==> encodable(v@),
{
    let lit = match encode_str(v) {
        Ok(l) => l,
        Err(e) => {
            return Err(e);
        },
    };
    q.append(", has ");
    q.append(attr);
    q.append(" ");
    q.append(lit.as_str());
    assert(q@ =~= old(q)@ + spec_frag(attr@, str_lit(v@)));
    Ok(())
}

/// Appends the fragment of an optional string-valued attribute, or nothing
/// when the value is absent.
fn append_opt_frag(q: &mut String, attr: &str, v: &Option<String>) -> (r: Result<
    (),
    EncodingError,
>)
    ensures
        r is Ok ==> final(q)@ == old(q)@ + opt_frag(attr@, v.deep_view()),
        r is Ok <==> opt_encodable(v.deep_view()),
{
    match v {
        Some(s) => append_str_frag(q, attr, s.as_str()),
        None => {
            assert(q@ + opt_frag(attr@, v.deep_view()) =~= q@);
            Ok(())
        },
    }
}

/// Appends one boolean-valued attribute fragment.
fn append_bool_frag(q: &mut String, attr: &str, v: bool)
    ensures
        final(q)@ == old(q)@ + spec_frag(attr@, bool_lit(v)),
{
    q.append(", has ");
    q.append(attr);
    q.append(" ");
    if v {
        q.append("true");
    } else {
        q.append("false");
    }
    assert(q@ =~= old(q)@ + spec_frag(attr@, bool_lit(v)));
}

/// Appends one `tag` fragment per list element, escaping each value.
fn append_tag_frags(q: &mut String, tags: &Vec<String>) -> (r: Result<(), EncodingError>)
    ensures
        r is Ok ==> final(q)@ == old(q)@ + tags_text(tags.deep_view()),
        r is Ok <==> tags_encodable(tags.deep_view()),
{
    let n = tags.len();
    let mut i: usize = 0;
    while i < n
        invariant
            n == tags@.len(),
            i <= n,
            q@ == old(q)@ + tags_text(tags.deep_view().take(i as int)),
            forall|j: int| 0 <= j < i ==> encodable(tags.deep_view()[j]),
        decreases n - i,
    {
        let r = append_str_frag(q, "tag", tags[i].as_str());
        proof {
            assert(tags.deep_view()[i as int] == tags@[i as int]@);
        }
        match r {
            Ok(()) => {},
            Err(e) => {
                return Err(e);
            },
        }
        proof {
            lemma_tags_text_snoc(tags.deep_view().take(i as int), tags.deep_view()[i as int]);
            assert(tags.deep_view().take(i as int + 1) =~= tags.deep_view().take(
                i as int,
            ).push(tags.deep_view()[i as int]));
            assert(q@ =~= old(q)@ + tags_text(tags.deep_view().take(i as int + 1)));
        }
        i = i + 1;
    }
    proof {
        assert(tags.deep_view().take(n as int) =~= tags.deep_view());
    }
    Ok(())
}

/// Concatenates a fixed query template around one escaped, quoted lookup key.
fn build_id_query(prefix: &str, id: &str, suffix: &str) -> (r: Result<String, EncodingError>)
    ensures
        r matches Ok(q) ==> q@ == prefix@ + str_lit(id@) + suffix@,
        r is Ok <==> encodable(id@),
{
    let lit = encode_str(id)?;
    let mut q = String::from_str(prefix);
    q.append(lit.as_str());
    q.append(suffix);
    assert(q@ =~= prefix@ + str_lit(id@) + suffix@);
    Ok(q)
}

/// The fetch query that lists every page with its identity fields and its
/// mutually exclusive type tag.
pub open spec fn spec_page_list_query() -> Seq<char> {
    r#"
match $page isa page;
fetch {
    "name": $page.name,
    "bio": $page.bio,
    "id": $page.page-id,
    "profile-picture": $page.profile-picture,
    "type": (
        match {
            $page isa person;
            let $ty = "person";
        } or {
            $page isa organization;
            let $ty = "organization";
        } or {
            $page isa group;
            let $ty = "group";
        };
        return first $ty;
    ),
};"#@
}

/// Builds the fetch query for the list of all pages. It takes no caller
/// values, so it cannot fail.
pub fn page_list_query() -> (r: String)
    ensures
        r@ == spec_page_list_query(),
{
    String::from_str(
        r#"
match $page isa page;
fetch {
    "name": $page.name,
    "bio": $page.bio,
    "id": $page.page-id,
    "profile-picture": $page.profile-picture,
    "type": (
        match {
            $page isa person;
            let $ty = "person";
        } or {
            $page isa organization;
            let $ty = "organization";
        } or {
            $page isa group;
            let $ty = "group";
        };
        return first $ty;
    ),
};"#,
    )
}

/// The fetch query for the pages whose location resolves transitively to one
/// place: the place's own name plus the matching pages.
pub open spec fn spec_location_query(place_id: Seq<char>) -> Seq<char> {
    r#"
        match
            $place has place-id "#@ + str_lit(place_id) + r#", has name $place-name;
        fetch {
            "placeName": $place-name,
            "pages": [
                match
                    $page isa page;
                    location ($page, $page-place);
                    let $_ = located_in_transitive($page-place, $place);
                fetch {
                    "name": $page.name,
                    "bio": $page.bio,
                    "id": $page.page-id,
                    "profilePicture": $page.profile-picture,
                    "type": (
                        match {
                            $page isa person;
                            let $ty = "person";
                        } or {
                            $page isa organization;
                            let $ty = "organization";
                        };
                        return first $ty;
                    ),
                };
            ]
        };
        "#@
}

/// Builds the fetch query for the pages located, transitively, at one place.
pub fn location_query(place_id: &str) -> (r: Result<String, EncodingError>)
    ensures
        r matches Ok(q) ==> q@ == spec_location_query(place_id@),
        r is Ok <==> encodable(place_id@),
{
    build_id_query(
        r#"
        match
            $place has place-id "#,
        place_id,
        r#", has name $place-name;
        fetch {
            "placeName": $place-name,
            "pages": [
                match
                    $page isa page;
                    location ($page, $page-place);
                    let $_ = located_in_transitive($page-place, $place);
                fetch {
                    "name": $page.name,
                    "bio": $page.bio,
                    "id": $page.page-id,
                    "profilePicture": $page.profile-picture,
                    "type": (
                        match {
                            $page isa person;
                            let $ty = "person";
                        } or {
                            $page isa organization;
                            let $ty = "organization";
                        };
                        return first $ty;
                    ),
                };
            ]
        };
        "#,
    )
}

/// The fetch query for one page's full profile: identity fields, the
/// profile-only attributes (absent ones project as null), tags, capped
/// friend and follower previews beside their independent exact counts, and
/// the transitive location chain.
pub open spec fn spec_page_query(id: Seq<char>) -> Seq<char> {
    r#"
        match $page isa page, has id "#@ + str_lit(id) + r#";
        fetch {
            "name": $page.name,
            "bio": $page.bio,
            "profilePicture": $page.profile-picture,
            "badge": $page.badge,
            "isActive": $page.is-active,
            "username": (match $page isa profile, has username $username; return first $username;),
            "canPublish": (match $page isa profile, has can-publish $can-publish; return first $can-publish;),
            "gender": (match $page isa profile, has gender $gender; return first $gender;),
            "language": (match $page isa profile, has language $language; return first $language;),
            "email": (match $page isa profile, has email $email; return first $email;),
            "phone": (match $page isa profile, has phone $phone; return first $phone;),
            "relationshipStatus": (match $page isa profile, has relationship-status $relationship-status; return first $relationship-status;),
            "pageVisibility": (match $page isa profile, has page-visibility $page-visibility; return first $page-visibility;),
            "postVisibility": (match $page isa profile, has post-visibility $post-visibility; return first $post-visibility;),
            "tags": [match { $page isa group, has tag $tag; } or { $page isa organization, has tag $tag; }; return {  $tag  };],
            "friends": [
                match ($page, $friend) isa friendship; $friend has id $friend-id;
                limit 9;
                return { $friend-id };
            ],
            "numberOfFriends": (
                match ($page, $friend) isa friendship;
                return count;
            ),
            "followers": [
                match (page: $page, follower: $follower) isa following; $follower has id $follower-id;
                limit 9;
                return { $follower-id };
            ],
            "numberOfFollowers": (
                match (page: $page, follower: $follower) isa following;
                return count;
            ),
            "location": [
                match
                    (place: $place, located: $page) isa location;
                    let $child, $parent = parent_places_linked_list($place);
                fetch {
                    "placeName": $child.name,
                    "placeId": $child.place-id,
                    "parentName": $parent.name,
                    "parentId": $parent.place-id,
                };
            ]
        };
        "#@
}

/// Builds the fetch query for one page's full profile.
pub fn page_query(id: &str) -> (r: Result<String, EncodingError>)
    ensures
        r matches Ok(q) ==> q@ == spec_page_query(id@),
        r is Ok <==> encodable(id@),
{
    build_id_query(
        r#"
        match $page isa page, has id "#,
        id,
        r#";
        fetch {
            "name": $page.name,
            "bio": $page.bio,
            "profilePicture": $page.profile-picture,
            "badge": $page.badge,
            "isActive": $page.is-active,
            "username": (match $page isa profile, has username $username; return first $username;),
            "canPublish": (match $page isa profile, has can-publish $can-publish; return first $can-publish;),
            "gender": (match $page isa profile, has gender $gender; return first $gender;),
            "language": (match $page isa profile, has language $language; return first $language;),
            "email": (match $page isa profile, has email $email; return first $email;),
            "phone": (match $page isa profile, has phone $phone; return first $phone;),
            "relationshipStatus": (match $page isa profile, has relationship-status $relationship-status; return first $relationship-status;),
            "pageVisibility": (match $page isa profile, has page-visibility $page-visibility; return first $page-visibility;),
            "postVisibility": (match $page isa profile, has post-visibility $post-visibility; return first $post-visibility;),
            "tags": [match { $page isa group, has tag $tag; } or { $page isa organization, has tag $tag; }; return {  $tag  };],
            "friends": [
                match ($page, $friend) isa friendship; $friend has id $friend-id;
                limit 9;
                return { $friend-id };
            ],
            "numberOfFriends": (
                match ($page, $friend) isa friendship;
                return count;
            ),
            "followers": [
                match (page: $page, follower: $follower) isa following; $follower has id $follower-id;
                limit 9;
                return { $follower-id };
            ],
            "numberOfFollowers": (
                match (page: $page, follower: $follower) isa following;
                return count;
            ),
            "location": [
                match
                    (place: $place, located: $page) isa location;
                    let $child, $parent = parent_places_linked_list($place);
                fetch {
                    "placeName": $child.name,
                    "placeId": $child.place-id,
                    "parentName": $parent.name,
                    "parentId": $parent.place-id,
                };
            ]
        };
        "#,
    )
}

/// The fetch query for every post authored by one page, each enriched with
/// the author's summary and the flat reaction list.
pub open spec fn spec_posts_query(page_id: Seq<char>) -> Seq<char> {
    r#"
        match
            $page has id "#@ + str_lit(page_id) + r#";
            (page: $page, post: $post) isa posting;
        fetch {
            "postText": $post.post-text,
            "postVisibility": $post.post-visibility,
            "postImage": (match $post isa image-post, has post-image $image; return first $image;),
            "language": $post.language,
            "tags": [$post.tag],
            "isVisible": $post.is-visible,
            "creationTimestamp": $post.creation-timestamp,
            "postId": $post.post-id,
            "authorName": $page.name,
            "authorProfilePicture": $page.profile-picture,
            "authorId": $page.page-id,
            "authorType": (
                match {
                    $page isa person;
                    let $ty = "person";
                } or {
                    $page isa organization;
                    let $ty = "organization";
                } or {
                    $page isa group;
                    let $ty = "group";
                };
                return first $ty;
            ),
            "reactions": [
                match ($post) isa reaction, has emoji $emoji;
                return { $emoji };
            ],
        };
        "#@
}

/// Builds the fetch query for the posts authored by one page.
pub fn posts_query(page_id: &str) -> (r: Result<String, EncodingError>)
    ensures
        r matches Ok(q) ==> q@ == spec_posts_query(page_id@),
        r is Ok <==> encodable(page_id@),
{
    build_id_query(
        r#"
        match
            $page has id "#,
        page_id,
        r#";
            (page: $page, post: $post) isa posting;
        fetch {
            "postText": $post.post-text,
            "postVisibility": $post.post-visibility,
            "postImage": (match $post isa image-post, has post-image $image; return first $image;),
            "language": $post.language,
            "tags": [$post.tag],
            "isVisible": $post.is-visible,
            "creationTimestamp": $post.creation-timestamp,
            "postId": $post.post-id,
            "authorName": $page.name,
            "authorProfilePicture": $page.profile-picture,
            "authorId": $page.page-id,
            "authorType": (
                match {
                    $page isa person;
                    let $ty = "person";
                } or {
                    $page isa organization;
                    let $ty = "organization";
                } or {
                    $page isa group;
                    let $ty = "group";
                };
                return first $ty;
            ),
            "reactions": [
                match ($post) isa reaction, has emoji $emoji;
                return { $emoji };
            ],
        };
        "#,
    )
}

/// The fetch query for every comment on one post, each enriched with the
/// author's summary and the flat reaction list.
pub open spec fn spec_comments_query(post_id: Seq<char>) -> Seq<char> {
    r#"
        match
            $post has id "#@ + str_lit(post_id) + r#";
            ($post, comment: $comment, author: $author) isa commenting;
        fetch {
            "commentText": $comment.comment-text,
            "creationTimestamp": $comment.creation-timestamp,
            "isVisible": $comment.is-visible,
            "authorName": $author.name,
            "authorProfilePicture": $author.profile-picture,
            "authorId": $author.page-id,
            "authorType": (
                match {
                    $author isa person;
                    let $ty = "person";
                } or {
                    $author isa organization;
                    let $ty = "organization";
                };
                return first $ty;
            ),
            "reactions": [
                match ($comment) isa reaction, has emoji $emoji;
                return { $emoji };
            ],
        };
        "#@
}

/// Builds the fetch query for the comments on one post.
pub fn comments_query(post_id: &str) -> (r: Result<String, EncodingError>)
    ensures
        r matches Ok(q) ==> q@ == spec_comments_query(post_id@),
        r is Ok <==> encodable(post_id@),
{
    build_id_query(
        r#"
        match
            $post has id "#,
        post_id,
        r#";
            ($post, comment: $comment, author: $author) isa commenting;
        fetch {
            "commentText": $comment.comment-text,
            "creationTimestamp": $comment.creation-timestamp,
            "isVisible": $comment.is-visible,
            "authorName": $author.name,
            "authorProfilePicture": $author.profile-picture,
            "authorId": $author.page-id,
            "authorType": (
                match {
                    $author isa person;
                    let $ty = "person";
                } or {
                    $author isa organization;
                    let $ty = "organization";
                };
                return first $ty;
            ),
            "reactions": [
                match ($comment) isa reaction, has emoji $emoji;
                return { $emoji };
            ],
        };
        "#,
    )
}

/// Every string field of a Person payload is encodable.
pub open spec fn user_encodable(p: CreateUserPayloadView) -> bool {
    &&& encodable(p.name)
    &&& encodable(p.username)
    &&& opt_encodable(p.profile_picture)
    &&& encodable(p.gender)
    &&& opt_encodable(p.language)
    &&& encodable(p.email)
    &&& opt_encodable(p.phone)
    &&& opt_encodable(p.relationship_status)
    &&& opt_encodable(p.badge)
    &&& encodable(p.bio)
    &&& encodable(p.page_visibility)
    &&& encodable(p.post_visibility)
}

/// The exact text of the Person insert statement: required fields always, an
/// optional field's fragment only when the value is present.
pub open spec fn spec_create_user_query(p: CreateUserPayloadView) -> Seq<char> {
    "insert $_ isa person"@ + spec_frag("name"@, str_lit(p.name)) + spec_frag(
        "username"@,
        str_lit(p.username),
    ) + opt_frag("profile-picture"@, p.profile_picture) + spec_frag("gender"@, str_lit(p.gender))
        + opt_frag("language"@, p.language) + spec_frag("email"@, str_lit(p.email)) + opt_frag(
        "phone"@,
        p.phone,
    ) + opt_frag("relationship-status"@, p.relationship_status) + opt_frag("badge"@, p.badge)
        + spec_frag("bio"@, str_lit(p.bio)) + spec_frag("can-publish"@, bool_lit(p.can_publish))
        + spec_frag("is-active"@, bool_lit(p.is_active)) + spec_frag(
        "page-visibility"@,
        str_lit(p.page_visibility),
    ) + spec_frag("post-visibility"@, str_lit(p.post_visibility)) + ";"@
}

/// Builds the insert statement that creates a Person page.
pub fn create_user_query(payload: CreateUserPayload) -> (r: Result<String, EncodingError>)
    ensures
        r matches Ok(q) ==> q@ == spec_create_user_query(payload@),
        r is Ok <==> user_encodable(payload@),
{
    let mut q = String::from_str("insert $_ isa person");
    append_str_frag(&mut q, "name", payload.name.as_str())?;
    append_str_frag(&mut q, "username", payload.username.as_str())?;
    append_opt_frag(&mut q, "profile-picture", &payload.profile_picture)?;
    append_str_frag(&mut q, "gender", payload.gender.as_str())?;
    append_opt_frag(&mut q, "language", &payload.language)?;
    append_str_frag(&mut q, "email", payload.email.as_str())?;
    append_opt_frag(&mut q, "phone", &payload.phone)?;
    append_opt_frag(&mut q, "relationship-status", &payload.relationship_status)?;
    append_opt_frag(&mut q, "badge", &payload.badge)?;
    append_str_frag(&mut q, "bio", payload.bio.as_str())?;
    append_bool_frag(&mut q, "can-publish", payload.can_publish);
    append_bool_frag(&mut q, "is-active", payload.is_active);
    append_str_frag(&mut q, "page-visibility", payload.page_visibility.as_str())?;
    append_str_frag(&mut q, "post-visibility", payload.post_visibility.as_str())?;
    q.append(";");
    assert(q@ =~= spec_create_user_query(payload@));
    Ok(q)
}

/// Every string field of a Group payload is encodable.
pub open spec fn group_encodable(p: CreateGroupPayloadView) -> bool {
    &&& encodable(p.name)
    &&& encodable(p.group_id)
    &&& opt_encodable(p.profile_picture)
    &&& encodable(p.bio)
    &&& encodable(p.page_visibility)
    &&& encodable(p.post_visibility)
    &&& opt_encodable(p.badge)
    &&& tags_encodable(p.tags)
}

/// The exact text of the Group insert statement.
pub open spec fn spec_create_group_query(p: CreateGroupPayloadView) -> Seq<char> {
    "insert $_ isa group"@ + spec_frag("name"@, str_lit(p.name)) + spec_frag(
        "group-id"@,
        str_lit(p.group_id),
    ) + opt_frag("profile-picture"@, p.profile_picture) + spec_frag("bio"@, str_lit(p.bio))
        + spec_frag("is-active"@, bool_lit(p.is_active)) + spec_frag(
        "page-visibility"@,
        str_lit(p.page_visibility),
    ) + spec_frag("post-visibility"@, str_lit(p.post_visibility)) + opt_frag("badge"@, p.badge)
        + tags_text(p.tags) + ";"@
}

/// Builds the insert statement that creates a Group page, one `tag` fragment
/// per element of the tag list.
pub fn create_group_query(payload: CreateGroupPayload) -> (r: Result<String, EncodingError>)
    ensures
        r matches Ok(q) ==> q@ == spec_create_group_query(payload@),
        r is Ok <==> group_encodable(payload@),
{
    let mut q = String::from_str("insert $_ isa group");
    append_str_frag(&mut q, "name", payload.name.as_str())?;
    append_str_frag(&mut q, "group-id", payload.group_id.as_str())?;
    append_opt_frag(&mut q, "profile-picture", &payload.profile_picture)?;
    append_str_frag(&mut q, "bio", payload.bio.as_str())?;
    append_bool_frag(&mut q, "is-active", payload.is_active);
    append_str_frag(&mut q, "page-visibility", payload.page_visibility.as_str())?;
    append_str_frag(&mut q, "post-visibility", payload.post_visibility.as_str())?;
    append_opt_frag(&mut q, "badge", &payload.badge)?;
    append_tag_frags(&mut q, &payload.tags)?;
    q.append(";");
    assert(q@ =~= spec_create_group_query(payload@));
    Ok(q)
}

/// Every string field of an Organization payload is encodable.
pub open spec fn organization_encodable(p: CreateOrganizationPayloadView) -> bool {
    &&& encodable(p.name)
    &&& encodable(p.username)
    &&& opt_encodable(p.profile_picture)
    &&& encodable(p.bio)
    &&& opt_encodable(p.badge)
    &&& tags_encodable(p.tags)
}

/// The exact text of the Organization insert statement.
pub open spec fn spec_create_organization_query(p: CreateOrganizationPayloadView) -> Seq<char> {
    "insert $_ isa organization"@ + spec_frag("name"@, str_lit(p.name)) + spec_frag(
        "username"@,
        str_lit(p.username),
    ) + opt_frag("profile-picture"@, p.profile_picture) + spec_frag("bio"@, str_lit(p.bio))
        + spec_frag("is-active"@, bool_lit(p.is_active)) + spec_frag(
        "can-publish"@,
        bool_lit(p.can_publish),
    ) + opt_frag("badge"@, p.badge) + tags_text(p.tags) + ";"@
}

/// Builds the insert statement that creates an Organization page.
pub fn create_organization_query(payload: CreateOrganizationPayload) -> (r: Result<
    String,
    EncodingError,
>)
    ensures
        r matches Ok(q) ==> q@ == spec_create_organization_query(payload@),
        r is Ok <==> organization_encodable(payload@),
{
    let mut q = String::from_str("insert $_ isa organization");
    append_str_frag(&mut q, "name", payload.name.as_str())?;
    append_str_frag(&mut q, "username", payload.username.as_str())?;
    append_opt_frag(&mut q, "profile-picture", &payload.profile_picture)?;
    append_str_frag(&mut q, "bio", payload.bio.as_str())?;
    append_bool_frag(&mut q, "is-active", payload.is_active);
    append_bool_frag(&mut q, "can-publish", payload.can_publish);
    append_opt_frag(&mut q, "badge", &payload.badge)?;
    append_tag_frags(&mut q, &payload.tags)?;
    q.append(";");
    assert(q@ =~= spec_create_organization_query(payload@));
    Ok(q)
}

// ---------------------------------------------------------------------------
// Fragment accounting: an insert statement is exactly a list of attribute
// fragments between its head and the closing semicolon, and each field of the
// payload contributes its fragment exactly once when present and not at all
// when absent.
// ---------------------------------------------------------------------------
/// The singleton fragment list of one string-valued field.
pub open spec fn sfrag(attr: Seq<char>, v: Seq<char>) -> Seq<Seq<char>> {
    seq![spec_frag(attr, str_lit(v))]
}

/// The singleton fragment list of one boolean field.
pub open spec fn bfrag(attr: Seq<char>, b: bool) -> Seq<Seq<char>> {
    seq![spec_frag(attr, bool_lit(b))]
}

/// The fragment list of one optional string field: empty when absent.
pub open spec fn ofrag(attr: Seq<char>, o: Option<Seq<char>>) -> Seq<Seq<char>> {
    match o {
        Some(v) => sfrag(attr, v),
        None => Seq::empty(),
    }
}

/// The fragment list of a tag list: one `tag` fragment per element.
pub open spec fn tag_frag_list(tags: Seq<Seq<char>>) -> Seq<Seq<char>> {
    tags.map_values(|t: Seq<char>| spec_frag("tag"@, str_lit(t)))
}

/// The fragments of the Person insert statement, in order.
pub open spec fn user_frag_list(p: CreateUserPayloadView) -> Seq<Seq<char>> {
    sfrag("name"@, p.name) + sfrag("username"@, p.username) + ofrag(
        "profile-picture"@,
        p.profile_picture,
    ) + sfrag("gender"@, p.gender) + ofrag("language"@, p.language) + sfrag("email"@, p.email)
        + ofrag("phone"@, p.phone) + ofrag("relationship-status"@, p.relationship_status) + ofrag(
        "badge"@,
        p.badge,
    ) + sfrag("bio"@, p.bio) + bfrag("can-publish"@, p.can_publish) + bfrag(
        "is-active"@,
        p.is_active,
    ) + sfrag("page-visibility"@, p.page_visibility) + sfrag(
        "post-visibility"@,
        p.post_visibility,
    )
}

/// The fragments of the Group insert statement, in order.
pub open spec fn group_frag_list(p: CreateGroupPayloadView) -> Seq<Seq<char>> {
    sfrag("name"@, p.name) + sfrag("group-id"@, p.group_id) + ofrag(
        "profile-picture"@,
        p.profile_picture,
    ) + sfrag("bio"@, p.bio) + bfrag("is-active"@, p.is_active) + sfrag(
        "page-visibility"@,
        p.page_visibility,
    ) + sfrag("post-visibility"@, p.post_visibility) + ofrag("badge"@, p.badge) + tag_frag_list(
        p.tags,
    )
}

/// The fragments of the Organization insert statement, in order.
pub open spec fn organization_frag_list(p: CreateOrganizationPayloadView) -> Seq<Seq<char>> {
    sfrag("name"@, p.name) + sfrag("username"@, p.username) + ofrag(
        "profile-picture"@,
        p.profile_picture,
    ) + sfrag("bio"@, p.bio) + bfrag("is-active"@, p.is_active) + bfrag(
        "can-publish"@,
        p.can_publish,
    ) + ofrag("badge"@, p.badge) + tag_frag_list(p.tags)
}

/// The text of a fragment list, concatenated in order.
pub open spec fn concat_frags(fs: Seq<Seq<char>>) -> Seq<char>
    decreases fs.len(),
{
    if fs.len() == 0 {
        Seq::empty()
    } else {
        fs[0] + concat_frags(fs.drop_first())
    }
}

proof fn lemma_concat_frags_add(a: Seq<Seq<char>>, b: Seq<Seq<char>>)
    ensures
        concat_frags(a + b) == concat_frags(a) + concat_frags(b),
    decreases a.len(),
{
    if a.len() == 0 {
        assert(a + b =~= b);
        assert(concat_frags(a) + concat_frags(b) =~= concat_frags(b));
    } else {
        assert((a + b).drop_first() =~= a.drop_first() + b);
        assert((a + b)[0] == a[0]);
        lemma_concat_frags_add(a.drop_first(), b);
        assert(concat_frags(a + b) =~= concat_frags(a) + concat_frags(b));
    }
}

proof fn lemma_concat_frags_singleton(x: Seq<char>)
    ensures
        concat_frags(seq![x]) == x,
{
    assert(seq![x].drop_first() =~= Seq::<Seq<char>>::empty());
    assert(seq![x][0] == x);
    assert(concat_frags(Seq::<Seq<char>>::empty()) == Seq::<char>::empty());
    assert(concat_frags(seq![x]) == x + Seq::<char>::empty());
    assert(x + Seq::<char>::empty() =~= x);
}

proof fn lemma_concat_ofrag(attr: Seq<char>, o: Option<Seq<char>>)
    ensures
        concat_frags(ofrag(attr, o)) == opt_frag(attr, o),
{
    match o {
        Some(v) => {
            lemma_concat_frags_singleton(spec_frag(attr, str_lit(v)));
        },
        None => {},
    }
}

proof fn lemma_concat_tag_frags(tags: Seq<Seq<char>>)
    ensures
        concat_frags(tag_frag_list(tags)) == tags_text(tags),
    decreases tags.len(),
{
    if tags.len() == 0 {
        assert(tag_frag_list(tags) =~= Seq::<Seq<char>>::empty());
    } else {
        assert(tag_frag_list(tags).drop_first() =~= tag_frag_list(tags.drop_first()));
        assert(tag_frag_list(tags)[0] == spec_frag("tag"@, str_lit(tags[0])));
        lemma_concat_tag_frags(tags.drop_first());
    }
}

/// A fragment carries the given attribute name: the name stands right after
/// the fragment's `, has ` head and is closed by the space before the value.
pub open spec fn frag_names_attr(f: Seq<char>, attr: Seq<char>) -> bool {
    &&& f.len() > 6 + attr.len()
    &&& f.subrange(6, 6 + attr.len() as int) == attr
    &&& f[6 + attr.len() as int] == ' '
}

/// How many fragments of the list carry the given attribute name.
pub open spec fn count_attr(fs: Seq<Seq<char>>, attr: Seq<char>) -> nat
    decreases fs.len(),
{
    if fs.len() == 0 {
        0
    } else {
        (if frag_names_attr(fs[0], attr) {
            1nat
        } else {
            0nat
        }) + count_attr(fs.drop_first(), attr)
    }
}

pub open spec fn no_space(s: Seq<char>) -> bool {
    forall|i: int| 0 <= i < s.len() ==> s[i] != ' '
}

/// How many fragments one optional field owes: one when present, none when
/// absent.
pub open spec fn opt_count(o: Option<Seq<char>>) -> nat {
    if o is Some {
        1nat
    } else {
        0nat
    }
}

/// A fragment built for one attribute carries exactly that attribute's name,
/// and no other: attribute names hold no space, so the space that closes the
/// name pins it down.
proof fn lemma_frag_names_attr(a: Seq<char>, rendered: Seq<char>, b: Seq<char>)
    requires
        no_space(a),
        no_space(b),
    ensures
        frag_names_attr(spec_frag(a, rendered), b) <==> a == b,
{
    reveal_strlit(", has ");
    reveal_strlit(" ");
    let f = spec_frag(a, rendered);
    assert(f.len() == 7 + a.len() + rendered.len());
    if a == b {
        assert(f.subrange(6, 6 + a.len() as int) =~= a);
        assert(f[6 + a.len() as int] == ' ');
    } else {
        if frag_names_attr(f, b) {
            if b.len() == a.len() {
                assert(f.subrange(6, 6 + a.len() as int) =~= a);
                assert(a == b);
            } else if b.len() < a.len() {
                assert(f[6 + b.len() as int] == a[b.len() as int]);
                assert(a[b.len() as int] != ' ');
            } else {
                assert(f.subrange(6, 6 + b.len() as int)[a.len() as int] == f[6 + a.len() as int]);
                assert(f[6 + a.len() as int] == ' ');
                assert(b[a.len() as int] != ' ');
            }
        }
    }
}

proof fn lemma_count_attr_add(x: Seq<Seq<char>>, y: Seq<Seq<char>>, attr: Seq<char>)
    ensures
        count_attr(x + y, attr) == count_attr(x, attr) + count_attr(y, attr),
    decreases x.len(),
{
    if x.len() == 0 {
        assert(x + y =~= y);
    } else {
        assert((x + y).drop_first() =~= x.drop_first() + y);
        assert((x + y)[0] == x[0]);
        lemma_count_attr_add(x.drop_first(), y, attr);
    }
}

proof fn lemma_count_sfrag(a: Seq<char>, v: Seq<char>, b: Seq<char>)
    requires
        no_space(a),
        no_space(b),
    ensures
        count_attr(sfrag(a, v), b) == if a == b {
            1nat
        } else {
            0nat
        },
{
    lemma_frag_names_attr(a, str_lit(v), b);
    assert(sfrag(a, v).drop_first() =~= Seq::<Seq<char>>::empty());
    assert(sfrag(a, v)[0] == spec_frag(a, str_lit(v)));
    assert(count_attr(Seq::<Seq<char>>::empty(), b) == 0);
}

proof fn lemma_count_bfrag(a: Seq<char>, x: bool, b: Seq<char>)
    requires
        no_space(a),
        no_space(b),
    ensures
        count_attr(bfrag(a, x), b) == if a == b {
            1nat
        } else {
            0nat
        },
{
    lemma_frag_names_attr(a, bool_lit(x), b);
    assert(bfrag(a, x).drop_first() =~= Seq::<Seq<char>>::empty());
    assert(bfrag(a, x)[0] == spec_frag(a, bool_lit(x)));
    assert(count_attr(Seq::<Seq<char>>::empty(), b) == 0);
}

proof fn lemma_count_ofrag(a: Seq<char>, o: Option<Seq<char>>, b: Seq<char>)
    requires
        no_space(a),
        no_space(b),
    ensures
        count_attr(ofrag(a, o), b) == if a == b {
            opt_count(o)
        } else {
            0nat
        },
{
    match o {
        Some(v) => {
            lemma_count_sfrag(a, v, b);
        },
        None => {},
    }
}

proof fn lemma_count_tag_frags(tags: Seq<Seq<char>>, b: Seq<char>)
    requires
        no_space(b),
    ensures
        count_attr(tag_frag_list(tags), b) == if "tag"@ == b {
            tags.len()
        } else {
            0nat
        },
    decreases tags.len(),
{
    reveal_strlit("tag");
    assert(no_space("tag"@));
    if tags.len() == 0 {
        assert(tag_frag_list(tags) =~= Seq::<Seq<char>>::empty());
    } else {
        assert(tag_frag_list(tags).drop_first() =~= tag_frag_list(tags.drop_first()));
        assert(tag_frag_list(tags)[0] == spec_frag("tag"@, str_lit(tags[0])));
        lemma_frag_names_attr("tag"@, str_lit(tags[0]), b);
        lemma_count_tag_frags(tags.drop_first(), b);
    }
}

/// No attribute name of this schema holds a space.
proof fn lemma_attrs_no_space()
    ensures
        no_space("name"@),
        no_space("username"@),
        no_space("profile-picture"@),
        no_space("gender"@),
        no_space("language"@),
        no_space("email"@),
        no_space("phone"@),
        no_space("relationship-status"@),
        no_space("badge"@),
        no_space("bio"@),
        no_space("can-publish"@),
        no_space("is-active"@),
        no_space("page-visibility"@),
        no_space("post-visibility"@),
        no_space("group-id"@),
        no_space("tag"@),
{
    reveal_strlit("name");
    reveal_strlit("username");
    reveal_strlit("profile-picture");
    reveal_strlit("gender");
    reveal_strlit("language");
    reveal_strlit("email");
    reveal_strlit("phone");
    reveal_strlit("relationship-status");
    reveal_strlit("badge");
    reveal_strlit("bio");
    reveal_strlit("can-publish");
    reveal_strlit("is-active");
    reveal_strlit("page-visibility");
    reveal_strlit("post-visibility");
    reveal_strlit("group-id");
    reveal_strlit("tag");
}

/// Attribute names of equal length differ at an early character.
proof fn lemma_attrs_distinct()
    ensures
        "username"@ != "language"@,
        "email"@ != "phone"@,
        "email"@ != "badge"@,
        "phone"@ != "badge"@,
        "profile-picture"@ != "page-visibility"@,
        "profile-picture"@ != "post-visibility"@,
        "page-visibility"@ != "post-visibility"@,
        "bio"@ != "tag"@,
{
    reveal_strlit("username");
    reveal_strlit("language");
    reveal_strlit("email");
    reveal_strlit("phone");
    reveal_strlit("badge");
    reveal_strlit("profile-picture");
    reveal_strlit("page-visibility");
    reveal_strlit("post-visibility");
    reveal_strlit("bio");
    reveal_strlit("tag");
    assert("username"@[0] != "language"@[0]);
    assert("email"@[0] != "phone"@[0]);
    assert("email"@[0] != "badge"@[0]);
    assert("phone"@[0] != "badge"@[0]);
    assert("profile-picture"@[1] != "page-visibility"@[1]);
    assert("profile-picture"@[1] != "post-visibility"@[1]);
    assert("page-visibility"@[1] != "post-visibility"@[1]);
    assert("bio"@[0] != "tag"@[0]);
}

/// Law: the Person insert statement is exactly its fragment list between the
/// statement head and the closing semicolon, and that list carries each
/// required field's fragment exactly once and each optional field's fragment
/// exactly once when the value is present and not at all when it is absent.
pub proof fn lemma_user_insert_fields_once(p: CreateUserPayloadView)
    ensures
        spec_create_user_query(p) == "insert $_ isa person"@ + concat_frags(user_frag_list(p))
            + ";"@,
        count_attr(user_frag_list(p), "name"@) == 1,
        count_attr(user_frag_list(p), "username"@) == 1,
        count_attr(user_frag_list(p), "profile-picture"@) == opt_count(p.profile_picture),
        count_attr(user_frag_list(p), "gender"@) == 1,
        count_attr(user_frag_list(p), "language"@) == opt_count(p.language),
        count_attr(user_frag_list(p), "email"@) == 1,
        count_attr(user_frag_list(p), "phone"@) == opt_count(p.phone),
        count_attr(user_frag_list(p), "relationship-status"@) == opt_count(p.relationship_status),
        count_attr(user_frag_list(p), "badge"@) == opt_count(p.badge),
        count_attr(user_frag_list(p), "bio"@) == 1,
        count_attr(user_frag_list(p), "can-publish"@) == 1,
        count_attr(user_frag_list(p), "is-active"@) == 1,
        count_attr(user_frag_list(p), "page-visibility"@) == 1,
        count_attr(user_frag_list(p), "post-visibility"@) == 1,
{
    lemma_attrs_no_space();
    lemma_attrs_distinct();
    reveal_strlit("name");
    reveal_strlit("username");
    reveal_strlit("profile-picture");
    reveal_strlit("gender");
    reveal_strlit("language");
    reveal_strlit("email");
    reveal_strlit("phone");
    reveal_strlit("relationship-status");
    reveal_strlit("badge");
    reveal_strlit("bio");
    reveal_strlit("can-publish");
    reveal_strlit("is-active");
    reveal_strlit("page-visibility");
    reveal_strlit("post-visibility");
    let f1 = sfrag("name"@, p.name);
    let f2 = sfrag("username"@, p.username);
    let f3 = ofrag("profile-picture"@, p.profile_picture);
    let f4 = sfrag("gender"@, p.gender);
    let f5 = ofrag("language"@, p.language);
    let f6 = sfrag("email"@, p.email);
    let f7 = ofrag("phone"@, p.phone);
    let f8 = ofrag("relationship-status"@, p.relationship_status);
    let f9 = ofrag("badge"@, p.badge);
    let f10 = sfrag("bio"@, p.bio);
    let f11 = bfrag("can-publish"@, p.can_publish);
    let f12 = bfrag("is-active"@, p.is_active);
    let f13 = sfrag("page-visibility"@, p.page_visibility);
    let f14 = sfrag("post-visibility"@, p.post_visibility);
    let s2 = f1 + f2;
    let s3 = s2 + f3;
    let s4 = s3 + f4;
    let s5 = s4 + f5;
    let s6 = s5 + f6;
    let s7 = s6 + f7;
    let s8 = s7 + f8;
    let s9 = s8 + f9;
    let s10 = s9 + f10;
    let s11 = s10 + f11;
    let s12 = s11 + f12;
    let s13 = s12 + f13;
    let s14 = s13 + f14;
    assert(user_frag_list(p) == s14);
    lemma_concat_frags_add(f1, f2);
    lemma_concat_frags_add(s2, f3);
    lemma_concat_frags_add(s3, f4);
    lemma_concat_frags_add(s4, f5);
    lemma_concat_frags_add(s5, f6);
    lemma_concat_frags_add(s6, f7);
    lemma_concat_frags_add(s7, f8);
    lemma_concat_frags_add(s8, f9);
    lemma_concat_frags_add(s9, f10);
    lemma_concat_frags_add(s10, f11);
    lemma_concat_frags_add(s11, f12);
    lemma_concat_frags_add(s12, f13);
    lemma_concat_frags_add(s13, f14);
    lemma_concat_frags_singleton(spec_frag("name"@, str_lit(p.name)));
    lemma_concat_frags_singleton(spec_frag("username"@, str_lit(p.username)));
    lemma_concat_ofrag("profile-picture"@, p.profile_picture);
    lemma_concat_frags_singleton(spec_frag("gender"@, str_lit(p.gender)));
    lemma_concat_ofrag("language"@, p.language);
    lemma_concat_frags_singleton(spec_frag("email"@, str_lit(p.email)));
    lemma_concat_ofrag("phone"@, p.phone);
    lemma_concat_ofrag("relationship-status"@, p.relationship_status);
    lemma_concat_ofrag("badge"@, p.badge);
    lemma_concat_frags_singleton(spec_frag("bio"@, str_lit(p.bio)));
    lemma_concat_frags_singleton(spec_frag("can-publish"@, bool_lit(p.can_publish)));
    lemma_concat_frags_singleton(spec_frag("is-active"@, bool_lit(p.is_active)));
    lemma_concat_frags_singleton(spec_frag("page-visibility"@, str_lit(p.page_visibility)));
    lemma_concat_frags_singleton(spec_frag("post-visibility"@, str_lit(p.post_visibility)));
    assert(spec_create_user_query(p) =~= "insert $_ isa person"@ + concat_frags(user_frag_list(p))
        + ";"@);
    assert forall|b: Seq<char>| no_space(b) implies count_attr(user_frag_list(p), b) == count_attr(
        f1,
        b,
    ) + count_attr(f2, b) + count_attr(f3, b) + count_attr(f4, b) + count_attr(f5, b) + count_attr(
        f6,
        b,
    ) + count_attr(f7, b) + count_attr(f8, b) + count_attr(f9, b) + count_attr(f10, b)
        + count_attr(f11, b) + count_attr(f12, b) + count_attr(f13, b) + count_attr(f14, b) by {
        lemma_count_attr_add(f1, f2, b);
        lemma_count_attr_add(s2, f3, b);
        lemma_count_attr_add(s3, f4, b);
        lemma_count_attr_add(s4, f5, b);
        lemma_count_attr_add(s5, f6, b);
        lemma_count_attr_add(s6, f7, b);
        lemma_count_attr_add(s7, f8, b);
        lemma_count_attr_add(s8, f9, b);
        lemma_count_attr_add(s9, f10, b);
        lemma_count_attr_add(s10, f11, b);
        lemma_count_attr_add(s11, f12, b);
        lemma_count_attr_add(s12, f13, b);
        lemma_count_attr_add(s13, f14, b);
    }
    assert forall|b: Seq<char>| no_space(b) implies {
        &&& count_attr(f1, b) == (if "name"@ == b { 1nat } else { 0nat })
        &&& count_attr(f2, b) == (if "username"@ == b { 1nat } else { 0nat })
        &&& count_attr(f3, b) == (if "profile-picture"@ == b { opt_count(p.profile_picture) } else { 0nat })
        &&& count_attr(f4, b) == (if "gender"@ == b { 1nat } else { 0nat })
        &&& count_attr(f5, b) == (if "language"@ == b { opt_count(p.language) } else { 0nat })
        &&& count_attr(f6, b) == (if "email"@ == b { 1nat } else { 0nat })
        &&& count_attr(f7, b) == (if "phone"@ == b { opt_count(p.phone) } else { 0nat })
        &&& count_attr(f8, b) == (if "relationship-status"@ == b { opt_count(p.relationship_status) } else { 0nat })
        &&& count_attr(f9, b) == (if "badge"@ == b { opt_count(p.badge) } else { 0nat })
        &&& count_attr(f10, b) == (if "bio"@ == b { 1nat } else { 0nat })
        &&& count_attr(f11, b) == (if "can-publish"@ == b { 1nat } else { 0nat })
        &&& count_attr(f12, b) == (if "is-active"@ == b { 1nat } else { 0nat })
        &&& count_attr(f13, b) == (if "page-visibility"@ == b { 1nat } else { 0nat })
        &&& count_attr(f14, b) == (if "post-visibility"@ == b { 1nat } else { 0nat })
    } by {
        lemma_count_sfrag("name"@, p.name, b);
        lemma_count_sfrag("username"@, p.username, b);
        lemma_count_ofrag("profile-picture"@, p.profile_picture, b);
        lemma_count_sfrag("gender"@, p.gender, b);
        lemma_count_ofrag("language"@, p.language, b);
        lemma_count_sfrag("email"@, p.email, b);
        lemma_count_ofrag("phone"@, p.phone, b);
        lemma_count_ofrag("relationship-status"@, p.relationship_status, b);
        lemma_count_ofrag("badge"@, p.badge, b);
        lemma_count_sfrag("bio"@, p.bio, b);
        lemma_count_bfrag("can-publish"@, p.can_publish, b);
        lemma_count_bfrag("is-active"@, p.is_active, b);
        lemma_count_sfrag("page-visibility"@, p.page_visibility, b);
        lemma_count_sfrag("post-visibility"@, p.post_visibility, b);
    }
}

/// Law: the Group insert statement is exactly its fragment list between the
/// statement head and the closing semicolon; each required field appears
/// exactly once, each optional field exactly when present, and the tag list
/// contributes exactly one `tag` fragment per element.
pub proof fn lemma_group_insert_fields_once(p: CreateGroupPayloadView)
    ensures
        spec_create_group_query(p) == "insert $_ isa group"@ + concat_frags(group_frag_list(p))
            + ";"@,
        count_attr(group_frag_list(p), "name"@) == 1,
        count_attr(group_frag_list(p), "group-id"@) == 1,
        count_attr(group_frag_list(p), "profile-picture"@) == opt_count(p.profile_picture),
        count_attr(group_frag_list(p), "bio"@) == 1,
        count_attr(group_frag_list(p), "is-active"@) == 1,
        count_attr(group_frag_list(p), "page-visibility"@) == 1,
        count_attr(group_frag_list(p), "post-visibility"@) == 1,
        count_attr(group_frag_list(p), "badge"@) == opt_count(p.badge),
        count_attr(group_frag_list(p), "tag"@) == p.tags.len(),
{
    lemma_attrs_no_space();
    lemma_attrs_distinct();
    reveal_strlit("name");
    reveal_strlit("group-id");
    reveal_strlit("profile-picture");
    reveal_strlit("bio");
    reveal_strlit("is-active");
    reveal_strlit("page-visibility");
    reveal_strlit("post-visibility");
    reveal_strlit("badge");
    reveal_strlit("tag");
    let f1 = sfrag("name"@, p.name);
    let f2 = sfrag("group-id"@, p.group_id);
    let f3 = ofrag("profile-picture"@, p.profile_picture);
    let f4 = sfrag("bio"@, p.bio);
    let f5 = bfrag("is-active"@, p.is_active);
    let f6 = sfrag("page-visibility"@, p.page_visibility);
    let f7 = sfrag("post-visibility"@, p.post_visibility);
    let f8 = ofrag("badge"@, p.badge);
    let f9 = tag_frag_list(p.tags);
    let s2 = f1 + f2;
    let s3 = s2 + f3;
    let s4 = s3 + f4;
    let s5 = s4 + f5;
    let s6 = s5 + f6;
    let s7 = s6 + f7;
    let s8 = s7 + f8;
    let s9 = s8 + f9;
    assert(group_frag_list(p) == s9);
    lemma_concat_frags_add(f1, f2);
    lemma_concat_frags_add(s2, f3);
    lemma_concat_frags_add(s3, f4);
    lemma_concat_frags_add(s4, f5);
    lemma_concat_frags_add(s5, f6);
    lemma_concat_frags_add(s6, f7);
    lemma_concat_frags_add(s7, f8);
    lemma_concat_frags_add(s8, f9);
    lemma_concat_frags_singleton(spec_frag("name"@, str_lit(p.name)));
    lemma_concat_frags_singleton(spec_frag("group-id"@, str_lit(p.group_id)));
    lemma_concat_ofrag("profile-picture"@, p.profile_picture);
    lemma_concat_frags_singleton(spec_frag("bio"@, str_lit(p.bio)));
    lemma_concat_frags_singleton(spec_frag("is-active"@, bool_lit(p.is_active)));
    lemma_concat_frags_singleton(spec_frag("page-visibility"@, str_lit(p.page_visibility)));
    lemma_concat_frags_singleton(spec_frag("post-visibility"@, str_lit(p.post_visibility)));
    lemma_concat_ofrag("badge"@, p.badge);
    lemma_concat_tag_frags(p.tags);
    assert(spec_create_group_query(p) =~= "insert $_ isa group"@ + concat_frags(group_frag_list(p))
        + ";"@);
    assert forall|b: Seq<char>| no_space(b) implies count_attr(group_frag_list(p), b) == count_attr(
        f1,
        b,
    ) + count_attr(f2, b) + count_attr(f3, b) + count_attr(f4, b) + count_attr(f5, b) + count_attr(
        f6,
        b,
    ) + count_attr(f7, b) + count_attr(f8, b) + count_attr(f9, b) by {
        lemma_count_attr_add(f1, f2, b);
        lemma_count_attr_add(s2, f3, b);
        lemma_count_attr_add(s3, f4, b);
        lemma_count_attr_add(s4, f5, b);
        lemma_count_attr_add(s5, f6, b);
        lemma_count_attr_add(s6, f7, b);
        lemma_count_attr_add(s7, f8, b);
        lemma_count_attr_add(s8, f9, b);
    }
    assert forall|b: Seq<char>| no_space(b) implies {
        &&& count_attr(f1, b) == (if "name"@ == b { 1nat } else { 0nat })
        &&& count_attr(f2, b) == (if "group-id"@ == b { 1nat } else { 0nat })
        &&& count_attr(f3, b) == (if "profile-picture"@ == b { opt_count(p.profile_picture) } else { 0nat })
        &&& count_attr(f4, b) == (if "bio"@ == b { 1nat } else { 0nat })
        &&& count_attr(f5, b) == (if "is-active"@ == b { 1nat } else { 0nat })
        &&& count_attr(f6, b) == (if "page-visibility"@ == b { 1nat } else { 0nat })
        &&& count_attr(f7, b) == (if "post-visibility"@ == b { 1nat } else { 0nat })
        &&& count_attr(f8, b) == (if "badge"@ == b { opt_count(p.badge) } else { 0nat })
        &&& count_attr(f9, b) == (if "tag"@ == b { p.tags.len() } else { 0nat })
    } by {
        lemma_count_sfrag("name"@, p.name, b);
        lemma_count_sfrag("group-id"@, p.group_id, b);
        lemma_count_ofrag("profile-picture"@, p.profile_picture, b);
        lemma_count_sfrag("bio"@, p.bio, b);
        lemma_count_bfrag("is-active"@, p.is_active, b);
        lemma_count_sfrag("page-visibility"@, p.page_visibility, b);
        lemma_count_sfrag("post-visibility"@, p.post_visibility, b);
        lemma_count_ofrag("badge"@, p.badge, b);
        lemma_count_tag_frags(p.tags, b);
    }
}

/// Law: the Organization insert statement is exactly its fragment list
/// between the statement head and the closing semicolon; each required field
/// appears exactly once, each optional field exactly when present, and the
/// tag list contributes exactly one `tag` fragment per element.
pub proof fn lemma_organization_insert_fields_once(p: CreateOrganizationPayloadView)
    ensures
        spec_create_organization_query(p) == "insert $_ isa organization"@ + concat_frags(
            organization_frag_list(p),
        ) + ";"@,
        count_attr(organization_frag_list(p), "name"@) == 1,
        count_attr(organization_frag_list(p), "username"@) == 1,
        count_attr(organization_frag_list(p), "profile-picture"@) == opt_count(p.profile_picture),
        count_attr(organization_frag_list(p), "bio"@) == 1,
        count_attr(organization_frag_list(p), "is-active"@) == 1,
        count_attr(organization_frag_list(p), "can-publish"@) == 1,
        count_attr(organization_frag_list(p), "badge"@) == opt_count(p.badge),
        count_attr(organization_frag_list(p), "tag"@) == p.tags.len(),
{
    lemma_attrs_no_space();
    lemma_attrs_distinct();
    reveal_strlit("name");
    reveal_strlit("username");
    reveal_strlit("profile-picture");
    reveal_strlit("bio");
    reveal_strlit("is-active");
    reveal_strlit("can-publish");
    reveal_strlit("badge");
    reveal_strlit("tag");
    let f1 = sfrag("name"@, p.name);
    let f2 = sfrag("username"@, p.username);
    let f3 = ofrag("profile-picture"@, p.profile_picture);
    let f4 = sfrag("bio"@, p.bio);
    let f5 = bfrag("is-active"@, p.is_active);
    let f6 = bfrag("can-publish"@, p.can_publish);
    let f7 = ofrag("badge"@, p.badge);
    let f8 = tag_frag_list(p.tags);
    let s2 = f1 + f2;
    let s3 = s2 + f3;
    let s4 = s3 + f4;
    let s5 = s4 + f5;
    let s6 = s5 + f6;
    let s7 = s6 + f7;
    let s8 = s7 + f8;
    assert(organization_frag_list(p) == s8);
    lemma_concat_frags_add(f1, f2);
    lemma_concat_frags_add(s2, f3);
    lemma_concat_frags_add(s3, f4);
    lemma_concat_frags_add(s4, f5);
    lemma_concat_frags_add(s5, f6);
    lemma_concat_frags_add(s6, f7);
    lemma_concat_frags_add(s7, f8);
    lemma_concat_frags_singleton(spec_frag("name"@, str_lit(p.name)));
    lemma_concat_frags_singleton(spec_frag("username"@, str_lit(p.username)));
    lemma_concat_ofrag("profile-picture"@, p.profile_picture);
    lemma_concat_frags_singleton(spec_frag("bio"@, str_lit(p.bio)));
    lemma_concat_frags_singleton(spec_frag("is-active"@, bool_lit(p.is_active)));
    lemma_concat_frags_singleton(spec_frag("can-publish"@, bool_lit(p.can_publish)));
    lemma_concat_ofrag("badge"@, p.badge);
    lemma_concat_tag_frags(p.tags);
    assert(spec_create_organization_query(p) =~= "insert $_ isa organization"@ + concat_frags(
        organization_frag_list(p),
    ) + ";"@);
    assert forall|b: Seq<char>| no_space(b) implies count_attr(organization_frag_list(p), b)
        == count_attr(f1, b) + count_attr(f2, b) + count_attr(f3, b) + count_attr(f4, b)
        + count_attr(f5, b) + count_attr(f6, b) + count_attr(f7, b) + count_attr(f8, b) by {
        lemma_count_attr_add(f1, f2, b);
        lemma_count_attr_add(s2, f3, b);
        lemma_count_attr_add(s3, f4, b);
        lemma_count_attr_add(s4, f5, b);
        lemma_count_attr_add(s5, f6, b);
        lemma_count_attr_add(s6, f7, b);
        lemma_count_attr_add(s7, f8, b);
    }
    assert forall|b: Seq<char>| no_space(b) implies {
        &&& count_attr(f1, b) == (if "name"@ == b { 1nat } else { 0nat })
        &&& count_attr(f2, b) == (if "username"@ == b { 1nat } else { 0nat })
        &&& count_attr(f3, b) == (if "profile-picture"@ == b { opt_count(p.profile_picture) } else { 0nat })
        &&& count_attr(f4, b) == (if "bio"@ == b { 1nat } else { 0nat })
        &&& count_attr(f5, b) == (if "is-active"@ == b { 1nat } else { 0nat })
        &&& count_attr(f6, b) == (if "can-publish"@ == b { 1nat } else { 0nat })
        &&& count_attr(f7, b) == (if "badge"@ == b { opt_count(p.badge) } else { 0nat })
        &&& count_attr(f8, b) == (if "tag"@ == b { p.tags.len() } else { 0nat })
    } by {
        lemma_count_sfrag("name"@, p.name, b);
        lemma_count_sfrag("username"@, p.username, b);
        lemma_count_ofrag("profile-picture"@, p.profile_picture, b);
        lemma_count_sfrag("bio"@, p.bio, b);
        lemma_count_bfrag("is-active"@, p.is_active, b);
        lemma_count_bfrag("can-publish"@, p.can_publish, b);
        lemma_count_ofrag("badge"@, p.badge, b);
        lemma_count_tag_frags(p.tags, b);
    }
}

} // verus!

