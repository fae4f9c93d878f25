use social_gateway::dispatch::{plan_operation, requires_commit, Operation, TransactionMode};
use social_gateway::query::{page_list_query, page_query, CreateUserPayload};
use social_gateway::shape::{
    comments_for_post, find_page_index, get_profile, location_chain, posts_for_page,
    relation_count, relation_preview, type_tag, CommentRecord, PageKind, PageRecord, Place,
    PostRecord, Snapshot,
};

fn page(id: &str, name: &str, kind: PageKind) -> PageRecord {
    PageRecord {
        id: id.to_string(),
        name: name.to_string(),
        bio: "bio".to_string(),
        profile_picture: Some(format!("{id}.png")),
        badge: None,
        is_active: true,
        kind,
        username: None,
        can_publish: None,
        gender: None,
        language: None,
        email: None,
        phone: None,
        relationship_status: None,
        page_visibility: None,
        post_visibility: None,
        tags: vec![],
        place: None,
    }
}

fn empty_snapshot() -> Snapshot {
    Snapshot {
        pages: vec![],
        places: vec![],
        friendships: vec![],
        followings: vec![],
        posts: vec![],
        comments: vec![],
        post_reactions: vec![],
        comment_reactions: vec![],
    }
}

fn post(id: &str, author: usize, text: &str) -> PostRecord {
    PostRecord {
        post_id: id.to_string(),
        author,
        text: text.to_string(),
        visibility: "public".to_string(),
        image: None,
        language: None,
        tags: vec![],
        is_visible: true,
        creation_timestamp: 1000,
    }
}

#[test]
fn type_tag_names_each_variant() {
    assert_eq!(type_tag(PageKind::Person), "person");
    assert_eq!(type_tag(PageKind::Organization), "organization");
    assert_eq!(type_tag(PageKind::Group), "group");
}

#[test]
fn preview_and_count_of_empty_relation() {
    let ids: Vec<String> = vec![];
    assert_eq!(relation_preview(&ids).len(), 0);
    assert_eq!(relation_count(&ids), 0);
}

#[test]
fn preview_caps_at_nine_while_count_stays_exact() {
    let ids: Vec<String> = (0..12).map(|i| format!("f{i}")).collect();
    let preview = relation_preview(&ids);
    assert_eq!(preview.len(), 9);
    assert_eq!(preview[0], "f0");
    assert_eq!(preview[8], "f8");
    assert_eq!(relation_count(&ids), 12);
}

#[test]
fn profile_of_page_with_twelve_friends() {
    let mut s = empty_snapshot();
    s.pages.push(page("u0", "Main", PageKind::Person));
    for i in 1..=12 {
        s.pages.push(page(&format!("u{i}"), &format!("P{i}"), PageKind::Person));
        s.friendships.push((0, i));
    }
    let d = get_profile(&s, &"u0".to_string()).unwrap();
    assert_eq!(d.friends.len(), 9);
    assert_eq!(d.number_of_friends, 12);
    assert_eq!(d.friends[0], "u1");
    assert_eq!(d.friends[8], "u9");
    assert_eq!(d.followers.len(), 0);
    assert_eq!(d.number_of_followers, 0);
}

#[test]
fn profile_of_page_with_no_friends() {
    let mut s = empty_snapshot();
    s.pages.push(page("u0", "Main", PageKind::Group));
    let d = get_profile(&s, &"u0".to_string()).unwrap();
    assert_eq!(d.friends.len(), 0);
    assert_eq!(d.number_of_friends, 0);
    assert_eq!(d.page_type, "group");
}

#[test]
fn friendship_is_symmetric() {
    let mut s = empty_snapshot();
    s.pages.push(page("u0", "A", PageKind::Person));
    s.pages.push(page("u1", "B", PageKind::Person));
    s.friendships.push((1, 0));
    let d = get_profile(&s, &"u0".to_string()).unwrap();
    assert_eq!(d.friends, vec!["u1".to_string()]);
    assert_eq!(d.number_of_friends, 1);
}

#[test]
fn followers_are_directed() {
    let mut s = empty_snapshot();
    s.pages.push(page("u0", "A", PageKind::Person));
    s.pages.push(page("u1", "B", PageKind::Person));
    // u1 follows u0: (follower, page)
    s.followings.push((1, 0));
    let d0 = get_profile(&s, &"u0".to_string()).unwrap();
    assert_eq!(d0.followers, vec!["u1".to_string()]);
    assert_eq!(d0.number_of_followers, 1);
    let d1 = get_profile(&s, &"u1".to_string()).unwrap();
    assert_eq!(d1.number_of_followers, 0);
}

#[test]
fn profile_of_missing_id_is_none_not_an_error() {
    let mut s = empty_snapshot();
    s.pages.push(page("u0", "Main", PageKind::Person));
    assert!(get_profile(&s, &"nobody".to_string()).is_none());
    assert!(find_page_index(&s.pages, &"nobody".to_string()).is_none());
}

#[test]
fn page_without_location_projects_empty_chain() {
    let mut s = empty_snapshot();
    s.pages.push(page("u0", "Main", PageKind::Person));
    let d = get_profile(&s, &"u0".to_string()).unwrap();
    assert_eq!(d.location.len(), 0);
}

fn place(id: &str, name: &str, parent: Option<usize>) -> Place {
    Place { place_id: id.to_string(), name: name.to_string(), parent }
}

#[test]
fn location_chain_resolves_every_hop() {
    // world <- country <- city <- district, page located at the district
    let places = vec![
        place("p0", "world", None),
        place("p1", "country", Some(0)),
        place("p2", "city", Some(1)),
        place("p3", "district", Some(2)),
    ];
    let links = location_chain(&places, Some(3));
    assert_eq!(links.len(), 3);
    assert_eq!(links[0].place_name, "district");
    assert_eq!(links[0].parent_name, "city");
    assert_eq!(links[1].place_name, "city");
    assert_eq!(links[1].parent_name, "country");
    assert_eq!(links[2].place_name, "country");
    assert_eq!(links[2].parent_name, "world");
    assert_eq!(links[2].parent_id, "p0");
}

#[test]
fn location_chain_of_root_is_empty() {
    let places = vec![place("p0", "world", None)];
    assert_eq!(location_chain(&places, Some(0)).len(), 0);
    assert_eq!(location_chain(&places, None).len(), 0);
}

#[test]
fn profile_location_walks_the_hierarchy() {
    let mut s = empty_snapshot();
    let mut pg = page("u0", "Main", PageKind::Person);
    s.places.push(place("p0", "world", None));
    s.places.push(place("p1", "city", Some(0)));
    pg.place = Some(1);
    s.pages.push(pg);
    let d = get_profile(&s, &"u0".to_string()).unwrap();
    assert_eq!(d.location.len(), 1);
    assert_eq!(d.location[0].place_name, "city");
    assert_eq!(d.location[0].parent_name, "world");
}

#[test]
fn posts_of_page_with_no_posts_is_empty() {
    let mut s = empty_snapshot();
    s.pages.push(page("u0", "Main", PageKind::Person));
    assert_eq!(posts_for_page(&s, &"u0".to_string()).len(), 0);
    assert_eq!(posts_for_page(&s, &"missing".to_string()).len(), 0);
}

#[test]
fn posts_are_enriched_with_their_author() {
    let mut s = empty_snapshot();
    s.pages.push(page("u0", "Main", PageKind::Organization));
    s.pages.push(page("u1", "Other", PageKind::Person));
    s.posts.push(post("post0", 0, "first"));
    s.posts.push(post("post1", 1, "not ours"));
    s.posts.push(post("post2", 0, "second"));
    s.post_reactions.push((0, "smile".to_string()));
    s.post_reactions.push((2, "heart".to_string()));
    s.post_reactions.push((0, "smile".to_string()));
    let docs = posts_for_page(&s, &"u0".to_string());
    assert_eq!(docs.len(), 2);
    assert_eq!(docs[0].post_text, "first");
    assert_eq!(docs[0].post_id, "post0");
    assert_eq!(docs[0].author_name, "Main");
    assert_eq!(docs[0].author_id, "u0");
    assert_eq!(docs[0].author_type, "organization");
    assert_eq!(docs[0].author_profile_picture, Some("u0.png".to_string()));
    // flat reaction list, duplicates kept
    assert_eq!(docs[0].reactions, vec!["smile".to_string(), "smile".to_string()]);
    assert_eq!(docs[1].post_text, "second");
    assert_eq!(docs[1].reactions, vec!["heart".to_string()]);
}

#[test]
fn comments_are_enriched_with_their_own_author() {
    let mut s = empty_snapshot();
    s.pages.push(page("u0", "Poster", PageKind::Person));
    s.pages.push(page("u1", "Commenter", PageKind::Group));
    s.posts.push(post("post0", 0, "hello"));
    s.comments.push(CommentRecord {
        post: 0,
        author: 1,
        text: "nice".to_string(),
        is_visible: true,
        creation_timestamp: 2000,
    });
    s.comment_reactions.push((0, "thumbs".to_string()));
    let docs = comments_for_post(&s, &"post0".to_string());
    assert_eq!(docs.len(), 1);
    assert_eq!(docs[0].comment_text, "nice");
    assert_eq!(docs[0].author_name, "Commenter");
    assert_eq!(docs[0].author_id, "u1");
    assert_eq!(docs[0].author_type, "group");
    assert_eq!(docs[0].reactions, vec!["thumbs".to_string()]);
    assert_eq!(comments_for_post(&s, &"missing".to_string()).len(), 0);
}

#[test]
fn read_operations_plan_read_transactions() {
    let pr = plan_operation(Operation::ListPages).unwrap();
    assert_eq!(pr.mode, TransactionMode::Read);
    assert_eq!(pr.query, page_list_query());
    assert!(!requires_commit(pr.mode));
    let pr = plan_operation(Operation::GetProfile { id: "u1".to_string() }).unwrap();
    assert_eq!(pr.mode, TransactionMode::Read);
    assert_eq!(pr.query, page_query("u1").unwrap());
}

#[test]
fn create_operations_plan_write_transactions() {
    let payload = CreateUserPayload {
        username: "alice".to_string(),
        name: "Alice A".to_string(),
        profile_picture: None,
        badge: None,
        is_active: true,
        gender: "f".to_string(),
        language: None,
        email: "a@x.com".to_string(),
        phone: None,
        relationship_status: None,
        can_publish: false,
        page_visibility: "public".to_string(),
        post_visibility: "friends".to_string(),
        bio: "hi".to_string(),
    };
    let pr = plan_operation(Operation::CreatePerson { payload }).unwrap();
    assert_eq!(pr.mode, TransactionMode::Write);
    assert!(requires_commit(pr.mode));
    assert!(pr.query.starts_with("insert $_ isa person"));
}

#[test]
fn plan_operation_fails_whole_on_unencodable_input() {
    let r = plan_operation(Operation::GetProfile { id: "u\n1".to_string() });
    assert!(r.is_err());
}
