use social_gateway::encode::{encode_bool, encode_str, escape_string};
use social_gateway::query::{
    comments_query, create_group_query, create_organization_query, create_user_query,
    location_query, page_list_query, page_query, posts_query, CreateGroupPayload,
    CreateOrganizationPayload, CreateUserPayload,
};

fn alice() -> CreateUserPayload {
    CreateUserPayload {
        username: "alice".to_string(),
        name: "Alice A".to_string(),
        profile_picture: None,
        badge: None,
        is_active: true,
        gender: "f".to_string(),
        language: None,
        email: "a@x.com".to_string(),
        phone: None,
        relationship_status: None,
        can_publish: false,
        page_visibility: "public".to_string(),
        post_visibility: "friends".to_string(),
        bio: "hi".to_string(),
    }
}

#[test]
fn escape_leaves_plain_text_alone() {
    assert_eq!(escape_string("hello world").unwrap(), "hello world");
}

#[test]
fn escape_quotes_and_backslashes() {
    assert_eq!(escape_string("a\"b\\c").unwrap(), "a\\\"b\\\\c");
}

#[test]
fn escape_rejects_control_characters() {
    assert!(escape_string("a\nb").is_err());
    assert!(escape_string("a\tb").is_err());
    assert!(escape_string("\u{0}").is_err());
}

#[test]
fn encode_str_quotes_the_value() {
    assert_eq!(encode_str("p1").unwrap(), "\"p1\"");
    assert_eq!(encode_str("p\"1").unwrap(), "\"p\\\"1\"");
}

#[test]
fn encode_bool_is_unquoted() {
    assert_eq!(encode_bool(true), "true");
    assert_eq!(encode_bool(false), "false");
}

#[test]
fn create_person_with_all_optionals_absent() {
    let q = create_user_query(alice()).unwrap();
    assert_eq!(
        q,
        "insert $_ isa person, has name \"Alice A\", has username \"alice\", \
         has gender \"f\", has email \"a@x.com\", has bio \"hi\", \
         has can-publish false, has is-active true, \
         has page-visibility \"public\", has post-visibility \"friends\";"
    );
    assert!(!q.contains("profile-picture"));
    assert!(!q.contains("language"));
    assert!(!q.contains("phone"));
    assert!(!q.contains("relationship-status"));
    assert!(!q.contains("badge"));
}

#[test]
fn create_person_with_optionals_present() {
    let mut p = alice();
    p.profile_picture = Some("pic.png".to_string());
    p.language = Some("en".to_string());
    p.phone = Some("123".to_string());
    p.relationship_status = Some("single".to_string());
    p.badge = Some("gold".to_string());
    let q = create_user_query(p).unwrap();
    assert_eq!(
        q,
        "insert $_ isa person, has name \"Alice A\", has username \"alice\", \
         has profile-picture \"pic.png\", has gender \"f\", has language \"en\", \
         has email \"a@x.com\", has phone \"123\", has relationship-status \"single\", \
         has badge \"gold\", has bio \"hi\", has can-publish false, has is-active true, \
         has page-visibility \"public\", has post-visibility \"friends\";"
    );
}

#[test]
fn create_person_escapes_untrusted_strings() {
    let mut p = alice();
    p.name = "Al\"ice\\".to_string();
    let q = create_user_query(p).unwrap();
    assert!(q.contains("has name \"Al\\\"ice\\\\\""));
}

#[test]
fn create_person_rejects_control_characters() {
    let mut p = alice();
    p.bio = "line1\nline2".to_string();
    assert!(create_user_query(p).is_err());
}

#[test]
fn create_group_expands_tags() {
    let p = CreateGroupPayload {
        group_id: "g1".to_string(),
        name: "G".to_string(),
        profile_picture: None,
        badge: Some("gold".to_string()),
        is_active: true,
        tags: vec!["a".to_string(), "b".to_string()],
        page_visibility: "public".to_string(),
        post_visibility: "public".to_string(),
        bio: "B".to_string(),
    };
    let q = create_group_query(p).unwrap();
    assert_eq!(
        q,
        "insert $_ isa group, has name \"G\", has group-id \"g1\", has bio \"B\", \
         has is-active true, has page-visibility \"public\", has post-visibility \"public\", \
         has badge \"gold\", has tag \"a\", has tag \"b\";"
    );
}

#[test]
fn create_group_with_no_tags_has_no_tag_fragment() {
    let p = CreateGroupPayload {
        group_id: "g2".to_string(),
        name: "G2".to_string(),
        profile_picture: None,
        badge: None,
        is_active: false,
        tags: vec![],
        page_visibility: "private".to_string(),
        post_visibility: "private".to_string(),
        bio: "".to_string(),
    };
    let q = create_group_query(p).unwrap();
    assert_eq!(
        q,
        "insert $_ isa group, has name \"G2\", has group-id \"g2\", has bio \"\", \
         has is-active false, has page-visibility \"private\", has post-visibility \"private\";"
    );
}

#[test]
fn create_organization_statement() {
    let p = CreateOrganizationPayload {
        username: "org".to_string(),
        name: "O".to_string(),
        profile_picture: None,
        badge: None,
        is_active: true,
        can_publish: true,
        tags: vec!["x".to_string()],
        bio: "B".to_string(),
    };
    let q = create_organization_query(p).unwrap();
    assert_eq!(
        q,
        "insert $_ isa organization, has name \"O\", has username \"org\", has bio \"B\", \
         has is-active true, has can-publish true, has tag \"x\";"
    );
}

#[test]
fn page_list_query_projects_all_variants() {
    let q = page_list_query();
    assert!(q.contains("match $page isa page;"));
    assert!(q.contains("\"person\""));
    assert!(q.contains("\"organization\""));
    assert!(q.contains("\"group\""));
}

#[test]
fn location_query_quotes_the_place_id() {
    let q = location_query("p1").unwrap();
    assert!(q.contains("$place has place-id \"p1\", has name $place-name;"));
    assert!(q.contains("located_in_transitive"));
}

#[test]
fn location_query_escapes_injection_attempts() {
    let q = location_query("p\"; insert $x isa page").unwrap();
    // The embedded quote stays inside the literal instead of closing it.
    assert!(q.contains("has place-id \"p\\\"; insert $x isa page\""));
}

#[test]
fn page_query_requests_previews_counts_and_location() {
    let q = page_query("u1").unwrap();
    assert!(q.contains("match $page isa page, has id \"u1\";"));
    assert!(q.contains("\"friends\""));
    assert!(q.contains("\"numberOfFriends\""));
    assert!(q.contains("\"followers\""));
    assert!(q.contains("\"numberOfFollowers\""));
    assert!(q.contains("limit 9;"));
    assert!(q.contains("parent_places_linked_list"));
}

#[test]
fn posts_query_enriches_the_author() {
    let q = posts_query("u1").unwrap();
    assert!(q.contains("$page has id \"u1\";"));
    assert!(q.contains("(page: $page, post: $post) isa posting;"));
    assert!(q.contains("\"authorName\""));
    assert!(q.contains("\"authorId\""));
    assert!(q.contains("\"authorType\""));
    assert!(q.contains("\"reactions\""));
}

#[test]
fn comments_query_enriches_the_author() {
    let q = comments_query("post9").unwrap();
    assert!(q.contains("$post has id \"post9\";"));
    assert!(q.contains("($post, comment: $comment, author: $author) isa commenting;"));
    assert!(q.contains("\"authorName\""));
    assert!(q.contains("\"reactions\""));
}
