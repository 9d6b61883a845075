use lemmy_apub::error::ErrorKind;
use lemmy_apub::page::{
    deserialize_not_present, find_actor, Attachment, AttributedTo, AttributedToPeertube, Document,
    Image, Link, Page, PageType, PersonOrGroupType, MUST_NOT_HAVE_IN_REPLY_TO,
};
use lemmy_apub::records::{CommunityId, Post, PostId};
use lemmy_apub::uri::Uri;

fn uri(text: &str) -> Uri {
    Uri::parse(text).unwrap()
}

fn page(attributed_to: AttributedTo) -> Page {
    Page {
        kind: PageType::Page,
        id: uri("https://enterprise.lemmy.ml/post/55143"),
        attributed_to,
        to: vec![],
        in_reply_to: None,
        name: None,
        cc: vec![],
        content: None,
        media_type: None,
        source: None,
        attachment: vec![],
        image: None,
        comments_enabled: None,
        sensitive: None,
        published: None,
        updated: None,
        language: None,
        audience: None,
    }
}

fn person(id: &str) -> AttributedToPeertube {
    AttributedToPeertube { kind: PersonOrGroupType::Person, id: uri(id) }
}

fn group(id: &str) -> AttributedToPeertube {
    AttributedToPeertube { kind: PersonOrGroupType::Group, id: uri(id) }
}

fn post(locked: bool) -> Post {
    Post {
        id: PostId(1),
        community_id: CommunityId(2),
        ap_id: uri("https://enterprise.lemmy.ml/post/55143"),
        locked,
    }
}

#[test]
fn attachment_of_an_image_media_type_is_an_image() {
    let a = Attachment::new(
        uri("https://example.com/a.png"),
        Some("image/png".to_string()),
        Some("a cat".to_string()),
    );
    match a {
        Attachment::Image(i) => {
            assert_eq!(i.url.as_str(), "https://example.com/a.png");
            assert_eq!(i.name.as_deref(), Some("a cat"));
        }
        other => panic!("not an image: {:?}", other),
    }
}

#[test]
fn attachment_of_another_media_type_is_a_link() {
    let a = Attachment::new(uri("https://example.com/a"), Some("text/html".to_string()), None);
    match a {
        Attachment::Link(l) => {
            assert_eq!(l.href.as_str(), "https://example.com/a");
            assert_eq!(l.media_type.as_deref(), Some("text/html"));
            assert_eq!(l.name, None);
        }
        other => panic!("not a link: {:?}", other),
    }
}

#[test]
fn attachment_without_media_type_is_a_link() {
    let a = Attachment::new(uri("https://example.com/a"), None, Some("alt".to_string()));
    assert!(matches!(a, Attachment::Link(_)));
}

#[test]
fn attachment_media_type_must_start_with_image() {
    let a = Attachment::new(uri("https://example.com/a"), Some("an image".to_string()), None);
    assert!(matches!(a, Attachment::Link(_)));
    let b = Attachment::new(uri("https://example.com/a"), Some("imag".to_string()), None);
    assert!(matches!(b, Attachment::Link(_)));
    let c = Attachment::new(uri("https://example.com/a"), Some("image".to_string()), None);
    assert!(matches!(c, Attachment::Image(_)));
}

#[test]
fn attachment_url_and_alt_text_of_every_shape() {
    let link = Attachment::Link(Link {
        href: uri("https://example.com/x"),
        media_type: None,
        name: Some("alt".to_string()),
    });
    let image = Attachment::Image(Image { url: uri("https://example.com/x"), name: Some("alt".to_string()) });
    let document =
        Attachment::Document(Document { url: uri("https://example.com/x"), name: Some("alt".to_string()) });
    for a in [link, image, document] {
        let b = match &a {
            Attachment::Link(l) => Attachment::Link(Link {
                href: l.href.clone(),
                media_type: l.media_type.clone(),
                name: l.name.clone(),
            }),
            Attachment::Image(i) => Attachment::Image(Image { url: i.url.clone(), name: i.name.clone() }),
            Attachment::Document(d) => {
                Attachment::Document(Document { url: d.url.clone(), name: d.name.clone() })
            }
        };
        assert_eq!(a.url().as_str(), "https://example.com/x");
        assert_eq!(b.alt_text().as_deref(), Some("alt"));
    }
}

#[test]
fn first_attachment_is_the_one_that_counts() {
    let mut p = page(AttributedTo::Lemmy(uri("https://enterprise.lemmy.ml/u/picard")));
    assert!(p.first_attachment().is_none());
    p.attachment.push(Attachment::new(uri("https://example.com/first"), None, None));
    p.attachment.push(Attachment::new(uri("https://example.com/second.png"), Some("image/png".to_string()), None));
    match p.first_attachment() {
        Some(Attachment::Link(l)) => assert_eq!(l.href.as_str(), "https://example.com/first"),
        other => panic!("not the first attachment: {:?}", other),
    }
}

#[test]
fn creator_of_a_direct_attribution() {
    let p = page(AttributedTo::Lemmy(uri("https://enterprise.lemmy.ml/u/picard")));
    assert_eq!(p.creator().unwrap().as_str(), "https://enterprise.lemmy.ml/u/picard");
}

#[test]
fn creator_of_a_pair_in_either_order() {
    let first = page(AttributedTo::Peertube([
        person("https://tilvids.com/accounts/thelinuxexperiment"),
        group("https://tilvids.com/video-channels/thelinuxexperiment_channel"),
    ]));
    let last = page(AttributedTo::Peertube([
        group("https://tilvids.com/video-channels/thelinuxexperiment_channel"),
        person("https://tilvids.com/accounts/thelinuxexperiment"),
    ]));
    assert_eq!(first.creator().unwrap().as_str(), "https://tilvids.com/accounts/thelinuxexperiment");
    assert_eq!(last.creator().unwrap().as_str(), "https://tilvids.com/accounts/thelinuxexperiment");
}

#[test]
fn creator_of_a_pair_without_person_is_missing() {
    let p = page(AttributedTo::Peertube([
        group("https://tilvids.com/video-channels/a"),
        group("https://tilvids.com/video-channels/b"),
    ]));
    assert_eq!(p.creator().unwrap_err(), ErrorKind::MissingCreator);
}

#[test]
fn creator_of_two_persons_is_the_first() {
    let p = page(AttributedTo::Peertube([
        person("https://tilvids.com/accounts/a"),
        person("https://tilvids.com/accounts/b"),
    ]));
    assert_eq!(p.creator().unwrap().as_str(), "https://tilvids.com/accounts/a");
}

#[test]
fn find_actor_by_kind() {
    let pair = [person("https://tilvids.com/accounts/a"), group("https://tilvids.com/video-channels/b")];
    assert_eq!(
        find_actor(&pair, PersonOrGroupType::Group).unwrap().as_str(),
        "https://tilvids.com/video-channels/b"
    );
    let persons = [person("https://tilvids.com/accounts/a"), person("https://tilvids.com/accounts/b")];
    assert!(find_actor(&persons, PersonOrGroupType::Group).is_none());
}

#[test]
fn locked_changed_needs_flag_and_stored_post() {
    let missing: Result<Post, ErrorKind> = Err(ErrorKind::PostNotFound);
    assert!(!Page::is_locked_changed(&missing, &Some(true)));
    assert!(!Page::is_locked_changed(&missing, &Some(false)));
    assert!(!Page::is_locked_changed(&missing, &None));
    let found: Result<Post, ErrorKind> = Ok(post(false));
    assert!(!Page::is_locked_changed(&found, &None));
}

#[test]
fn locked_changed_compares_flag_with_inverse_of_lock() {
    let unlocked: Result<Post, ()> = Ok(post(false));
    let locked: Result<Post, ()> = Ok(post(true));
    // comments are enabled on a post that is not locked: nothing changes
    assert!(!Page::is_locked_changed(&unlocked, &Some(true)));
    assert!(Page::is_locked_changed(&unlocked, &Some(false)));
    assert!(Page::is_locked_changed(&locked, &Some(true)));
    assert!(!Page::is_locked_changed(&locked, &Some(false)));
}

#[test]
fn not_present_lets_nothing_pass() {
    assert_eq!(deserialize_not_present(None), Ok(None));
}

#[test]
fn not_present_refuses_a_reply_marker() {
    assert_eq!(
        deserialize_not_present(Some("https://enterprise.lemmy.ml/post/55143".to_string())),
        Err(ErrorKind::MalformedObject)
    );
    assert_eq!(deserialize_not_present(Some(String::new())), Err(ErrorKind::MalformedObject));
    assert_eq!(MUST_NOT_HAVE_IN_REPLY_TO, "Post must not have inReplyTo property");
}
