use vstd::prelude::*;
use crate::error::ErrorKind;
use crate::page::{
    ActorView, Attachment, AttachmentView, AttributedTo, AttributedToPeertube, AttributedToView,
    Document, DocumentView, Image, ImageObject, ImageObjectView, ImageView, LanguageTag,
    LanguageTagView, Link, LinkView, MediaTypeMarkdownOrHtml, Page, PageType, PageView,
    PersonOrGroupType, Source, SourceView, deserialize_not_present,
};
use crate::wire::{
    absent, addressed, each, field, has_tag, lookup, optional_flag, optional_text, optional_time,
    optional_uri, read_addressed, read_optional_flag, read_optional_text, read_optional_time,
    read_optional_uri, read_required_text, read_required_uri, read_uri, reads, required_text,
    required_uri, tagged, uri_of, Lookup, WireField, WireValue,
};
use crate::uri::url_parse;

verus! {

/// The link that the members of an object spell.
pub open spec fn link_of(f: Seq<WireField>) -> Option<LinkView> {
    let href = required_uri(field(f, "href"@));
    let media_type = optional_text(field(f, "mediaType"@));
    let name = optional_text(field(f, "name"@));
    if href is Some && media_type is Some && tagged(field(f, "type"@), "Link"@) && name is Some {
        Some(LinkView { href: href->0, media_type: media_type->0, name: name->0 })
    } else {
        None
    }
}

/// The image that the members of an object spell.
pub open spec fn image_of(f: Seq<WireField>) -> Option<ImageView> {
    let url = required_uri(field(f, "url"@));
    let name = optional_text(field(f, "name"@));
    if tagged(field(f, "type"@), "Image"@) && url is Some && name is Some {
        Some(ImageView { url: url->0, name: name->0 })
    } else {
        None
    }
}

/// The document that the members of an object spell.
pub open spec fn document_of(f: Seq<WireField>) -> Option<DocumentView> {
    let url = required_uri(field(f, "url"@));
    let name = optional_text(field(f, "name"@));
    if tagged(field(f, "type"@), "Document"@) && url is Some && name is Some {
        Some(DocumentView { url: url->0, name: name->0 })
    } else {
        None
    }
}

/// The attachment that a value spells: the first of link, image and
/// document whose shape the value has.
pub open spec fn attachment_of(raw: WireValue) -> Option<AttachmentView> {
    match raw {
        WireValue::Object(fields) => {
            if link_of(fields@) is Some {
                Some(AttachmentView::Link(link_of(fields@)->0))
            } else if image_of(fields@) is Some {
                Some(AttachmentView::Image(image_of(fields@)->0))
            } else if document_of(fields@) is Some {
                Some(AttachmentView::Document(document_of(fields@)->0))
            } else {
                None
            }
        },
        _ => None,
    }
}

/// The attachments that a member lists; a missing member lists none.
pub open spec fn attachments_of(found: Lookup<WireValue>) -> Option<Seq<AttachmentView>> {
    match found {
        Lookup::Missing => Some(Seq::empty()),
        Lookup::One(WireValue::List(items)) => each(items@, |v: WireValue| attachment_of(v)),
        _ => None,
    }
}

fn parse_link(fields: &Vec<WireField>) -> (r: Result<Link, ErrorKind>)
    ensures
        reads(r, link_of(fields@)),
{
    let href = read_required_uri(fields, "href")?;
    let media_type = read_optional_text(fields, "mediaType")?;
    if !has_tag(fields, "type", "Link") {
        return Err(ErrorKind::MalformedObject);
    }
    let name = read_optional_text(fields, "name")?;
    Ok(Link { href, media_type, name })
}

fn parse_image(fields: &Vec<WireField>) -> (r: Result<Image, ErrorKind>)
    ensures
        reads(r, image_of(fields@)),
{
    if !has_tag(fields, "type", "Image") {
        return Err(ErrorKind::MalformedObject);
    }
    let url = read_required_uri(fields, "url")?;
    let name = read_optional_text(fields, "name")?;
    Ok(Image { url, name })
}

fn parse_document(fields: &Vec<WireField>) -> (r: Result<Document, ErrorKind>)
    ensures
        reads(r, document_of(fields@)),
{
    if !has_tag(fields, "type", "Document") {
        return Err(ErrorKind::MalformedObject);
    }
    let url = read_required_uri(fields, "url")?;
    let name = read_optional_text(fields, "name")?;
    Ok(Document { url, name })
}

impl Attachment {
    /// Reads an attachment in whichever of the three shapes it was sent.
    /// The shapes are tried in the order link, image, document, and the
    /// first that fits decides.
    pub fn parse(raw: &WireValue) -> (r: Result<Attachment, ErrorKind>)
        ensures
            reads(r, attachment_of(*raw)),
    {
        match raw {
            WireValue::Object(fields) => {
                match parse_link(fields) {
                    Ok(l) => Ok(Attachment::Link(l)),
                    Err(_) => match parse_image(fields) {
                        Ok(i) => Ok(Attachment::Image(i)),
                        Err(_) => match parse_document(fields) {
                            Ok(d) => Ok(Attachment::Document(d)),
                            Err(e) => Err(e),
                        },
                    },
                }
            },
            _ => Err(ErrorKind::MalformedObject),
        }
    }
}

fn parse_attachments(fields: &Vec<WireField>) -> (r: Result<Vec<Attachment>, ErrorKind>)
    ensures
        reads(r, attachments_of(field(fields@, "attachment"@))),
{
    match lookup(fields, "attachment") {
        Lookup::Missing => {
            let out: Vec<Attachment> = Vec::new();
            assert(out.deep_view() =~= Seq::<AttachmentView>::empty());
            Ok(out)
        },
        Lookup::One(WireValue::List(items)) => {
            let ghost read = |v: WireValue| attachment_of(v);
            let mut out: Vec<Attachment> = Vec::new();
            let mut i: usize = 0;
            while i < items.len()
                invariant
                    i <= items@.len(),
                    field(fields@, "attachment"@) == Lookup::One(WireValue::List(*items)),
                    read == (|v: WireValue| attachment_of(v)),
                    forall|j: int| 0 <= j < i ==> read(#[trigger] items@[j]) is Some,
                    out@.len() == i,
                    forall|j: int|
                        0 <= j < i ==> (#[trigger] out@[j]).deep_view() == attachment_of(items@[j])->0,
                decreases items@.len() - i,
            {
                match Attachment::parse(&items[i]) {
                    Ok(a) => {
                        out.push(a);
                    },
                    Err(e) => {
                        assert(read(items@[i as int]) is None);
                        return Err(e);
                    },
                }
                i += 1;
            }
            assert(out.deep_view() =~= Seq::new(items@.len(), |j: int| read(items@[j])->0));
            Ok(out)
        },
        _ => Err(ErrorKind::MalformedObject),
    }
}

/// The role that a text names.
pub open spec fn actor_kind_of(found: Lookup<WireValue>) -> Option<PersonOrGroupType> {
    if tagged(found, "Person"@) {
        Some(PersonOrGroupType::Person)
    } else if tagged(found, "Group"@) {
        Some(PersonOrGroupType::Group)
    } else {
        None
    }
}

/// The entry of a two-actor attribution that a value spells.
pub open spec fn actor_of(raw: WireValue) -> Option<ActorView> {
    match raw {
        WireValue::Object(fields) => {
            let kind = actor_kind_of(field(fields@, "type"@));
            let id = required_uri(field(fields@, "id"@));
            if kind is Some && id is Some {
                Some(ActorView { kind: kind->0, id: id->0 })
            } else {
                None
            }
        },
        _ => None,
    }
}

/// The attribution that a member spells: an identity, or else a list of
/// exactly two actors with their roles.
pub open spec fn attributed_to_of(found: Lookup<WireValue>) -> Option<AttributedToView> {
    match found {
        Lookup::One(v) => if uri_of(v) is Some {
            Some(AttributedToView::Lemmy(uri_of(v)->0))
        } else {
            match v {
                WireValue::List(items) => if items@.len() == 2 && actor_of(items@[0]) is Some && actor_of(
                    items@[1],
                ) is Some {
                    Some(AttributedToView::Peertube(seq![actor_of(items@[0])->0, actor_of(items@[1])->0]))
                } else {
                    None
                },
                _ => None,
            }
        },
        _ => None,
    }
}

/// The source that a member spells. Whatever is there and is no source is
/// passed over; only a repeated member is malformed.
pub open spec fn source_of(found: Lookup<WireValue>) -> Option<Option<SourceView>> {
    match found {
        Lookup::Repeated => None,
        Lookup::One(WireValue::Object(fields)) => {
            let content = required_text(field(fields@, "content"@));
            if content is Some && tagged(field(fields@, "mediaType"@), "text/markdown"@) {
                Some(Some(SourceView { content: content->0 }))
            } else {
                Some(None)
            }
        },
        _ => Some(None),
    }
}

/// The picture that a member spells, if it is there.
pub open spec fn image_object_of(found: Lookup<WireValue>) -> Option<Option<ImageObjectView>> {
    match found {
        Lookup::Missing => Some(None),
        Lookup::One(WireValue::Null) => Some(None),
        Lookup::One(WireValue::Object(fields)) => {
            let url = required_uri(field(fields@, "url"@));
            if tagged(field(fields@, "type"@), "Image"@) && url is Some {
                Some(Some(ImageObjectView { url: url->0 }))
            } else {
                None
            }
        },
        _ => None,
    }
}

/// The language that a member spells, if it is there.
pub open spec fn language_of(found: Lookup<WireValue>) -> Option<Option<LanguageTagView>> {
    match found {
        Lookup::Missing => Some(None),
        Lookup::One(WireValue::Null) => Some(None),
        Lookup::One(WireValue::Object(fields)) => {
            let identifier = required_text(field(fields@, "identifier"@));
            let name = required_text(field(fields@, "name"@));
            if identifier is Some && name is Some {
                Some(Some(LanguageTagView { identifier: identifier->0, name: name->0 }))
            } else {
                None
            }
        },
        _ => None,
    }
}

/// The label that a member spells.
pub open spec fn page_type_of(found: Lookup<WireValue>) -> Option<PageType> {
    if tagged(found, "Page"@) {
        Some(PageType::Page)
    } else if tagged(found, "Article"@) {
        Some(PageType::Article)
    } else if tagged(found, "Note"@) {
        Some(PageType::Note)
    } else if tagged(found, "Video"@) {
        Some(PageType::Video)
    } else if tagged(found, "Event"@) {
        Some(PageType::Event)
    } else {
        None
    }
}

/// The media type that a member spells, if it is there.
pub open spec fn media_type_of(found: Lookup<WireValue>) -> Option<Option<MediaTypeMarkdownOrHtml>> {
    if absent(found) {
        Some(None)
    } else if tagged(found, "text/markdown"@) {
        Some(Some(MediaTypeMarkdownOrHtml::Markdown))
    } else if tagged(found, "text/html"@) {
        Some(Some(MediaTypeMarkdownOrHtml::Html))
    } else {
        None
    }
}

/// The post that a payload spells, or `None` where it spells none.
///
/// Every member that a post knows must have its shape; members that a post
/// does not know are passed over. A payload that replies to something is no
/// post, whatever else it holds.
pub open spec fn page_of(raw: WireValue) -> Option<PageView> {
    match raw {
        WireValue::Object(fields) => {
            let f = fields@;
            let kind = page_type_of(field(f, "type"@));
            let id = required_uri(field(f, "id"@));
            let attributed_to = attributed_to_of(field(f, "attributedTo"@));
            let to = addressed(field(f, "to"@), false);
            let name = optional_text(field(f, "name"@));
            let cc = addressed(field(f, "cc"@), true);
            let content = optional_text(field(f, "content"@));
            let media_type = media_type_of(field(f, "mediaType"@));
            let source = source_of(field(f, "source"@));
            let attachment = attachments_of(field(f, "attachment"@));
            let image = image_object_of(field(f, "image"@));
            let comments_enabled = optional_flag(field(f, "commentsEnabled"@));
            let sensitive = optional_flag(field(f, "sensitive"@));
            let published = optional_time(field(f, "published"@));
            let updated = optional_time(field(f, "updated"@));
            let language = language_of(field(f, "language"@));
            let audience = optional_uri(field(f, "audience"@));
            if kind is Some && id is Some && attributed_to is Some && to is Some && absent(
                field(f, "inReplyTo"@),
            ) && name is Some && cc is Some && content is Some && media_type is Some && source is Some
                && attachment is Some && image is Some && comments_enabled is Some && sensitive is Some
                && published is Some && updated is Some && language is Some && audience is Some {
                Some(
                    PageView {
                        kind: kind->0,
                        id: id->0,
                        attributed_to: attributed_to->0,
                        to: to->0,
                        in_reply_to: None,
                        name: name->0,
                        cc: cc->0,
                        content: content->0,
                        media_type: media_type->0,
                        source: source->0,
                        attachment: attachment->0,
                        image: image->0,
                        comments_enabled: comments_enabled->0,
                        sensitive: sensitive->0,
                        published: published->0,
                        updated: updated->0,
                        language: language->0,
                        audience: audience->0,
                    },
                )
            } else {
                None
            }
        },
        _ => None,
    }
}

fn parse_actor_kind(fields: &Vec<WireField>) -> (r: Result<PersonOrGroupType, ErrorKind>)
    ensures
        reads(r, actor_kind_of(field(fields@, "type"@))),
{
    if has_tag(fields, "type", "Person") {
        Ok(PersonOrGroupType::Person)
    } else if has_tag(fields, "type", "Group") {
        Ok(PersonOrGroupType::Group)
    } else {
        Err(ErrorKind::MalformedObject)
    }
}

fn parse_actor(raw: &WireValue) -> (r: Result<AttributedToPeertube, ErrorKind>)
    ensures
        reads(r, actor_of(*raw)),
{
    match raw {
        WireValue::Object(fields) => {
            let kind = parse_actor_kind(fields)?;
            let id = read_required_uri(fields, "id")?;
            Ok(AttributedToPeertube { kind, id })
        },
        _ => Err(ErrorKind::MalformedObject),
    }
}

fn parse_attributed_to(fields: &Vec<WireField>) -> (r: Result<AttributedTo, ErrorKind>)
    ensures
        reads(r, attributed_to_of(field(fields@, "attributedTo"@))),
{
    match lookup(fields, "attributedTo") {
        Lookup::One(v) => match read_uri(v) {
            Ok(u) => Ok(AttributedTo::Lemmy(u)),
            Err(_) => match v {
                WireValue::List(items) => {
                    if items.len() != 2 {
                        return Err(ErrorKind::MalformedObject);
                    }
                    let first = parse_actor(&items[0])?;
                    let second = parse_actor(&items[1])?;
                    let pair = [first, second];
                    assert(pair.deep_view() =~= seq![first.deep_view(), second.deep_view()]);
                    Ok(AttributedTo::Peertube(pair))
                },
                _ => Err(ErrorKind::MalformedObject),
            },
        },
        _ => Err(ErrorKind::MalformedObject),
    }
}

fn parse_source(fields: &Vec<WireField>) -> (r: Result<Option<Source>, ErrorKind>)
    ensures
        reads(r, source_of(field(fields@, "source"@))),
{
    match lookup(fields, "source") {
        Lookup::Repeated => Err(ErrorKind::MalformedObject),
        Lookup::One(WireValue::Object(inner)) => {
            if !has_tag(inner, "mediaType", "text/markdown") {
                return Ok(None);
            }
            match read_required_text(inner, "content") {
                Ok(content) => Ok(Some(Source { content })),
                Err(_) => Ok(None),
            }
        },
        _ => Ok(None),
    }
}

fn parse_image_object(fields: &Vec<WireField>) -> (r: Result<Option<ImageObject>, ErrorKind>)
    ensures
        reads(r, image_object_of(field(fields@, "image"@))),
{
    match lookup(fields, "image") {
        Lookup::Missing => Ok(None),
        Lookup::One(WireValue::Null) => Ok(None),
        Lookup::One(WireValue::Object(inner)) => {
            if !has_tag(inner, "type", "Image") {
                return Err(ErrorKind::MalformedObject);
            }
            let url = read_required_uri(inner, "url")?;
            Ok(Some(ImageObject { url }))
        },
        _ => Err(ErrorKind::MalformedObject),
    }
}

fn parse_language(fields: &Vec<WireField>) -> (r: Result<Option<LanguageTag>, ErrorKind>)
    ensures
        reads(r, language_of(field(fields@, "language"@))),
{
    match lookup(fields, "language") {
        Lookup::Missing => Ok(None),
        Lookup::One(WireValue::Null) => Ok(None),
        Lookup::One(WireValue::Object(inner)) => {
            let identifier = read_required_text(inner, "identifier")?;
            let name = read_required_text(inner, "name")?;
            Ok(Some(LanguageTag { identifier, name }))
        },
        _ => Err(ErrorKind::MalformedObject),
    }
}

fn parse_page_type(fields: &Vec<WireField>) -> (r: Result<PageType, ErrorKind>)
    ensures
        reads(r, page_type_of(field(fields@, "type"@))),
{
    if has_tag(fields, "type", "Page") {
        Ok(PageType::Page)
    } else if has_tag(fields, "type", "Article") {
        Ok(PageType::Article)
    } else if has_tag(fields, "type", "Note") {
        Ok(PageType::Note)
    } else if has_tag(fields, "type", "Video") {
        Ok(PageType::Video)
    } else if has_tag(fields, "type", "Event") {
        Ok(PageType::Event)
    } else {
        Err(ErrorKind::MalformedObject)
    }
}

fn is_absent(fields: &Vec<WireField>, name: &str) -> (r: bool)
    ensures
        r == absent(field(fields@, name@)),
{
    match lookup(fields, name) {
        Lookup::Missing => true,
        Lookup::One(WireValue::Null) => true,
        _ => false,
    }
}

fn parse_media_type(fields: &Vec<WireField>) -> (r: Result<Option<MediaTypeMarkdownOrHtml>, ErrorKind>)
    ensures
        reads(r, media_type_of(field(fields@, "mediaType"@))),
{
    if is_absent(fields, "mediaType") {
        Ok(None)
    } else if has_tag(fields, "mediaType", "text/markdown") {
        Ok(Some(MediaTypeMarkdownOrHtml::Markdown))
    } else if has_tag(fields, "mediaType", "text/html") {
        Ok(Some(MediaTypeMarkdownOrHtml::Html))
    } else {
        Err(ErrorKind::MalformedObject)
    }
}

impl Page {
    /// Reads a post from a payload.
    pub fn parse(raw: &WireValue) -> (r: Result<Page, ErrorKind>)
        ensures
            reads(r, page_of(*raw)),
    {
        match raw {
            WireValue::Object(fields) => {
                let kind = parse_page_type(fields)?;
                let id = read_required_uri(fields, "id")?;
                let attributed_to = parse_attributed_to(fields)?;
                let to = read_addressed(fields, "to", false)?;
                let in_reply_to = deserialize_not_present(read_optional_text(fields, "inReplyTo")?)?;
                let name = read_optional_text(fields, "name")?;
                let cc = read_addressed(fields, "cc", true)?;
                let content = read_optional_text(fields, "content")?;
                let media_type = parse_media_type(fields)?;
                let source = parse_source(fields)?;
                let attachment = parse_attachments(fields)?;
                let image = parse_image_object(fields)?;
                let comments_enabled = read_optional_flag(fields, "commentsEnabled")?;
                let sensitive = read_optional_flag(fields, "sensitive")?;
                let published = read_optional_time(fields, "published")?;
                let updated = read_optional_time(fields, "updated")?;
                let language = parse_language(fields)?;
                let audience = read_optional_uri(fields, "audience")?;
                Ok(
                    Page {
                        kind,
                        id,
                        attributed_to,
                        to,
                        in_reply_to,
                        name,
                        cc,
                        content,
                        media_type,
                        source,
                        attachment,
                        image,
                        comments_enabled,
                        sensitive,
                        published,
                        updated,
                        language,
                        audience,
                    },
                )
            },
            _ => Err(ErrorKind::MalformedObject),
        }
    }
}

/// Whether `raw` is an object of type `tag` that carries the address `url`
/// under `key` and the alternative text `alt` as its name.
pub open spec fn carries(
    raw: WireValue,
    tag: Seq<char>,
    key: Seq<char>,
    url: Seq<char>,
    alt: Option<Seq<char>>,
) -> bool {
    &&& raw is Object
    &&& tagged(field(raw->Object_0@, "type"@), tag)
    &&& required_text(field(raw->Object_0@, key)) == Some(url)
    &&& optional_text(field(raw->Object_0@, "name"@)) == Some(alt)
}

/// Whether `raw` is read as an attachment exactly where the text `url` is a
/// URL, and then as one that stands for that URL and the alternative text
/// `alt`.
pub open spec fn stands_for(raw: WireValue, url: Seq<char>, alt: Option<Seq<char>>) -> bool {
    match url_parse(url) {
        Some(u) => attachment_of(raw) is Some && attachment_of(raw)->0.url() == u && attachment_of(
            raw,
        )->0.alt_text() == alt,
        None => attachment_of(raw) is None,
    }
}

/// The three shapes of an attachment stand for the same thing. A link, an
/// image and a document that carry one address and one alternative text
/// are read alike: where the address is a URL, each gives that URL and that
/// text; where it is none, none of them is an attachment.
pub proof fn law_attachment_shapes_agree(
    link: WireValue,
    image: WireValue,
    document: WireValue,
    url: Seq<char>,
    alt: Option<Seq<char>>,
)
    requires
        carries(link, "Link"@, "href"@, url, alt),
        optional_text(field(link->Object_0@, "mediaType"@)) is Some,
        carries(image, "Image"@, "url"@, url, alt),
        carries(document, "Document"@, "url"@, url, alt),
    ensures
        stands_for(link, url, alt),
        stands_for(image, url, alt),
        stands_for(document, url, alt),
        attachment_of(link) is Some ==> attachment_of(link)->0 is Link,
        attachment_of(image) is Some ==> attachment_of(image)->0 is Image,
        attachment_of(document) is Some ==> attachment_of(document)->0 is Document,
{
    reveal_strlit("Link");
    reveal_strlit("Image");
    reveal_strlit("Document");
    assert("Link"@ != "Image"@) by {
        assert("Link"@[0] == 'L');
        assert("Image"@[0] == 'I');
    }
    assert("Link"@ != "Document"@) by {
        assert("Link"@[0] == 'L');
        assert("Document"@[0] == 'D');
    }
    assert("Image"@ != "Document"@) by {
        assert("Image"@[0] == 'I');
        assert("Document"@[0] == 'D');
    }
}

/// A payload that replies to something is no post: with anything but null
/// in the place of the reply marker it spells none, whatever else it holds.
pub proof fn law_reply_is_no_page(raw: WireValue)
    requires
        raw is Object,
        !absent(field(raw->Object_0@, "inReplyTo"@)),
    ensures
        page_of(raw) is None,
{
}

} // verus!
