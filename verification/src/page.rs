use vstd::prelude::*;
use crate::error::ErrorKind;
use crate::records::Post;
use crate::seqs::{first_where, lemma_first_where_found, lemma_first_where_none};
use crate::text::starts_with;
use crate::time::Timestamp;
use crate::uri::Uri;

verus! {

/// The labels under which peers send what is, to this site, a post.
#[derive(Clone, Copy, Debug, PartialEq, Eq, Structural)]
pub enum PageType {
    Page,
    Article,
    Note,
    Video,
    Event,
}

/// The media types that the rendered content of a post may have.
#[derive(Clone, Copy, Debug, PartialEq, Eq, Structural)]
pub enum MediaTypeMarkdownOrHtml {
    Markdown,
    Html,
}

/// The markdown that the rendered content was made from.
#[derive(Debug)]
pub struct Source {
    pub content: String,
}

/// A picture that stands for the post.
#[derive(Debug)]
pub struct ImageObject {
    pub url: Uri,
}

/// The language that the post is written in.
#[derive(Debug)]
pub struct LanguageTag {
    pub identifier: String,
    pub name: String,
}

/// An attachment as a link: what this software sends.
#[derive(Debug)]
pub struct Link {
    pub href: Uri,
    pub media_type: Option<String>,
    /// Used as the alternative text.
    pub name: Option<String>,
}

/// An attachment as an image.
#[derive(Debug)]
pub struct Image {
    pub url: Uri,
    /// Used as the alternative text.
    pub name: Option<String>,
}

/// An attachment as a document.
#[derive(Debug)]
pub struct Document {
    pub url: Uri,
    /// Used as the alternative text.
    pub name: Option<String>,
}

/// The three shapes in which peers send a media attachment. The shape only
/// matters on the wire: each stands for an address and an optional
/// alternative text.
#[derive(Debug)]
pub enum Attachment {
    Link(Link),
    Image(Image),
    Document(Document),
}

/// Whether a media type is that of an image.
pub open spec fn is_image(media_type: Option<String>) -> bool {
    media_type matches Some(m) && "image"@.is_prefix_of(m@)
}

impl Attachment {
    /// The address that the attachment stands for.
    pub open spec fn spec_url(self) -> Uri {
        match self {
            Attachment::Link(l) => l.href,
            Attachment::Image(i) => i.url,
            Attachment::Document(d) => d.url,
        }
    }

    /// The alternative text that the attachment carries.
    pub open spec fn spec_alt_text(self) -> Option<String> {
        match self {
            Attachment::Link(l) => l.name,
            Attachment::Image(i) => i.name,
            Attachment::Document(d) => d.name,
        }
    }

    /// The address that the attachment stands for, whatever its shape.
    pub fn url(self) -> (r: Uri)
        ensures
            r == self.spec_url(),
            r@ == self.deep_view().url(),
    {
        match self {
            Attachment::Link(l) => l.href,
            Attachment::Image(i) => i.url,
            Attachment::Document(d) => d.url,
        }
    }

    /// The alternative text that the attachment carries, whatever its shape.
    pub fn alt_text(self) -> (r: Option<String>)
        ensures
            r == self.spec_alt_text(),
            r.deep_view() == self.deep_view().alt_text(),
    {
        match self {
            Attachment::Link(l) => l.name,
            Attachment::Image(i) => i.name,
            Attachment::Document(d) => d.name,
        }
    }

    /// The attachment for an address and its media type: an image where the
    /// media type is one of an image, else a link that keeps the media type.
    pub fn new(url: Uri, media_type: Option<String>, name: Option<String>) -> (r: Attachment)
        ensures
            r == (if is_image(media_type) {
                Attachment::Image(Image { url, name })
            } else {
                Attachment::Link(Link { href: url, media_type, name })
            }),
    {
        let is_image = match &media_type {
            Some(m) => starts_with(m.as_str(), "image"),
            None => false,
        };
        if is_image {
            Attachment::Image(Image { url, name })
        } else {
            Attachment::Link(Link { href: url, media_type, name })
        }
    }
}

/// The role under which a two-actor attribution lists an actor.
#[derive(Clone, Copy, Debug, PartialEq, Eq, Structural)]
pub enum PersonOrGroupType {
    Person,
    Group,
}

/// One entry of a two-actor attribution.
#[derive(Debug)]
pub struct AttributedToPeertube {
    pub kind: PersonOrGroupType,
    pub id: Uri,
}

/// Who a post is attributed to: its creator alone, or a pair of actors with
/// their roles, of which one is the creator and one the owning group.
#[derive(Debug)]
pub enum AttributedTo {
    Lemmy(Uri),
    Peertube([AttributedToPeertube; 2]),
}

/// The first entry of `actors` listed under `kind`.
pub open spec fn first_of_kind(actors: Seq<AttributedToPeertube>, kind: PersonOrGroupType) -> Option<
    AttributedToPeertube,
> {
    first_where(actors, |a: AttributedToPeertube| a.kind == kind)
}

/// The creator that an attribution names.
pub open spec fn creator_of(attributed_to: AttributedTo) -> Result<Uri, ErrorKind> {
    match attributed_to {
        AttributedTo::Lemmy(l) => Ok(l),
        AttributedTo::Peertube(p) => match first_of_kind(p@, PersonOrGroupType::Person) {
            Some(a) => Ok(a.id),
            None => Err(ErrorKind::MissingCreator),
        },
    }
}

/// The owning group that a two-actor attribution names.
pub open spec fn group_of(actors: Seq<AttributedToPeertube>) -> Result<Uri, ErrorKind> {
    match first_of_kind(actors, PersonOrGroupType::Group) {
        Some(a) => Ok(a.id),
        None => Err(ErrorKind::MissingGroup),
    }
}

/// Looks through a two-actor attribution for the first entry of a kind.
pub fn find_actor(actors: &[AttributedToPeertube; 2], kind: PersonOrGroupType) -> (r: Option<Uri>)
    ensures
        r == match first_of_kind(actors@, kind) {
            Some(a) => Some(a.id),
            None => None,
        },
{
    let ghost p = |a: AttributedToPeertube| a.kind == kind;
    let mut i: usize = 0;
    while i < 2
        invariant
            i <= 2,
            actors@.len() == 2,
            p == (|a: AttributedToPeertube| a.kind == kind),
            forall|j: int| 0 <= j < i ==> !p(#[trigger] actors@[j]),
        decreases 2 - i,
    {
        if actors[i].kind == kind {
            proof {
                lemma_first_where_found(actors@, p, i as int);
            }
            return Some(actors[i].id.clone());
        }
        i += 1;
    }
    proof {
        lemma_first_where_none(actors@, p);
    }
    None
}

/// A post as peers send it. It is built from an inbound payload, checked,
/// and then stored or dropped.
#[derive(Debug)]
pub struct Page {
    pub kind: PageType,
    pub id: Uri,
    pub attributed_to: AttributedTo,
    pub to: Vec<Uri>,
    /// A payload that replies to something is a comment, not a post: this is
    /// never set.
    pub in_reply_to: Option<String>,
    pub name: Option<String>,
    pub cc: Vec<Uri>,
    pub content: Option<String>,
    pub media_type: Option<MediaTypeMarkdownOrHtml>,
    pub source: Option<Source>,
    /// Peers send a list; only the first entry is used.
    pub attachment: Vec<Attachment>,
    pub image: Option<ImageObject>,
    pub comments_enabled: Option<bool>,
    pub sensitive: Option<bool>,
    pub published: Option<Timestamp>,
    pub updated: Option<Timestamp>,
    pub language: Option<LanguageTag>,
    pub audience: Option<Uri>,
}

/// Whether an update changes the lock of a post, given the stored post (or
/// the failure to find it) and the `commentsEnabled` flag of the update.
pub open spec fn locked_changed<E>(old_post: Result<Post, E>, new_comments_enabled: Option<bool>) -> bool {
    &&& new_comments_enabled is Some
    &&& old_post is Ok
    &&& new_comments_enabled->0 != !old_post->Ok_0.locked
}

impl Page {
    /// Only moderators may change the lock of a post, so an update whose
    /// `commentsEnabled` differs from what the stored lock implies is a
    /// moderator action. Without a flag, or without a stored post, it is not.
    pub fn is_locked_changed<E>(old_post: &Result<Post, E>, new_comments_enabled: &Option<bool>) -> (r: bool)
        ensures
            r == locked_changed(*old_post, *new_comments_enabled),
    {
        if let Some(new_comments_enabled) = new_comments_enabled {
            if let Ok(old_post) = old_post {
                return *new_comments_enabled != !old_post.locked;
            }
        }
        false
    }

    /// The attachment that counts. Peers send a list, of which only the
    /// first entry is used.
    pub fn first_attachment(&self) -> (r: Option<&Attachment>)
        ensures
            r == (if self.attachment@.len() > 0 {
                Some(&self.attachment@[0])
            } else {
                None
            }),
    {
        if self.attachment.len() > 0 {
            Some(&self.attachment[0])
        } else {
            None
        }
    }

    /// The creator of the post: the attributed actor itself, or of a pair of
    /// actors the first that is listed as a person.
    pub fn creator(&self) -> (r: Result<Uri, ErrorKind>)
        ensures
            r == creator_of(self.attributed_to),
    {
        match &self.attributed_to {
            AttributedTo::Lemmy(l) => Ok(l.clone()),
            AttributedTo::Peertube(p) => match find_actor(p, PersonOrGroupType::Person) {
                Some(id) => Ok(id),
                None => Err(ErrorKind::MissingCreator),
            },
        }
    }
}

/// Text of the refusal of a payload that replies to something.
pub const MUST_NOT_HAVE_IN_REPLY_TO: &'static str = "Post must not have inReplyTo property";

/// Lets a reply marker pass only where there is none: what a post carries in
/// that place must be missing or null.
pub fn deserialize_not_present(result: Option<String>) -> (r: Result<Option<String>, ErrorKind>)
    ensures
        r == (match result {
            None => Ok::<Option<String>, ErrorKind>(None),
            Some(_) => Err::<Option<String>, ErrorKind>(ErrorKind::MalformedObject),
        }),
{
    match result {
        None => Ok(None),
        Some(_) => Err(ErrorKind::MalformedObject),
    }
}

/// Of a pair of actors with exactly one person, the creator is that
/// person, in whichever order the pair is listed.
pub proof fn law_creator_in_any_order(
    person: AttributedToPeertube,
    other: AttributedToPeertube,
    listed_first: [AttributedToPeertube; 2],
    listed_last: [AttributedToPeertube; 2],
)
    requires
        person.kind == PersonOrGroupType::Person,
        other.kind != PersonOrGroupType::Person,
        listed_first@ == seq![person, other],
        listed_last@ == seq![other, person],
    ensures
        creator_of(AttributedTo::Peertube(listed_first)) == Ok::<Uri, ErrorKind>(person.id),
        creator_of(AttributedTo::Peertube(listed_last)) == Ok::<Uri, ErrorKind>(person.id),
{
    let p = |a: AttributedToPeertube| a.kind == PersonOrGroupType::Person;
    lemma_first_where_found(listed_first@, p, 0);
    lemma_first_where_found(listed_last@, p, 1);
}

/// A pair of actors without a person names no creator.
pub proof fn law_creator_missing(actors: [AttributedToPeertube; 2])
    requires
        actors@[0].kind != PersonOrGroupType::Person,
        actors@[1].kind != PersonOrGroupType::Person,
    ensures
        creator_of(AttributedTo::Peertube(actors)) == Err::<Uri, ErrorKind>(ErrorKind::MissingCreator),
{
    let p = |a: AttributedToPeertube| a.kind == PersonOrGroupType::Person;
    assert(actors@.len() == 2);
    lemma_first_where_none(actors@, p);
}

impl DeepView for PageType {
    type V = PageType;

    open spec fn deep_view(&self) -> PageType {
        *self
    }
}

impl DeepView for MediaTypeMarkdownOrHtml {
    type V = MediaTypeMarkdownOrHtml;

    open spec fn deep_view(&self) -> MediaTypeMarkdownOrHtml {
        *self
    }
}

/// The mathematical content of a [`Source`].
pub struct SourceView {
    pub content: Seq<char>,
}

impl DeepView for Source {
    type V = SourceView;

    open spec fn deep_view(&self) -> SourceView {
        SourceView { content: self.content@ }
    }
}

/// The mathematical content of an [`ImageObject`].
pub struct ImageObjectView {
    pub url: Seq<char>,
}

impl DeepView for ImageObject {
    type V = ImageObjectView;

    open spec fn deep_view(&self) -> ImageObjectView {
        ImageObjectView { url: self.url@ }
    }
}

/// The mathematical content of a [`LanguageTag`].
pub struct LanguageTagView {
    pub identifier: Seq<char>,
    pub name: Seq<char>,
}

impl DeepView for LanguageTag {
    type V = LanguageTagView;

    open spec fn deep_view(&self) -> LanguageTagView {
        LanguageTagView { identifier: self.identifier@, name: self.name@ }
    }
}

/// The mathematical content of a [`Link`].
pub struct LinkView {
    pub href: Seq<char>,
    pub media_type: Option<Seq<char>>,
    pub name: Option<Seq<char>>,
}

impl DeepView for Link {
    type V = LinkView;

    open spec fn deep_view(&self) -> LinkView {
        LinkView {
            href: self.href@,
            media_type: self.media_type.deep_view(),
            name: self.name.deep_view(),
        }
    }
}

/// The mathematical content of an [`Image`].
pub struct ImageView {
    pub url: Seq<char>,
    pub name: Option<Seq<char>>,
}

impl DeepView for Image {
    type V = ImageView;

    open spec fn deep_view(&self) -> ImageView {
        ImageView { url: self.url@, name: self.name.deep_view() }
    }
}

/// The mathematical content of a [`Document`].
pub struct DocumentView {
    pub url: Seq<char>,
    pub name: Option<Seq<char>>,
}

impl DeepView for Document {
    type V = DocumentView;

    open spec fn deep_view(&self) -> DocumentView {
        DocumentView { url: self.url@, name: self.name.deep_view() }
    }
}

/// The mathematical content of an [`Attachment`].
pub enum AttachmentView {
    Link(LinkView),
    Image(ImageView),
    Document(DocumentView),
}

impl AttachmentView {
    /// The address that the attachment stands for.
    pub open spec fn url(self) -> Seq<char> {
        match self {
            AttachmentView::Link(l) => l.href,
            AttachmentView::Image(i) => i.url,
            AttachmentView::Document(d) => d.url,
        }
    }

    /// The alternative text that the attachment carries.
    pub open spec fn alt_text(self) -> Option<Seq<char>> {
        match self {
            AttachmentView::Link(l) => l.name,
            AttachmentView::Image(i) => i.name,
            AttachmentView::Document(d) => d.name,
        }
    }
}

impl DeepView for Attachment {
    type V = AttachmentView;

    open spec fn deep_view(&self) -> AttachmentView {
        match self {
            Attachment::Link(l) => AttachmentView::Link(l.deep_view()),
            Attachment::Image(i) => AttachmentView::Image(i.deep_view()),
            Attachment::Document(d) => AttachmentView::Document(d.deep_view()),
        }
    }
}

impl DeepView for PersonOrGroupType {
    type V = PersonOrGroupType;

    open spec fn deep_view(&self) -> PersonOrGroupType {
        *self
    }
}

/// The mathematical content of an [`AttributedToPeertube`].
pub struct ActorView {
    pub kind: PersonOrGroupType,
    pub id: Seq<char>,
}

impl DeepView for AttributedToPeertube {
    type V = ActorView;

    open spec fn deep_view(&self) -> ActorView {
        ActorView { kind: self.kind, id: self.id@ }
    }
}

/// The mathematical content of an [`AttributedTo`].
pub enum AttributedToView {
    Lemmy(Seq<char>),
    Peertube(Seq<ActorView>),
}

impl DeepView for AttributedTo {
    type V = AttributedToView;

    open spec fn deep_view(&self) -> AttributedToView {
        match self {
            AttributedTo::Lemmy(l) => AttributedToView::Lemmy(l@),
            AttributedTo::Peertube(p) => AttributedToView::Peertube(p.deep_view()),
        }
    }
}

/// The mathematical content of a [`Page`].
pub struct PageView {
    pub kind: PageType,
    pub id: Seq<char>,
    pub attributed_to: AttributedToView,
    pub to: Seq<Seq<char>>,
    pub in_reply_to: Option<Seq<char>>,
    pub name: Option<Seq<char>>,
    pub cc: Seq<Seq<char>>,
    pub content: Option<Seq<char>>,
    pub media_type: Option<MediaTypeMarkdownOrHtml>,
    pub source: Option<SourceView>,
    pub attachment: Seq<AttachmentView>,
    pub image: Option<ImageObjectView>,
    pub comments_enabled: Option<bool>,
    pub sensitive: Option<bool>,
    pub published: Option<Timestamp>,
    pub updated: Option<Timestamp>,
    pub language: Option<LanguageTagView>,
    pub audience: Option<Seq<char>>,
}

impl DeepView for Page {
    type V = PageView;

    open spec fn deep_view(&self) -> PageView {
        PageView {
            kind: self.kind,
            id: self.id@,
            attributed_to: self.attributed_to.deep_view(),
            to: self.to.deep_view(),
            in_reply_to: self.in_reply_to.deep_view(),
            name: self.name.deep_view(),
            cc: self.cc.deep_view(),
            content: self.content.deep_view(),
            media_type: self.media_type,
            source: self.source.deep_view(),
            attachment: self.attachment.deep_view(),
            image: self.image.deep_view(),
            comments_enabled: self.comments_enabled,
            sensitive: self.sensitive,
            published: self.published,
            updated: self.updated,
            language: self.language.deep_view(),
            audience: self.audience.deep_view(),
        }
    }
}

} // verus!
