//! Chat messages: the pieces a message is made of, and the text shown for them.

use vstd::prelude::*;
use crate::decimal::{i64_to_string, int_text};
use crate::strings::{owned, push_str};

verus! {

/// One piece of a received message, as the client shows it.
#[derive(Debug, Clone, PartialEq, Eq)]
pub enum Content {
    Text(String),
    Image { url: String, filename: String },
}

/// The mathematical value of a [`Content`].
pub enum ContentView {
    Text(Seq<char>),
    Image { url: Seq<char>, filename: Seq<char> },
}

impl View for Content {
    type V = ContentView;

    open spec fn view(&self) -> ContentView {
        match self {
            Content::Text(t) => ContentView::Text(t@),
            Content::Image { url, filename } => ContentView::Image { url: url@, filename: filename@ },
        }
    }
}

/// The label shown in place of a picture.
pub open spec fn picture_label() -> Seq<char> {
    "[图片]"@
}

/// The text shown for one piece of a message.
pub open spec fn content_text(c: ContentView) -> Seq<char> {
    match c {
        ContentView::Text(t) => t,
        ContentView::Image { .. } => picture_label(),
    }
}

/// The text shown for a whole message: the texts of its pieces, one after another.
pub open spec fn contents_text(cs: Seq<ContentView>) -> Seq<char>
    decreases cs.len(),
{
    if cs.len() == 0 {
        Seq::empty()
    } else {
        contents_text(cs.drop_last()) + content_text(cs.last())
    }
}

/// The views of a sequence of contents.
pub open spec fn contents_view(cs: Seq<Content>) -> Seq<ContentView> {
    cs.map_values(|c: Content| c@)
}

impl Content {
    /// The text shown for this piece: a text as it is, a picture as a label.
    pub fn text(&self) -> (r: String)
        ensures
            r@ == content_text(self@),
    {
        match self {
            Content::Text(text) => text.clone(),
            Content::Image { .. } => owned("[图片]"),
        }
    }

    /// A copy of this piece.
    pub fn duplicate(&self) -> (r: Content)
        ensures
            r@ == self@,
    {
        match self {
            Content::Text(t) => Content::Text(t.clone()),
            Content::Image { url, filename } => Content::Image { url: url.clone(), filename: filename.clone() },
        }
    }
}

/// Law: the text of two runs of pieces is the text of the first followed by
/// that of the second.
pub proof fn law_contents_text_concat(a: Seq<ContentView>, b: Seq<ContentView>)
    ensures
        contents_text(a + b) == contents_text(a) + contents_text(b),
    decreases b.len(),
{
    if b.len() == 0 {
        assert(a + b =~= a);
        assert(contents_text(a) + contents_text(b) =~= contents_text(a));
    } else {
        law_contents_text_concat(a, b.drop_last());
        assert((a + b).drop_last() =~= a + b.drop_last());
        assert((a + b).last() == b.last());
        assert(contents_text(a + b) =~= contents_text(a) + contents_text(b));
    }
}

/// The text shown for a whole message (the texts of `contents` joined).
pub fn get_text_from(contents: &[Content]) -> (r: String)
    ensures
        r@ == contents_text(contents@.map_values(|c: Content| c@)),
{
    let ghost cs = contents@.map_values(|c: Content| c@);
    let mut out = String::new();
    let mut i: usize = 0;
    while i < contents.len()
        invariant
            0 <= i <= contents.len(),
            cs == contents@.map_values(|c: Content| c@),
            out@ == contents_text(cs.subrange(0, i as int)),
        decreases contents.len() - i,
    {
        let piece = contents[i].text();
        push_str(&mut out, piece.as_str());
        proof {
            assert(cs.subrange(0, i + 1).drop_last() =~= cs.subrange(0, i as int));
            assert(cs.subrange(0, i + 1).last() == contents@[i as int]@);
        }
        i = i + 1;
    }
    proof {
        assert(cs.subrange(0, contents@.len() as int) =~= cs);
    }
    out
}

/// A received message: who sent it and what it holds.
#[derive(Debug, Clone, PartialEq, Eq)]
pub struct Message {
    pub sender_id: i64,
    pub sender_name: String,
    pub contents: Vec<Content>,
}

impl Message {
    /// The text shown for this message.
    pub fn text(&self) -> (r: String)
        ensures
            r@ == contents_text(contents_view(self.contents@)),
    {
        get_text_from(self.contents.as_slice())
    }
}

/// The hand shown in a finger-guessing game.
#[derive(Debug, Clone, PartialEq, Eq)]
pub enum FingerGuessing {
    Rock,
    Scissors,
    Paper,
}

/// A picture that can be opened only once, sent by a friend or in a group.
#[derive(Debug, Clone, PartialEq, Eq)]
pub enum FlashImage {
    FriendImage { url: String, file_path: String },
    GroupImage { url: String, file_path: String },
}

/// The mathematical value of a [`FlashImage`].
pub enum FlashImageView {
    FriendImage { url: Seq<char>, file_path: Seq<char> },
    GroupImage { url: Seq<char>, file_path: Seq<char> },
}

impl View for FlashImage {
    type V = FlashImageView;

    open spec fn view(&self) -> FlashImageView {
        match self {
            FlashImage::FriendImage { url, file_path } => FlashImageView::FriendImage { url: url@, file_path: file_path@ },
            FlashImage::GroupImage { url, file_path } => FlashImageView::GroupImage { url: url@, file_path: file_path@ },
        }
    }
}

/// The file path of a flash picture.
pub open spec fn flash_image_path(image: FlashImageView) -> Seq<char> {
    match image {
        FlashImageView::FriendImage { file_path, .. } => file_path,
        FlashImageView::GroupImage { file_path, .. } => file_path,
    }
}

/// The address of a flash picture.
pub open spec fn flash_image_url(image: FlashImageView) -> Seq<char> {
    match image {
        FlashImageView::FriendImage { url, .. } => url,
        FlashImageView::GroupImage { url, .. } => url,
    }
}

/// The file path of a flash picture, whoever sent it.
pub fn get_flash_image_path(image: FlashImage) -> (r: String)
    ensures
        r@ == flash_image_path(image@),
{
    match image {
        FlashImage::FriendImage { file_path, .. } => file_path,
        FlashImage::GroupImage { file_path, .. } => file_path,
    }
}

/// One element of a message as the server delivers it.
#[derive(Debug, Clone, PartialEq, Eq)]
pub enum Element {
    At { target: i64, display: String },
    Text { content: String },
    Face { name: String },
    MarketFace { name: String },
    Dice { value: i32 },
    FingerGuessing(FingerGuessing),
    LightApp,
    RichMsg,
    FriendImage { url: String, file_path: String },
    GroupImage { url: String, file_path: String },
    FlashImage(FlashImage),
    VideoFile,
    Other,
}

/// The mathematical value of an [`Element`].
pub enum ElementView {
    At { target: i64, display: Seq<char> },
    Text { content: Seq<char> },
    Face { name: Seq<char> },
    MarketFace { name: Seq<char> },
    Dice { value: i32 },
    FingerGuessing(FingerGuessing),
    LightApp,
    RichMsg,
    FriendImage { url: Seq<char>, file_path: Seq<char> },
    GroupImage { url: Seq<char>, file_path: Seq<char> },
    FlashImage(FlashImageView),
    VideoFile,
    Other,
}

impl View for Element {
    type V = ElementView;

    open spec fn view(&self) -> ElementView {
        match self {
            Element::At { target, display } => ElementView::At { target: *target, display: display@ },
            Element::Text { content } => ElementView::Text { content: content@ },
            Element::Face { name } => ElementView::Face { name: name@ },
            Element::MarketFace { name } => ElementView::MarketFace { name: name@ },
            Element::Dice { value } => ElementView::Dice { value: *value },
            Element::FingerGuessing(g) => ElementView::FingerGuessing(*g),
            Element::LightApp => ElementView::LightApp,
            Element::RichMsg => ElementView::RichMsg,
            Element::FriendImage { url, file_path } => ElementView::FriendImage { url: url@, file_path: file_path@ },
            Element::GroupImage { url, file_path } => ElementView::GroupImage { url: url@, file_path: file_path@ },
            Element::FlashImage(f) => ElementView::FlashImage(f@),
            Element::VideoFile => ElementView::VideoFile,
            Element::Other => ElementView::Other,
        }
    }
}

/// `[name]`: how a mention, a face or a sticker is written into the text.
pub open spec fn bracketed(inner: Seq<char>) -> Seq<char> {
    "["@ + inner + "]"@
}

/// `[display(target)]`: how a mention is written into the text.
pub open spec fn mention_text(display: Seq<char>, target: i64) -> Seq<char> {
    "["@ + display + "("@ + int_text(target as int) + ")]"@
}

/// `[🎲(value)]`: how a dice throw is written into the text.
pub open spec fn dice_text(value: i32) -> Seq<char> {
    "[🎲("@ + int_text(value as int) + ")]"@
}

/// The text written for a hand in a finger-guessing game.
pub open spec fn finger_guessing_text(g: FingerGuessing) -> Seq<char> {
    match g {
        FingerGuessing::Rock => "[✊]"@,
        FingerGuessing::Scissors => "[✌]"@,
        FingerGuessing::Paper => "[✋]"@,
    }
}

/// What one element of a message becomes, if anything.
pub open spec fn element_content(e: ElementView) -> Option<ContentView> {
    match e {
        ElementView::At { target, display } => Some(ContentView::Text(mention_text(display, target))),
        ElementView::Text { content } => Some(ContentView::Text(content)),
        ElementView::Face { name } => Some(ContentView::Text(bracketed(name))),
        ElementView::MarketFace { name } => Some(ContentView::Text(bracketed(name))),
        ElementView::Dice { value } => Some(ContentView::Text(dice_text(value))),
        ElementView::FingerGuessing(g) => Some(ContentView::Text(finger_guessing_text(g))),
        ElementView::LightApp => Some(ContentView::Text("[LIGHT_APP MESSAGE]"@)),
        ElementView::RichMsg => Some(ContentView::Text("[RICH MESSAGE]"@)),
        ElementView::FriendImage { url, file_path } => Some(ContentView::Image { url, filename: file_path }),
        ElementView::GroupImage { url, file_path } => Some(ContentView::Image { url, filename: file_path }),
        ElementView::FlashImage(f) => Some(ContentView::Image { url: flash_image_url(f), filename: flash_image_path(f) }),
        ElementView::VideoFile => Some(ContentView::Text("[视频文件]"@)),
        ElementView::Other => None,
    }
}

/// What a run of elements becomes: the content of each element, in order,
/// leaving out the elements that have none.
pub open spec fn elements_contents(es: Seq<ElementView>) -> Seq<ContentView>
    decreases es.len(),
{
    if es.len() == 0 {
        Seq::empty()
    } else {
        match element_content(es.last()) {
            Some(c) => elements_contents(es.drop_last()).push(c),
            None => elements_contents(es.drop_last()),
        }
    }
}

/// Law: the text shown for a text piece is that text itself, line breaks
/// and all; only a picture is shown as a label.
pub proof fn law_text_piece_shown_unchanged(t: Seq<char>, url: Seq<char>, filename: Seq<char>)
    ensures
        content_text(ContentView::Text(t)) == t,
        content_text(ContentView::Image { url, filename }) == "[图片]"@,
{
}

/// Law: the pieces of a run of elements split anywhere are the pieces of
/// the first part followed by those of the second. So an element that is
/// not shown hides nothing after it: each element is shown, or skipped, on
/// its own.
pub proof fn law_elements_contents_concat(a: Seq<ElementView>, b: Seq<ElementView>)
    ensures
        elements_contents(a + b) == elements_contents(a) + elements_contents(b),
    decreases b.len(),
{
    if b.len() == 0 {
        assert(a + b =~= a);
        assert(elements_contents(a) + elements_contents(b) =~= elements_contents(a));
    } else {
        law_elements_contents_concat(a, b.drop_last());
        assert((a + b).drop_last() =~= a + b.drop_last());
        assert((a + b).last() == b.last());
        match element_content(b.last()) {
            Some(c) => {
                assert(elements_contents(a) + elements_contents(b.drop_last()).push(c)
                    =~= (elements_contents(a) + elements_contents(b.drop_last())).push(c));
            },
            None => {},
        }
    }
}

/// Law: a single element gives one piece, or none when it is not shown;
/// a text element gives its text unchanged.
pub proof fn law_single_element(e: ElementView, t: Seq<char>)
    ensures
        elements_contents(seq![e]) == (match element_content(e) {
            Some(c) => seq![c],
            None => Seq::<ContentView>::empty(),
        }),
        elements_contents(seq![ElementView::Text { content: t }]) == seq![ContentView::Text(t)],
        elements_contents(seq![ElementView::Other]) == Seq::<ContentView>::empty(),
{
    let none = Seq::<ElementView>::empty();
    assert(elements_contents(none) == Seq::<ContentView>::empty());
    assert(seq![e].drop_last() =~= none);
    assert(seq![e].last() == e);
    assert(elements_contents(seq![e]) == match element_content(e) {
        Some(c) => elements_contents(none).push(c),
        None => elements_contents(none),
    });
    let x = ElementView::Text { content: t };
    assert(seq![x].drop_last() =~= none);
    assert(elements_contents(seq![x]) == elements_contents(none).push(ContentView::Text(t)));
    assert(seq![x].last() == x);
    assert(Seq::<ContentView>::empty().push(ContentView::Text(t)) =~= seq![ContentView::Text(t)]);
    assert(seq![ElementView::Other].drop_last() =~= Seq::<ElementView>::empty());
    assert(seq![ElementView::Other].last() == ElementView::Other);
    match element_content(e) {
        Some(c) => {
            assert(Seq::<ContentView>::empty().push(c) =~= seq![c]);
        },
        None => {},
    }
}

/// The text of a mention.
fn mention(display: &String, target: i64) -> (r: String)
    ensures
        r@ == mention_text(display@, target),
{
    let mut out = owned("[");
    push_str(&mut out, display.as_str());
    push_str(&mut out, "(");
    let number = i64_to_string(target);
    push_str(&mut out, number.as_str());
    push_str(&mut out, ")]");
    out
}

/// The text of a face or a sticker.
fn bracket(name: &String) -> (r: String)
    ensures
        r@ == bracketed(name@),
{
    let mut out = owned("[");
    push_str(&mut out, name.as_str());
    push_str(&mut out, "]");
    out
}

/// What one element becomes, if anything.
fn content_of(element: &Element) -> (r: Option<Content>)
    ensures
        match element_content(element@) {
            Some(c) => r is Some && r->0@ == c,
            None => r is None,
        },
{
    match element {
        Element::At { target, display } => Some(Content::Text(mention(display, *target))),
        Element::Text { content } => Some(Content::Text(content.clone())),
        Element::Face { name } => Some(Content::Text(bracket(name))),
        Element::MarketFace { name } => Some(Content::Text(bracket(name))),
        Element::Dice { value } => {
            let mut out = owned("[🎲(");
            let number = i64_to_string(*value as i64);
            push_str(&mut out, number.as_str());
            push_str(&mut out, ")]");
            Some(Content::Text(out))
        },
        Element::FingerGuessing(g) => Some(Content::Text(match g {
            FingerGuessing::Rock => owned("[✊]"),
            FingerGuessing::Scissors => owned("[✌]"),
            FingerGuessing::Paper => owned("[✋]"),
        })),
        Element::LightApp => Some(Content::Text(owned("[LIGHT_APP MESSAGE]"))),
        Element::RichMsg => Some(Content::Text(owned("[RICH MESSAGE]"))),
        Element::FriendImage { url, file_path } => Some(Content::Image { url: url.clone(), filename: file_path.clone() }),
        Element::GroupImage { url, file_path } => Some(Content::Image { url: url.clone(), filename: file_path.clone() }),
        Element::FlashImage(image) => {
            let (url, path) = match image {
                FlashImage::FriendImage { url, file_path } => (url.clone(), file_path.clone()),
                FlashImage::GroupImage { url, file_path } => (url.clone(), file_path.clone()),
            };
            Some(Content::Image { url, filename: path })
        },
        Element::VideoFile => Some(Content::Text(owned("[视频文件]"))),
        Element::Other => None,
    }
}

/// The pieces of a received message, one for each element that is shown.
pub fn get_contents_from(elements: &[Element]) -> (r: Vec<Content>)
    ensures
        contents_view(r@) == elements_contents(elements@.map_values(|e: Element| e@)),
{
    let ghost es = elements@.map_values(|e: Element| e@);
    let mut contents: Vec<Content> = Vec::new();
    let mut i: usize = 0;
    while i < elements.len()
        invariant
            0 <= i <= elements.len(),
            es == elements@.map_values(|e: Element| e@),
            contents_view(contents@) == elements_contents(es.subrange(0, i as int)),
        decreases elements.len() - i,
    {
        let piece = content_of(&elements[i]);
        proof {
            assert(es.subrange(0, i + 1).drop_last() =~= es.subrange(0, i as int));
            assert(es.subrange(0, i + 1).last() == elements@[i as int]@);
        }
        match piece {
            Some(c) => {
                let ghost before = contents@;
                contents.push(c);
                proof {
                    assert(contents_view(contents@) =~= contents_view(before).push(contents@.last()@));
                }
            },
            None => {},
        }
        i = i + 1;
    }
    proof {
        assert(es.subrange(0, elements@.len() as int) =~= es);
    }
    contents
}

} // verus!
