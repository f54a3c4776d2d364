//! What is sent back to the user: an ordered list of text and image parts.

use crate::message::{part_views, ContentPart, ContentView, MessageContent, PartView};
use vstd::prelude::*;

verus! {

/// One part of a reply.
#[derive(Debug, PartialEq, Eq)]
pub enum ReplyPart {
    Text(String),
    /// An image, given by its address.
    Image(String),
}

/// What a `ReplyPart` holds.
pub enum ReplyPartView {
    Text(Seq<char>),
    Image(Seq<char>),
}

impl View for ReplyPart {
    type V = ReplyPartView;

    open spec fn view(&self) -> ReplyPartView {
        match self {
            ReplyPart::Text(t) => ReplyPartView::Text(t@),
            ReplyPart::Image(u) => ReplyPartView::Image(u@),
        }
    }
}

/// A reply to the user.
#[derive(Debug, PartialEq, Eq)]
pub struct Reply {
    /// Whether the reply quotes the message it answers.
    pub quote: bool,
    pub parts: Vec<ReplyPart>,
}

/// What a `Reply` holds.
pub struct ReplyView {
    pub quote: bool,
    pub parts: Seq<ReplyPartView>,
}

/// What each of `parts` holds, in order.
pub open spec fn part_list(parts: Seq<ReplyPart>) -> Seq<ReplyPartView> {
    parts.map_values(|p: ReplyPart| p@)
}

impl View for Reply {
    type V = ReplyView;

    open spec fn view(&self) -> ReplyView {
        ReplyView { quote: self.quote, parts: part_list(self.parts@) }
    }
}

/// The reply that says `text` and quotes nothing.
pub open spec fn text_reply(text: Seq<char>) -> ReplyView {
    ReplyView { quote: false, parts: seq![ReplyPartView::Text(text)] }
}

/// The reply that quotes the message it answers and shows the images at
/// `urls`, in order.
pub open spec fn image_reply(urls: Seq<Seq<char>>) -> ReplyView {
    ReplyView { quote: true, parts: urls.map_values(|u: Seq<char>| ReplyPartView::Image(u)) }
}

/// The reply part that shows one part of a message: its text where it has
/// one, else its image, else nothing.
pub open spec fn shown_part(p: PartView) -> ReplyPartView {
    match p.text {
        Some(t) => ReplyPartView::Text(t),
        None => match p.image_url {
            Some(u) => ReplyPartView::Image(u),
            None => ReplyPartView::Text(Seq::empty()),
        },
    }
}

/// The reply parts that show `parts`, in order.
pub open spec fn shown_parts(parts: Seq<PartView>) -> Seq<ReplyPartView> {
    parts.map_values(|p: PartView| shown_part(p))
}

/// The reply that delivers `content`.
pub open spec fn content_reply(content: ContentView, quote: bool) -> ReplyView {
    match content {
        ContentView::Text(t) => ReplyView { quote, parts: seq![ReplyPartView::Text(t)] },
        ContentView::Multi(parts) => ReplyView { quote, parts: shown_parts(parts) },
    }
}

/// The characters of each string of `strings`, in order.
pub open spec fn texts(strings: Seq<String>) -> Seq<Seq<char>> {
    strings.map_values(|s: String| s@)
}

fn show_part(part: &ContentPart) -> (r: ReplyPart)
    ensures
        r@ == shown_part(part@),
{
    match &part.text {
        Some(t) => ReplyPart::Text(t.clone()),
        None => match &part.image_url {
            Some(u) => ReplyPart::Image(u.clone()),
            None => ReplyPart::Text(String::new()),
        },
    }
}

impl Reply {
    /// A reply that says `text`.
    pub fn text(text: String) -> (r: Self)
        ensures
            r@ == text_reply(text@),
    {
        let mut parts: Vec<ReplyPart> = Vec::new();
        parts.push(ReplyPart::Text(text));
        assert(part_list(parts@) =~= seq![ReplyPartView::Text(text@)]);
        Reply { quote: false, parts }
    }

    /// A reply that quotes the message it answers and shows the images at
    /// `urls`.
    pub fn images(urls: &Vec<String>) -> (r: Self)
        ensures
            r@ == image_reply(texts(urls@)),
    {
        let mut parts: Vec<ReplyPart> = Vec::new();
        let ghost want = image_reply(texts(urls@)).parts;
        let mut i: usize = 0;
        while i < urls.len()
            invariant
                i <= urls@.len(),
                want == image_reply(texts(urls@)).parts,
                part_list(parts@) == want.take(i as int),
            decreases urls@.len() - i,
        {
            let ghost before = parts@;
            let part = ReplyPart::Image(urls[i].clone());
            parts.push(part);
            assert(part_list(parts@) =~= part_list(before).push(part@));
            i = i + 1;
        }
        assert(want.take(urls@.len() as int) =~= want);
        Reply { quote: true, parts }
    }

    /// The reply that delivers `content`.
    pub fn from_content(content: &MessageContent, quote: bool) -> (r: Self)
        ensures
            r@ == content_reply(content@, quote),
    {
        let mut parts: Vec<ReplyPart> = Vec::new();
        match content {
            MessageContent::Text(t) => {
                parts.push(ReplyPart::Text(t.clone()));
                assert(part_list(parts@) =~= seq![ReplyPartView::Text(t@)]);
            },
            MessageContent::Multi(list) => {
                let ghost want = shown_parts(part_views(list@));
                let mut i: usize = 0;
                while i < list.len()
                    invariant
                        i <= list@.len(),
                        want == shown_parts(part_views(list@)),
                        part_list(parts@) == want.take(i as int),
                    decreases list@.len() - i,
                {
                    let ghost before = parts@;
                    let part = show_part(&list[i]);
                    parts.push(part);
                    assert(part_list(parts@) =~= part_list(before).push(part@));
                    i = i + 1;
                }
                assert(want.take(list@.len() as int) =~= want);
            },
        }
        Reply { quote, parts }
    }
}

} // verus!
