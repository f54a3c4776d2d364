//! An incoming chat message as the host protocol delivers it: a list of
//! segments, of which the library reads the mentions and the images.

use crate::reply::texts;
use crate::text::{parse_i64, parsed_i64, same_text};
use vstd::prelude::*;

verus! {

/// The data of one segment: the account it mentions and the address of
/// the image it shows, each where the segment has one.
#[derive(Debug, PartialEq, Eq)]
pub struct OneBotMessageData {
    pub qq: Option<String>,
    pub url: Option<String>,
}

/// One segment of a message.
#[derive(Debug, PartialEq, Eq)]
pub struct OneBotMessageBody {
    pub data: OneBotMessageData,
    pub msg_type: String,
}

/// An incoming message.
#[derive(Debug, PartialEq, Eq)]
pub struct OneBotMessage {
    pub message: Vec<OneBotMessageBody>,
}

/// Whether `segment` mentions the account `id`: it is of type `at` and
/// names an account whose number reads as `id`.
pub open spec fn mentions(segment: OneBotMessageBody, id: i64) -> bool {
    &&& segment.msg_type@ == "at"@
    &&& segment.data.qq matches Some(qq)
    &&& parsed_i64(qq@) == Some(id)
}

/// Whether `segment` shows an image.
pub open spec fn is_image(segment: OneBotMessageBody) -> bool {
    segment.msg_type@ == "image"@
}

/// The addresses of the images that `segments` show, in order. An image
/// segment without an address counts for nothing here.
pub open spec fn image_urls(segments: Seq<OneBotMessageBody>) -> Seq<Seq<char>>
    decreases segments.len(),
{
    if segments.len() == 0 {
        Seq::empty()
    } else {
        let front = image_urls(segments.drop_last());
        match segments.last().data.url {
            Some(url) if is_image(segments.last()) => front.push(url@),
            _ => front,
        }
    }
}

/// Whether every image segment of `segments` has an address.
pub open spec fn images_located(segments: Seq<OneBotMessageBody>) -> bool {
    forall|i: int|
        0 <= i < segments.len() && is_image(#[trigger] segments[i]) ==> segments[i].data.url is Some
}

impl OneBotMessage {
    /// Whether the message mentions the account `self_id`.
    pub fn is_at(&self, self_id: i64) -> (r: bool)
        ensures
            r == exists|i: int| 0 <= i < self.message@.len() && mentions(self.message@[i], self_id),
    {
        let mut i: usize = 0;
        while i < self.message.len()
            invariant
                i <= self.message@.len(),
                forall|j: int| 0 <= j < i ==> !mentions(self.message@[j], self_id),
            decreases self.message@.len() - i,
        {
            let segment = &self.message[i];
            if same_text(segment.msg_type.as_str(), "at") {
                match &segment.data.qq {
                    Some(qq) => {
                        match parse_i64(qq.as_str()) {
                            Some(id) => {
                                if id == self_id {
                                    return true;
                                }
                            },
                            None => {},
                        }
                    },
                    None => {},
                }
            }
            i = i + 1;
        }
        false
    }

    /// Whether every image of the message has an address, as `find_image`
    /// asks.
    pub fn has_image_urls(&self) -> (r: bool)
        ensures
            r == images_located(self.message@),
    {
        let mut i: usize = 0;
        while i < self.message.len()
            invariant
                i <= self.message@.len(),
                forall|j: int|
                    0 <= j < i && is_image(#[trigger] self.message@[j])
                        ==> self.message@[j].data.url is Some,
            decreases self.message@.len() - i,
        {
            let segment = &self.message[i];
            if same_text(segment.msg_type.as_str(), "image") && segment.data.url.is_none() {
                return false;
            }
            i = i + 1;
        }
        true
    }

    /// The addresses of the images in the message, in order.
    pub fn find_image(&self) -> (image_url: Vec<String>)
        requires
            images_located(self.message@),
        ensures
            texts(image_url@) == image_urls(self.message@),
    {
        let mut image_url: Vec<String> = Vec::new();
        let mut i: usize = 0;
        while i < self.message.len()
            invariant
                i <= self.message@.len(),
                images_located(self.message@),
                texts(image_url@) == image_urls(self.message@.take(i as int)),
            decreases self.message@.len() - i,
        {
            let segment = &self.message[i];
            assert(self.message@.take(i + 1).drop_last() =~= self.message@.take(i as int));
            if same_text(segment.msg_type.as_str(), "image") {
                match &segment.data.url {
                    Some(url) => {
                        image_url.push(url.clone());
                    },
                    None => {},
                }
            }
            i = i + 1;
        }
        assert(self.message@.take(self.message@.len() as int) =~= self.message@);
        image_url
    }
}

} // verus!
