//! The `seedream` command: has an image generated from a prompt.

use crate::commands::{Command, CommandOutcome, OutcomeView, Trigger, TriggerView};
use crate::function_register::{failure_reply, failure_text, CommandFailure};
use crate::message::User;
use crate::reply::{image_reply, text_reply, texts, Reply};
use crate::text::{from_chars, has_prefix, to_chars, trim_bounds, trimmed};
use vstd::prelude::*;

verus! {

/// The model that generates the images.
pub const MODEL: &'static str = "doubao-seedream-4-0-250828";

/// What is sent to the image generation service.
#[derive(Debug, PartialEq, Eq)]
pub struct ImageRequest {
    pub model: String,
    pub prompt: String,
    /// The images to start from, where the user sent any.
    pub image: Option<Vec<String>>,
}

/// What an `ImageRequest` holds.
pub struct ImageRequestView {
    pub model: Seq<char>,
    pub prompt: Seq<char>,
    pub image: Option<Seq<Seq<char>>>,
}

impl View for ImageRequest {
    type V = ImageRequestView;

    open spec fn view(&self) -> ImageRequestView {
        ImageRequestView {
            model: self.model@,
            prompt: self.prompt@,
            image: match self.image {
                Some(list) => Some(texts(list@)),
                None => None,
            },
        }
    }
}

/// What the command is called by: the keyword and the space after it.
pub open spec fn keyword() -> Seq<char> {
    "seedream "@
}

/// The prompt in `text`: what follows the keyword, the surrounding white
/// space of the whole text left out.
pub open spec fn prompt_of(text: Seq<char>) -> Seq<char> {
    if keyword().is_prefix_of(trimmed(text)) {
        trimmed(text).skip(keyword().len() as int)
    } else {
        trimmed(text)
    }
}

/// The request for the prompt in `text`, starting from `images` where
/// there are any.
pub open spec fn image_request(text: Seq<char>, images: Seq<Seq<char>>) -> ImageRequestView {
    ImageRequestView {
        model: MODEL@,
        prompt: prompt_of(text),
        image: if images.len() == 0 {
            None
        } else {
            Some(images)
        },
    }
}

/// A copy of a list of strings.
pub fn copy_strings(list: &Vec<String>) -> (r: Vec<String>)
    ensures
        texts(r@) == texts(list@),
{
    let mut out: Vec<String> = Vec::new();
    let mut i: usize = 0;
    while i < list.len()
        invariant
            i <= list@.len(),
            texts(out@) == texts(list@).take(i as int),
        decreases list@.len() - i,
    {
        let ghost before = out@;
        let item = list[i].clone();
        out.push(item);
        assert(texts(out@) =~= texts(before).push(item@));
        i = i + 1;
    }
    out
}

/// The `seedream` command.
pub struct SeedreamCommand;

impl SeedreamCommand {
    /// What is sent to the image generation service for `text`.
    pub fn request(text: &str, images: &Vec<String>) -> (r: ImageRequest)
        ensures
            r@ == image_request(text@, texts(images@)),
    {
        let chars = to_chars(text);
        let (from, to) = trim_bounds(&chars);
        let key = to_chars("seedream ");
        let ghost body = chars@.subrange(from as int, to as int);
        let prompt = if has_prefix(&chars, from, to, &key) {
            assert(body.skip(key@.len() as int) =~= chars@.subrange(from + key@.len(), to as int));
            from_chars(&chars, from + key.len(), to)
        } else {
            from_chars(&chars, from, to)
        };
        let image = if images.len() == 0 {
            None
        } else {
            Some(copy_strings(images))
        };
        ImageRequest { model: MODEL.to_string(), prompt, image }
    }

    /// The reply that shows the generated images.
    pub fn reply(urls: &Vec<String>) -> (r: Reply)
        ensures
            r@ == image_reply(texts(urls@)),
    {
        Reply::images(urls)
    }

    /// The reply to the `seedream` command once the service was asked:
    /// the images at the addresses it gave, or word of why there are none.
    pub fn settle(generated: Result<Vec<String>, CommandFailure>) -> (r: Reply)
        ensures
            r@ == match generated {
                Ok(urls) => image_reply(texts(urls@)),
                Err(failure) => text_reply(failure_text(failure)),
            },
    {
        match generated {
            Ok(urls) => SeedreamCommand::reply(&urls),
            Err(failure) => failure_reply(failure),
        }
    }
}

impl Command for SeedreamCommand {
    fn name(&self) -> (r: &'static str)
        ensures
            r@ == "seedream"@,
    {
        "seedream"
    }

    fn description(&self) -> (r: &'static str)
        ensures
            r@ == "使用 seedream 模型生成图像"@,
    {
        "使用 seedream 模型生成图像"
    }

    fn trigger(&self) -> (r: Trigger)
        ensures
            r@ == TriggerView::Prefix(keyword()),
    {
        Trigger::Prefix("seedream ".to_string())
    }

    fn execute(
        &self,
        text: &str,
        images: &Vec<String>,
        user: &mut User,
        commands: &Vec<(String, String)>,
    ) -> (r: CommandOutcome)
        ensures
            *final(user) == *old(user),
            r@ == OutcomeView::Generate(image_request(text@, texts(images@))),
    {
        CommandOutcome::Generate(SeedreamCommand::request(text, images))
    }
}

} // verus!
