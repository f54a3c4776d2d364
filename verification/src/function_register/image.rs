//! The `image` command: sends a random picture of the image library.

use crate::commands::{Command, CommandOutcome, OutcomeView, Trigger, TriggerView};
use crate::function_register::{failure_reply, failure_text, CommandFailure};
use crate::message::User;
use crate::reply::{text_reply, Reply, ReplyPart, ReplyPartView, ReplyView};
use vstd::prelude::*;
use vstd::string::StringExecFns;

verus! {

/// The standard base64 text of `bytes`, padded: what the `STANDARD` engine
/// of the `base64` crate encodes them to.
pub uninterp spec fn base64_text(bytes: Seq<u8>) -> Seq<char>;

/// Whether the base64 text of `len` bytes has a length that fits `usize`.
pub open spec fn encodable(len: nat) -> bool {
    len / 3 * 4 + 4 <= usize::MAX
}

/// Calls `Engine::encode` on `base64::engine::general_purpose::STANDARD`.
/// Taken on trust: that the text depends on the bytes alone, which is what
/// `base64_text` names. The call panics where the length of the text
/// overflows `usize`; the precondition rules that out.
#[verifier::external_body]
fn encode_standard(bytes: &Vec<u8>) -> (r: String)
    requires
        encodable(bytes@.len()),
    ensures
        r@ == base64_text(bytes@),
{
    base64::Engine::encode(&base64::engine::general_purpose::STANDARD, bytes)
}

/// Calls `IndexedRandom::choose` of the `rand` crate on a slice, with the
/// generator of the thread. Taken on trust: that it picks nothing from an
/// empty slice and an item of the slice from any other. Which item it
/// picks is left to chance, and nothing is said of it.
#[verifier::external_body]
fn pick_one<'a, T>(items: &'a Vec<T>) -> (r: Option<&'a T>)
    ensures
        items@.len() == 0 ==> r is None,
        items@.len() > 0 ==> r is Some,
        r matches Some(item) ==> items@.contains(*item),
{
    rand::seq::IndexedRandom::choose(items.as_slice(), &mut rand::rng())
}

/// One of `files`, picked at random; `NoImage` where there are none.
pub fn random_file<'a, T>(files: &'a Vec<T>) -> (r: Result<&'a T, CommandFailure>)
    ensures
        match r {
            Ok(file) => files@.contains(*file),
            Err(failure) => files@.len() == 0 && failure == CommandFailure::NoImage,
        },
{
    match pick_one(files) {
        Some(file) => Ok(file),
        None => Err(CommandFailure::NoImage),
    }
}

/// The standard base64 text of `bytes`; `TooLarge` where there are too
/// many bytes for the text to be held.
pub fn encode_base64(bytes: &Vec<u8>) -> (r: Result<String, CommandFailure>)
    ensures
        match r {
            Ok(text) => encodable(bytes@.len()) && text@ == base64_text(bytes@),
            Err(failure) => !encodable(bytes@.len()) && failure == CommandFailure::TooLarge,
        },
{
    if bytes.len() / 3 <= (usize::MAX - 4) / 4 {
        Ok(encode_standard(bytes))
    } else {
        Err(CommandFailure::TooLarge)
    }
}

/// The address that stands for an image given in base64.
pub open spec fn image_address(encoded: Seq<char>) -> Seq<char> {
    "base64://"@ + encoded
}

/// The reply that shows the image given in base64 as `encoded`, quoting
/// the message it answers.
pub open spec fn picture_reply(encoded: Seq<char>) -> ReplyView {
    ReplyView { quote: true, parts: seq![ReplyPartView::Image(image_address(encoded))] }
}

/// The `image` command.
pub struct ImageCommand;

impl ImageCommand {
    /// The reply that shows the image given in base64 as `encoded`.
    pub fn reply(encoded: &str) -> (r: Reply)
        ensures
            r@ == picture_reply(encoded@),
    {
        let mut address = String::from_str("base64://");
        address.append(encoded);
        let mut parts: Vec<ReplyPart> = Vec::new();
        parts.push(ReplyPart::Image(address));
        let r = Reply { quote: true, parts };
        assert(r@.parts =~= seq![ReplyPartView::Image(image_address(encoded@))]);
        r
    }

    /// The reply to the `image` command once a file was looked for: the
    /// image, given in base64, or word of why there is none.
    pub fn settle(found: Result<String, CommandFailure>) -> (r: Reply)
        ensures
            r@ == match found {
                Ok(encoded) => picture_reply(encoded@),
                Err(failure) => text_reply(failure_text(failure)),
            },
    {
        match found {
            Ok(encoded) => ImageCommand::reply(encoded.as_str()),
            Err(failure) => failure_reply(failure),
        }
    }
}

impl Command for ImageCommand {
    fn name(&self) -> (r: &'static str)
        ensures
            r@ == "image"@,
    {
        "image"
    }

    fn description(&self) -> (r: &'static str)
        ensures
            r@ == "随机香图"@,
    {
        "随机香图"
    }

    fn trigger(&self) -> (r: Trigger)
        ensures
            r@ == TriggerView::Exact("image"@),
    {
        Trigger::Exact("image".to_string())
    }

    fn execute(
        &self,
        text: &str,
        images: &Vec<String>,
        user: &mut User,
        commands: &Vec<(String, String)>,
    ) -> (r: CommandOutcome)
        ensures
            *final(user) == *old(user),
            r@ == OutcomeView::Image,
    {
        CommandOutcome::Image
    }
}

} // verus!
