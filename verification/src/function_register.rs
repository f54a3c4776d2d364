//! The commands and tools that the bot is started with, beyond `help` and
//! `clear`.
//!
//! These commands need something from outside: a measurement, a file, an
//! image from a service. They ask their caller for it, and the caller
//! hands back what it got or how it failed. A command that failed still
//! answers: `settle` turns every failure into a reply that says so.

pub mod image;
pub mod seedream;
pub mod status;

use crate::commands::{builtin_info, registered, Builtin, CommandRegistry};
use crate::mcp_loader::MCPRegistry;
use crate::reply::{text_reply, Reply};
use vstd::prelude::*;

verus! {

/// Why a command could not do what it was asked.
#[derive(Clone, Copy, Debug, PartialEq, Eq, Structural)]
pub enum CommandFailure {
    /// The token for the image service is not there to be read.
    NoToken,
    /// The image library does not exist.
    NoImageLibrary,
    /// The image library holds no file.
    NoImage,
    /// The image library, or the file picked from it, cannot be read.
    Unreadable,
    /// The file picked holds more bytes than can be sent.
    TooLarge,
    /// The image service did not answer, or not with images.
    GenerationFailed,
    /// The server's measurements contradict each other.
    BadMeasurement,
}

/// What the user is told of a failure.
pub open spec fn failure_text(failure: CommandFailure) -> Seq<char> {
    match failure {
        CommandFailure::NoToken => "未找到 token，请将 token 写入 token.txt 文件"@,
        CommandFailure::NoImageLibrary => "图库目录不存在"@,
        CommandFailure::NoImage => "图库中没有图片"@,
        CommandFailure::Unreadable => "读取图片失败"@,
        CommandFailure::TooLarge => "图片过大，无法发送"@,
        CommandFailure::GenerationFailed => "图像生成失败"@,
        CommandFailure::BadMeasurement => "无法获取服务器状态"@,
    }
}

/// The reply that tells the user of `failure`.
pub fn failure_reply(failure: CommandFailure) -> (r: Reply)
    ensures
        r@ == text_reply(failure_text(failure)),
{
    let text = match failure {
        CommandFailure::NoToken => "未找到 token，请将 token 写入 token.txt 文件",
        CommandFailure::NoImageLibrary => "图库目录不存在",
        CommandFailure::NoImage => "图库中没有图片",
        CommandFailure::Unreadable => "读取图片失败",
        CommandFailure::TooLarge => "图片过大，无法发送",
        CommandFailure::GenerationFailed => "图像生成失败",
        CommandFailure::BadMeasurement => "无法获取服务器状态",
    };
    Reply::text(text.to_string())
}

/// Registers the commands of this module: `status`, `image` and
/// `seedream`, in that order.
pub fn register_commands(commands_reg: &mut CommandRegistry)
    ensures
        final(commands_reg).commands() == registered(
            registered(
                registered(old(commands_reg).commands(), builtin_info(Builtin::Status)),
                builtin_info(Builtin::Image),
            ),
            builtin_info(Builtin::Seedream),
        ),
{
    commands_reg.register_builtin(Builtin::Status);
    commands_reg.register_builtin(Builtin::Image);
    commands_reg.register_builtin(Builtin::Seedream);
}

/// Registers the tools of this module: there are none yet.
pub fn register_mcp(mcp_loader: &mut MCPRegistry)
    ensures
        *final(mcp_loader) == *old(mcp_loader),
{
}

} // verus!
