use chat::function_register::image::{encode_base64, random_file, ImageCommand};
use chat::function_register::{failure_reply, CommandFailure};
use chat::function_register::seedream::{copy_strings, ImageRequest, SeedreamCommand, MODEL};
use chat::function_register::status::{ServerStatus, StatusCommand};
use chat::message::{ContentPart, MessageContent};
use chat::onebot::{OneBotMessage, OneBotMessageBody, OneBotMessageData};
use chat::reply::{Reply, ReplyPart};

fn segment(msg_type: &str, qq: Option<&str>, url: Option<&str>) -> OneBotMessageBody {
    OneBotMessageBody {
        data: OneBotMessageData { qq: qq.map(str::to_string), url: url.map(str::to_string) },
        msg_type: msg_type.to_string(),
    }
}

#[test]
fn a_mention_of_the_bot_is_found() {
    let message = OneBotMessage {
        message: vec![
            segment("text", None, None),
            segment("at", Some("12345"), None),
            segment("at", Some("all"), None),
        ],
    };
    assert!(message.is_at(12345));
    assert!(!message.is_at(54321));
}

#[test]
fn a_mention_is_read_as_a_number() {
    let message = OneBotMessage { message: vec![segment("at", Some("+0012"), None)] };
    assert!(message.is_at(12));
    let negative = OneBotMessage { message: vec![segment("at", Some("-3"), None)] };
    assert!(negative.is_at(-3));
}

#[test]
fn only_segments_of_type_at_mention() {
    let message = OneBotMessage {
        message: vec![
            segment("text", Some("12345"), None),
            segment("at", None, None),
            segment("at", Some(" 12345"), None),
            segment("At", Some("12345"), None),
        ],
    };
    assert!(!message.is_at(12345));
    assert!(!OneBotMessage { message: Vec::new() }.is_at(0));
}

#[test]
fn images_are_found_in_order() {
    let message = OneBotMessage {
        message: vec![
            segment("image", None, Some("https://a/1.png")),
            segment("text", None, Some("https://a/not-an-image")),
            segment("image", None, Some("https://a/2.png")),
        ],
    };
    assert!(message.has_image_urls());
    assert_eq!(
        message.find_image(),
        vec!["https://a/1.png".to_string(), "https://a/2.png".to_string()]
    );
    let none = OneBotMessage { message: vec![segment("text", None, None)] };
    assert!(none.has_image_urls());
    assert_eq!(none.find_image(), Vec::<String>::new());
}

#[test]
fn an_image_without_address_is_noticed() {
    let message = OneBotMessage {
        message: vec![segment("image", None, Some("https://a/1.png")), segment("image", None, None)],
    };
    assert!(!message.has_image_urls());
}

#[test]
fn the_status_report_is_written_out() {
    let status = ServerStatus {
        uptime: 2 * 86400 + 3 * 3600 + 4 * 60 + 5,
        cpu_usage: "12.5".to_string(),
        total_memory: 16 * 1024 * 1024 * 1024,
        used_memory: 3 * 1024 * 1024 * 1024 + 1024 * 1024 - 1,
        disk: Some((500 * 1073741824 + 5, 120 * 1073741824 + 1073741823)),
        processes: 321,
    };
    assert!(StatusCommand::reportable(&status));
    assert_eq!(
        StatusCommand::report(&status),
        "🖥️ Server Status\n\
         ⏱️ Uptime: 2d 3h 4m\n\
         🔥 CPU Usage: 12.5%\n\
         📦 Memory: 3072MB / 16384MB\n\
         💾 Disk: 380GB / 500GB\n\
         🌐 Processes: 321"
    );
}

#[test]
fn the_status_report_without_a_disk_shows_zeros() {
    let status = ServerStatus {
        uptime: 59,
        cpu_usage: "0.0".to_string(),
        total_memory: 0,
        used_memory: 0,
        disk: None,
        processes: 0,
    };
    assert_eq!(
        StatusCommand::report(&status),
        "🖥️ Server Status\n\
         ⏱️ Uptime: 0d 0h 0m\n\
         🔥 CPU Usage: 0.0%\n\
         📦 Memory: 0MB / 0MB\n\
         💾 Disk: 0GB / 0GB\n\
         🌐 Processes: 0"
    );
}

fn measured(disk: Option<(u64, u64)>) -> ServerStatus {
    ServerStatus {
        uptime: 0,
        cpu_usage: "1.0".to_string(),
        total_memory: 0,
        used_memory: 0,
        disk,
        processes: 0,
    }
}

#[test]
fn a_disk_with_more_free_gibibytes_than_gibibytes_is_not_reported() {
    assert!(!StatusCommand::reportable(&measured(Some((1073741823, 1073741824)))));
    assert!(!StatusCommand::reportable(&measured(Some((0, u64::MAX)))));
}

#[test]
fn free_space_beyond_the_total_is_reported_while_the_gibibytes_agree() {
    let status = measured(Some((1, 2)));
    assert!(StatusCommand::reportable(&status));
    assert!(StatusCommand::report(&status).contains("Disk: 0GB / 0GB"));
    let status = measured(Some((5 * 1073741824, 5 * 1073741824 + 1073741823)));
    assert!(StatusCommand::reportable(&status));
    assert!(StatusCommand::report(&status).contains("Disk: 0GB / 5GB"));
}

#[test]
fn the_status_command_always_answers() {
    let good = measured(None);
    assert_eq!(StatusCommand::settle(&good), Reply::text(StatusCommand::report(&good)));
    let bad = measured(Some((0, 1073741824)));
    assert_eq!(StatusCommand::settle(&bad), Reply::text("无法获取服务器状态".to_string()));
}

#[test]
fn every_failure_has_its_reply() {
    let told = |failure: CommandFailure, text: &str| {
        assert_eq!(failure_reply(failure), Reply::text(text.to_string()));
    };
    told(CommandFailure::NoToken, "未找到 token，请将 token 写入 token.txt 文件");
    told(CommandFailure::NoImageLibrary, "图库目录不存在");
    told(CommandFailure::NoImage, "图库中没有图片");
    told(CommandFailure::Unreadable, "读取图片失败");
    told(CommandFailure::TooLarge, "图片过大，无法发送");
    told(CommandFailure::GenerationFailed, "图像生成失败");
    told(CommandFailure::BadMeasurement, "无法获取服务器状态");
}

#[test]
fn the_image_command_answers_with_the_image_or_the_failure() {
    assert_eq!(
        ImageCommand::settle(Ok("aGVsbG8=".to_string())),
        Reply { quote: true, parts: vec![ReplyPart::Image("base64://aGVsbG8=".to_string())] }
    );
    for failure in [
        CommandFailure::NoImageLibrary,
        CommandFailure::NoImage,
        CommandFailure::Unreadable,
        CommandFailure::TooLarge,
    ] {
        assert_eq!(ImageCommand::settle(Err(failure)), failure_reply(failure));
    }
}

#[test]
fn the_seedream_command_answers_with_the_images_or_the_failure() {
    let urls = vec!["https://a/1.png".to_string(), "https://a/2.png".to_string()];
    assert_eq!(SeedreamCommand::settle(Ok(urls.clone())), SeedreamCommand::reply(&urls));
    assert_eq!(
        SeedreamCommand::settle(Err(CommandFailure::NoToken)),
        Reply::text("未找到 token，请将 token 写入 token.txt 文件".to_string())
    );
    assert_eq!(
        SeedreamCommand::settle(Err(CommandFailure::GenerationFailed)),
        Reply::text("图像生成失败".to_string())
    );
}

#[test]
fn bytes_are_written_in_standard_base64() {
    assert_eq!(encode_base64(&b"hello".to_vec()), Ok("aGVsbG8=".to_string()));
    assert_eq!(encode_base64(&Vec::new()), Ok(String::new()));
    assert_eq!(encode_base64(&vec![0xfb, 0xff, 0xfe]), Ok("+//+".to_string()));
    assert_eq!(encode_base64(&vec![0]), Ok("AA==".to_string()));
}

#[test]
fn an_image_is_sent_as_base64() {
    assert_eq!(
        ImageCommand::reply("aGVsbG8="),
        Reply { quote: true, parts: vec![ReplyPart::Image("base64://aGVsbG8=".to_string())] }
    );
    assert_eq!(
        ImageCommand::reply(""),
        Reply { quote: true, parts: vec![ReplyPart::Image("base64://".to_string())] }
    );
}

#[test]
fn a_random_file_is_one_of_the_files() {
    let files = vec!["a.png".to_string(), "b.png".to_string(), "c.png".to_string()];
    for _ in 0..50 {
        let picked = random_file(&files).unwrap();
        assert!(files.contains(picked));
    }
    assert_eq!(random_file(&vec!["only.png".to_string()]), Ok(&"only.png".to_string()));
    assert_eq!(random_file(&Vec::<String>::new()), Err(CommandFailure::NoImage));
    let numbers = vec![7u8];
    assert_eq!(random_file(&numbers), Ok(&7u8));
}

#[test]
fn the_image_request_holds_the_prompt() {
    assert_eq!(MODEL, "doubao-seedream-4-0-250828");
    assert_eq!(
        SeedreamCommand::request("seedream a red fox", &Vec::new()),
        ImageRequest { model: MODEL.to_string(), prompt: "a red fox".to_string(), image: None }
    );
    let images = vec!["https://a/1.png".to_string()];
    assert_eq!(
        SeedreamCommand::request("  seedream  two  spaces ", &images),
        ImageRequest {
            model: MODEL.to_string(),
            prompt: " two  spaces".to_string(),
            image: Some(images.clone()),
        }
    );
    assert_eq!(SeedreamCommand::request(" no keyword ", &Vec::new()).prompt, "no keyword");
    assert_eq!(copy_strings(&images), images);
}

#[test]
fn generated_images_are_sent_in_order() {
    let urls = vec!["https://a/1.png".to_string(), "https://a/2.png".to_string()];
    assert_eq!(
        SeedreamCommand::reply(&urls),
        Reply {
            quote: true,
            parts: vec![
                ReplyPart::Image("https://a/1.png".to_string()),
                ReplyPart::Image("https://a/2.png".to_string()),
            ],
        }
    );
    assert_eq!(Reply::images(&Vec::new()), Reply { quote: true, parts: Vec::new() });
}

#[test]
fn content_is_shown_part_by_part() {
    let text = MessageContent::Text("hi".to_string());
    assert_eq!(
        Reply::from_content(&text, true),
        Reply { quote: true, parts: vec![ReplyPart::Text("hi".to_string())] }
    );
    let parts = MessageContent::Multi(vec![
        ContentPart::text("look"),
        ContentPart::image("https://a/1.png"),
        ContentPart { kind: "other".to_string(), text: None, image_url: None },
    ]);
    assert_eq!(
        Reply::from_content(&parts, false),
        Reply {
            quote: false,
            parts: vec![
                ReplyPart::Text("look".to_string()),
                ReplyPart::Image("https://a/1.png".to_string()),
                ReplyPart::Text(String::new()),
            ],
        }
    );
}
