use chat::commands::{
    Builtin, ClearCommand, Command, CommandOutcome, CommandRegistry, HelpCommand, Trigger,
};
use chat::function_register::register_commands;
use chat::function_register::seedream::ImageRequest;
use chat::message::{ChatRole, Message, User};
use chat::reply::{Reply, ReplyPart};

fn talkative_user() -> User {
    User {
        id: 42,
        history: vec![
            Message::text(ChatRole::System, "be kind"),
            Message::text(ChatRole::User, "hello"),
            Message::text(ChatRole::Assistant, "hi"),
        ],
    }
}

fn text_reply(text: &str) -> CommandOutcome {
    CommandOutcome::Reply(Reply { quote: false, parts: vec![ReplyPart::Text(text.to_string())] })
}

struct Echo;

impl Command for Echo {
    fn name(&self) -> &'static str {
        "echo"
    }

    fn description(&self) -> &'static str {
        "says it again"
    }

    fn trigger(&self) -> Trigger {
        Trigger::Prefix("echo ".to_string())
    }

    fn execute(
        &self,
        text: &str,
        _images: &Vec<String>,
        user: &mut User,
        commands: &Vec<(String, String)>,
    ) -> CommandOutcome {
        user.history.push(Message::text(ChatRole::User, "echoed"));
        CommandOutcome::Reply(Reply::text(format!("{} ({} commands)", text.trim(), commands.len())))
    }
}

struct Greedy;

impl Command for Greedy {
    fn name(&self) -> &'static str {
        "help"
    }

    fn description(&self) -> &'static str {
        "answers in place of help"
    }

    fn trigger(&self) -> Trigger {
        Trigger::Exact("help".to_string())
    }

    fn execute(
        &self,
        _text: &str,
        _images: &Vec<String>,
        _user: &mut User,
        _commands: &Vec<(String, String)>,
    ) -> CommandOutcome {
        CommandOutcome::Silent
    }
}

#[test]
fn default_registry_lists_clear_then_help() {
    let registry = CommandRegistry::default();
    assert_eq!(
        registry.list_commands(),
        vec![
            ("clear".to_string(), "清空用户历史记录".to_string()),
            ("help".to_string(), "显示所有可用命令及说明".to_string()),
        ]
    );
    assert_eq!(CommandRegistry::new().list_commands(), Vec::new());
}

#[test]
fn help_lists_every_registered_command() {
    let mut registry = CommandRegistry::default();
    register_commands(&mut registry);
    registry.register(Echo);
    let mut user = talkative_user();
    let outcome = registry.handle("help", &Vec::new(), &mut user);
    let expected = "可用命令:\n\
                    clear: 清空用户历史记录\n\
                    help: 显示所有可用命令及说明\n\
                    status: 查询服务器状态\n\
                    image: 随机香图\n\
                    seedream: 使用 seedream 模型生成图像\n\
                    echo: says it again\n";
    assert_eq!(outcome, Some(text_reply(expected)));
    assert_eq!(user, talkative_user());
}

#[test]
fn help_of_an_empty_listing_is_the_heading() {
    let mut user = talkative_user();
    let outcome = HelpCommand.execute("help", &Vec::new(), &mut user, &Vec::new());
    assert_eq!(outcome, text_reply("可用命令:\n"));
}

#[test]
fn clear_empties_the_history_and_confirms() {
    let registry = CommandRegistry::default();
    let mut user = talkative_user();
    let outcome = registry.handle("clear", &Vec::new(), &mut user);
    assert_eq!(outcome, Some(text_reply("历史记录已清理")));
    assert_eq!(user.history.len(), 0);
    assert_eq!(user.id, 42);
    let mut again = User::new(1);
    assert_eq!(
        ClearCommand.execute("clear", &Vec::new(), &mut again, &Vec::new()),
        text_reply("历史记录已清理")
    );
}

#[test]
fn commands_ignore_surrounding_white_space() {
    let registry = CommandRegistry::default();
    let mut user = talkative_user();
    assert!(registry.handle("  clear\n", &Vec::new(), &mut user).is_some());
    assert_eq!(user.history.len(), 0);
}

#[test]
fn other_text_is_left_for_the_model() {
    let mut registry = CommandRegistry::default();
    register_commands(&mut registry);
    let mut user = talkative_user();
    assert_eq!(registry.handle("hello there", &Vec::new(), &mut user), None);
    assert_eq!(registry.handle("help me", &Vec::new(), &mut user), None);
    assert_eq!(registry.handle("clearly", &Vec::new(), &mut user), None);
    assert_eq!(registry.handle("", &Vec::new(), &mut user), None);
    assert_eq!(registry.handle("seedream", &Vec::new(), &mut user), None);
    assert_eq!(registry.handle("Help", &Vec::new(), &mut user), None);
    assert_eq!(user, talkative_user());
}

#[test]
fn builtin_effects_are_asked_of_the_caller() {
    let mut registry = CommandRegistry::default();
    register_commands(&mut registry);
    let mut user = talkative_user();
    assert_eq!(registry.handle("status", &Vec::new(), &mut user), Some(CommandOutcome::Status));
    assert_eq!(user, talkative_user());
    assert_eq!(registry.handle(" image ", &Vec::new(), &mut user), Some(CommandOutcome::Image));
    assert_eq!(user, talkative_user());
    let images = vec!["https://example.org/a.png".to_string()];
    let outcome = registry.handle("  seedream a cat in the rain ", &images, &mut user);
    assert_eq!(
        outcome,
        Some(CommandOutcome::Generate(ImageRequest {
            model: "doubao-seedream-4-0-250828".to_string(),
            prompt: "a cat in the rain".to_string(),
            image: Some(images),
        }))
    );
}

#[test]
fn only_clear_resets_a_history() {
    let mut registry = CommandRegistry::default();
    register_commands(&mut registry);
    let images = vec!["https://example.org/a.png".to_string()];
    for text in ["help", "status", "image", "seedream a cat", "hello"] {
        let mut user = talkative_user();
        registry.handle(text, &images, &mut user);
        assert_eq!(user, talkative_user());
    }
    let mut user = talkative_user();
    registry.handle("clear", &images, &mut user);
    assert_eq!(user.history, Vec::new());
}

#[test]
fn custom_commands_run_through_the_registry() {
    let mut registry = CommandRegistry::default();
    registry.register(Echo);
    let mut user = User::new(5);
    let outcome = registry.handle(" echo twice ", &Vec::new(), &mut user);
    assert_eq!(outcome, Some(text_reply("echo twice (3 commands)")));
    assert_eq!(user.history.len(), 1);
}

#[test]
fn the_first_accepting_command_answers() {
    let mut registry = CommandRegistry::new();
    registry.register(Echo);
    registry.register_builtin(Builtin::Seedream);
    registry.register_builtin(Builtin::Help);
    let mut user = User::new(5);
    assert!(matches!(
        registry.handle("seedream x", &Vec::new(), &mut user),
        Some(CommandOutcome::Generate(_))
    ));
    assert!(matches!(
        registry.handle("echo x", &Vec::new(), &mut user),
        Some(CommandOutcome::Reply(_))
    ));
}

#[test]
fn a_name_registered_again_replaces_the_command_in_place() {
    let mut registry = CommandRegistry::default();
    registry.register(Greedy);
    assert_eq!(
        registry.list_commands(),
        vec![
            ("clear".to_string(), "清空用户历史记录".to_string()),
            ("help".to_string(), "answers in place of help".to_string()),
        ]
    );
    let mut user = talkative_user();
    assert_eq!(registry.handle("help", &Vec::new(), &mut user), Some(CommandOutcome::Silent));
    registry.register_builtin(Builtin::Help);
    assert_eq!(registry.list_commands().len(), 2);
    assert!(matches!(
        registry.handle("help", &Vec::new(), &mut user),
        Some(CommandOutcome::Reply(_))
    ));
}

#[test]
fn triggers_match_after_trimming() {
    let exact = Trigger::Exact("status".to_string());
    assert!(exact.matches("status"));
    assert!(exact.matches("\tstatus  "));
    assert!(!exact.matches("status now"));
    assert!(!exact.matches("statu"));
    assert!(!exact.matches(""));
    let prefix = Trigger::Prefix("seedream ".to_string());
    assert!(prefix.matches("seedream a"));
    assert!(prefix.matches("  seedream a  "));
    assert!(!prefix.matches("seedream "));
    assert!(!prefix.matches("seedream"));
    assert!(!prefix.matches("a seedream b"));
    assert!(Trigger::Prefix(String::new()).matches("anything"));
    assert!(Trigger::Exact(String::new()).matches("   "));
}

#[test]
fn builtin_commands_describe_themselves() {
    assert_eq!(HelpCommand.name(), "help");
    assert_eq!(HelpCommand.description(), "显示所有可用命令及说明");
    assert_eq!(HelpCommand.trigger(), Trigger::Exact("help".to_string()));
    assert_eq!(ClearCommand.name(), "clear");
    assert_eq!(ClearCommand.description(), "清空用户历史记录");
    assert_eq!(ClearCommand.trigger(), Trigger::Exact("clear".to_string()));
}
