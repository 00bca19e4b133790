use rngesus::command::{parse, Command};
use rngesus::dice::{dice, dice_answer, dice_faces};
use rngesus::dispatch::{execute, BotResponse, LineSource};
use rngesus::handlers::{
    anagram, coin_face, fortune, leaning, rps_answer, rpsg, rpsls, test_report, yesno, yesno_answer,
    yesno_table, Leaning, ANAGRAM_BLANK, FORTUNE_FALLBACK,
};
use rngesus::links::{map_link, rick, rick_link, video_link};
use rngesus::list::{list, list_answer, list_choices};
use rngesus::reply::{plan_reply, Deletion, Reply, ReplyError};

/// A line source that gives a fixed answer and counts how often it is asked.
struct CannedLines {
    answer: Option<String>,
    asked: usize,
}

impl LineSource for CannedLines {
    fn line(&mut self) -> Option<String> {
        self.asked += 1;
        self.answer.clone()
    }
}

fn run(text: &str) -> Option<BotResponse> {
    execute(text, &mut CannedLines { answer: None, asked: 0 })
}

fn message_text(r: Option<BotResponse>) -> String {
    match r {
        Some(BotResponse::Message(s)) => s,
        _ => panic!("expected a message"),
    }
}

fn command_and_args(text: &str) -> (Command, String) {
    let inv = parse(text).expect("a known command");
    (inv.command, inv.args)
}

#[test]
fn coin_token_without_args() {
    let (c, a) = command_and_args("/coin");
    assert_eq!(c, Command::Coin);
    assert_eq!(a, "");
}

#[test]
fn coin_token_with_trailing_space() {
    let (c, a) = command_and_args("/coin ");
    assert_eq!(c, Command::Coin);
    assert_eq!(a, " ");
    assert_eq!(a.trim(), "");
}

#[test]
fn coin_token_with_extra_args() {
    let (c, a) = command_and_args("/coin extra");
    assert_eq!(c, Command::Coin);
    assert_eq!(a, " extra");
    assert_eq!(a.trim(), "extra");
}

#[test]
fn coin_dispatch_answers_heads_or_tails() {
    for text in ["/coin", "/coin ", "/coin extra"] {
        let t = message_text(run(text));
        assert!(t == "Heads" || t == "Tails");
    }
}

#[test]
fn bot_mention_is_stripped() {
    assert_eq!(command_and_args("/coin@therngesusbot"), (Command::Coin, String::new()));
    assert_eq!(command_and_args("/dice@therngesusbot 4"), (Command::Dice, " 4".to_string()));
    assert!(parse("/coin@therngesusbot@therngesusbot").is_none());
    assert!(run("/coin@therngesusbot@therngesusbot").is_none());
    let t = message_text(run("/coin@therngesusbot"));
    assert!(t == "Heads" || t == "Tails");
}

#[test]
fn commands_match_exactly() {
    assert!(parse("/COIN").is_none());
    assert!(parse("/coins").is_none());
    assert!(parse("coin").is_none());
    assert!(parse("").is_none());
    assert!(parse("/coin@otherbot").is_none());
}

#[test]
fn aliases_share_a_handler() {
    assert_eq!(command_and_args("/gato").0, Command::Cat);
    assert_eq!(command_and_args("/cat").0, Command::Cat);
    assert_eq!(command_and_args("/deletethis").0, Command::DeleteThis);
    assert_eq!(command_and_args("/wakeup").0, Command::DeleteThis);
    assert!(matches!(run("/wakeup"), Some(BotResponse::DeleteMessage)));
    assert!(matches!(run("/deicide"), Some(BotResponse::LeaveChat)));
    match run("/gato") {
        Some(BotResponse::Photo { url, caption }) => {
            assert_eq!(url, "https://cataas.com/cat");
            assert_eq!(caption, "");
        }
        _ => panic!("expected a photo"),
    }
}

#[test]
fn list_picks_one_item_in_a_template() {
    let templates = [
        "{}, clearly", "I choose {}", "Has to be {}", "{}, isn't it?", "It's {}",
        "{} is the chosen one", "Couldn't not be {}", "I declare {} to be victorious",
        "{}, or suffer the consequences", "Either {} or {}", "It's {} or nothing",
        "{} without a doubt", "Do {} yourself",
    ];
    for _ in 0..50 {
        let t = message_text(run("/list a, b, c"));
        let ok = ["a", "b", "c"]
            .iter()
            .any(|item| templates.iter().any(|tpl| tpl.replace("{}", item) == t));
        assert!(ok, "unexpected answer {}", t);
    }
}

#[test]
fn list_without_items_gives_sentinel() {
    assert_eq!(message_text(run("/list")), "Segmentation Fault");
    assert_eq!(list(" ,  , "), "Segmentation Fault");
    assert_eq!(list("   "), "Segmentation Fault");
}

#[test]
fn list_items_split_on_commas_first() {
    assert_eq!(list_choices(" a, b, c"), vec!["a", "b", "c"]);
    assert_eq!(list_choices(" x y  z"), vec!["x", "y", "z"]);
    assert_eq!(list_choices(" red wine, beer,,"), vec!["red wine", "beer"]);
    assert!(list_choices("").is_empty());
}

#[test]
fn list_answer_fills_every_slot() {
    assert_eq!(list_answer("b", 0), "b, clearly");
    assert_eq!(list_answer("x", 9), "Either x or x");
    assert_eq!(list_answer("tea", 12), "Do tea yourself");
}

#[test]
fn dice_default_template_and_range() {
    for _ in 0..50 {
        let t = message_text(run("/dice 6"));
        let n: i64 = t.strip_prefix("Rolled a ").expect("default template").parse().unwrap();
        assert!((1..=6).contains(&n));
    }
}

#[test]
fn dice_zero_faces_is_invalid() {
    assert_eq!(message_text(run("/dice 0")), "...");
    assert_eq!(dice(" 3,-1 {} {}"), "...");
}

#[test]
fn dice_two_templates_rolls() {
    for _ in 0..50 {
        let t = message_text(run("/dice 2,3 {} and {}"));
        let parts: Vec<i64> = t.split(" and ").map(|p| p.parse().unwrap()).collect();
        assert_eq!(parts.len(), 2);
        assert!((1..=2).contains(&parts[0]));
        assert!((1..=3).contains(&parts[1]));
    }
}

#[test]
fn dice_answer_places_rolls_in_order() {
    assert_eq!(dice_answer(" 2,3 {} and {}", &vec![2, 3]), "2 and 3");
    assert_eq!(dice_answer(" 1,2 {} {} {}", &vec![1, 2, 2]), "1 2 2");
    assert_eq!(dice_answer("", &vec![4]), "Rolled a 4");
    assert_eq!(dice_answer(" 20 no slots", &vec![]), "no slots");
    assert_eq!(dice_answer(" 100 {}{}", &vec![100, 57]), "10057");
}

#[test]
fn dice_faces_default_when_not_numeric() {
    assert_eq!(dice_faces(" abc"), vec![6]);
    assert_eq!(dice_faces(""), vec![6]);
    assert_eq!(dice_faces(" 1,2,x"), vec![1, 2, 6]);
    assert_eq!(dice_faces(" +5"), vec![5]);
    assert_eq!(dice_faces(" -4"), vec![-4]);
    assert_eq!(dice_faces(" 99999999999999999999"), vec![6]);
    assert_eq!(dice_faces(" -9223372036854775808"), vec![i64::MIN]);
    assert_eq!(dice_faces(" 9223372036854775807"), vec![i64::MAX]);
    assert_eq!(dice_answer(" x", &vec![6]), "Rolled a 6");
}

#[test]
fn yesno_buckets_follow_the_roll() {
    assert_eq!(leaning(0), Leaning::Yes);
    assert_eq!(leaning(3), Leaning::Yes);
    assert_eq!(leaning(4), Leaning::No);
    assert_eq!(leaning(7), Leaning::No);
    assert_eq!(leaning(8), Leaning::Maybe);
    assert_eq!(leaning(9), Leaning::Maybe);
    assert_eq!(yesno_answer(0, 0), "Yes");
    assert_eq!(yesno_answer(5, 1), "NO");
    assert_eq!(yesno_answer(9, 0), "Maybe");
}

#[test]
fn yesno_weights_over_many_draws() {
    let yes = yesno_table(Leaning::Yes);
    let no = yesno_table(Leaning::No);
    let maybe = yesno_table(Leaning::Maybe);
    let n = 20000;
    let (mut y, mut o, mut m) = (0usize, 0usize, 0usize);
    for _ in 0..n {
        let a = yesno();
        if yes.contains(&a) {
            y += 1;
        } else if no.contains(&a) {
            o += 1;
        } else if maybe.contains(&a) {
            m += 1;
        } else {
            panic!("answer outside every bucket: {}", a);
        }
    }
    let share = |k: usize| k as f64 / n as f64;
    assert!((share(y) - 0.4).abs() < 0.03);
    assert!((share(o) - 0.4).abs() < 0.03);
    assert!((share(m) - 0.2).abs() < 0.03);
}

#[test]
fn decide_answers_a_phrase() {
    let t = message_text(run("/decide"));
    assert!(!t.is_empty());
}

#[test]
fn anagram_permutes_trimmed_text() {
    for _ in 0..20 {
        let t = anagram("  hello ");
        let mut got: Vec<char> = t.chars().collect();
        got.sort();
        assert_eq!(got, vec!['e', 'h', 'l', 'l', 'o']);
    }
    let t = message_text(run("/anagram día uno"));
    let mut got: Vec<char> = t.chars().collect();
    let mut want: Vec<char> = "día uno".chars().collect();
    got.sort();
    want.sort();
    assert_eq!(got, want);
}

#[test]
fn anagram_of_nothing_is_sentinel() {
    assert_eq!(anagram("   "), ANAGRAM_BLANK);
    assert_eq!(anagram(""), "\u{AD} ");
    assert_eq!(message_text(run("/anagram")), ANAGRAM_BLANK);
}

#[test]
fn say_deletes_then_sends_trimmed_args() {
    let action = run("/say   hi there  ");
    match &action {
        Some(BotResponse::DeleteAndSend(t)) => assert_eq!(t, "hi there"),
        _ => panic!("expected delete and send"),
    }
    let plan = plan_reply(action, 5, Some(7)).ok().expect("a plan");
    assert_eq!(plan.delete_first, Some(Deletion { chat_id: 5, message_id: 7 }));
    match plan.reply {
        Reply::SendMessage { chat_id, text, disable_web_page_preview } => {
            assert_eq!(chat_id, 5);
            assert_eq!(text, "hi there");
            assert!(disable_web_page_preview);
        }
        _ => panic!("expected a message"),
    }
}

#[test]
fn delete_needs_a_message_id() {
    let e = plan_reply(run("/say x"), 5, None).err().expect("an error");
    assert_eq!(e, ReplyError::MissingMessageId);
    assert_eq!(e.text(), "message.message_id not found");
    let e = plan_reply(run("/deletethis"), 5, None).err().expect("an error");
    assert_eq!(e, ReplyError::MissingMessageId);
    let p = plan_reply(run("/deletethis"), 5, Some(9)).ok().expect("a plan");
    assert!(p.delete_first.is_none());
    assert!(matches!(p.reply, Reply::DeleteMessage { chat_id: 5, message_id: 9 }));
}

#[test]
fn plain_message_plan() {
    let p = plan_reply(Some(BotResponse::Message("hey".to_string())), -3, None).ok().unwrap();
    assert!(p.delete_first.is_none());
    match p.reply {
        Reply::SendMessage { chat_id, text, disable_web_page_preview } => {
            assert_eq!(chat_id, -3);
            assert_eq!(text, "hey");
            assert!(!disable_web_page_preview);
        }
        _ => panic!("expected a message"),
    }
    let p = plan_reply(run("/deicide"), 11, None).ok().unwrap();
    assert!(matches!(p.reply, Reply::LeaveChat { chat_id: 11 }));
}

#[test]
fn unknown_command_is_not_found() {
    let action = run("/nonexistent");
    assert!(action.is_none());
    let e = plan_reply(action, 1, Some(2)).err().expect("an error");
    assert_eq!(e, ReplyError::CommandNotFound);
    assert_eq!(e.text(), "command not found");
}

#[test]
fn rps_overrides() {
    assert_eq!(rps_answer(1, true, false), "Super Paper");
    assert_eq!(rps_answer(0, true, false), "Rock");
    assert_eq!(rps_answer(2, false, false), "Scissors");
    assert_eq!(rps_answer(1, true, true), "Rockscispaper");
    assert!(["Rock", "Paper", "Scissors", "Gun"].contains(&rpsg()));
    assert!(["Rock", "Paper", "Scissors", "Lizard", "Spock"].contains(&rpsls()));
}

#[test]
fn coin_faces() {
    assert_eq!(coin_face(true), "Heads");
    assert_eq!(coin_face(false), "Tails");
}

#[test]
fn map_links_format_six_decimals() {
    assert_eq!(map_link(0, 0), "https://www.google.com/maps/place/0.000000N+0.000000E");
    assert_eq!(
        map_link(-90000000, 180000000),
        "https://www.google.com/maps/place/90.000000S+180.000000E"
    );
    assert_eq!(
        map_link(12345678, -1),
        "https://www.google.com/maps/place/12.345678N+0.000001W"
    );
    let t = message_text(run("/dart"));
    assert!(t.starts_with("https://www.google.com/maps/place/"));
}

#[test]
fn video_links() {
    let id: Vec<char> = "abc".chars().collect();
    assert_eq!(video_link(&id), "https://youtu.be/abc");
    let known = ["dQw4w9WgXcQ", "iik25wqIuFo", "uT6mKkkvjJY", "v7KafvXuqKE", "2xx_2XNxxfA"];
    for _ in 0..50 {
        let link = rick();
        let id = link.strip_prefix("https://youtu.be/").expect("video prefix");
        assert_eq!(id.chars().count(), 11);
        let last = id.chars().last().unwrap();
        assert!(known.contains(&id) || (last != '_' && last != '-'));
        assert!(id.chars().all(|c| c.is_ascii_alphanumeric() || c == '_' || c == '-'));
    }
    assert!(matches!(run("/rick"), Some(BotResponse::DeleteAndSend(_))));
}

#[test]
fn test_command_reports() {
    assert_eq!(test_report(0), "test failed");
    assert_eq!(test_report(1), "test succeeded");
    let t = message_text(run("/test"));
    assert!(t == "test failed" || t == "test succeeded");
}

#[test]
fn fortune_falls_back() {
    assert_eq!(fortune(Some("A line.\n".to_string())), "A line.\n");
    assert_eq!(fortune(None), FORTUNE_FALLBACK);
    assert_eq!(fortune(None), "Couldn't run `fortune` command sry ¯\\_(ツ)_/¯");
}

#[test]
fn execute_is_total_on_odd_input() {
    let inputs = [
        "", " ", "/", "@therngesusbot", "/say", "/say ", "/dice ,,,", "/dice 1,", "/dice -",
        "/dice 3 {", "/dice 3 }{", "/list ,", "/anagram \u{3000}", "/coin\u{3000}x", "é/coin",
        "/dice 9223372036854775807 {}", "/dice -9223372036854775808",
    ];
    for text in inputs {
        let _ = run(text);
    }
    assert!(run("").is_none());
    assert!(run("/coin\u{3000}x").is_none());
    assert_eq!(message_text(run("/dice -9223372036854775808")), "...");
    assert_eq!(message_text(run("/dice 1,")), "Rolled a 1");
}

#[test]
fn trimming_follows_unicode_white_space() {
    let t = anagram("\u{3000}ab\u{85}");
    let mut got: Vec<char> = t.chars().collect();
    got.sort();
    assert_eq!(got, vec!['a', 'b']);
    assert_eq!(list_choices(" a,\u{a0}b "), vec!["a", "b"]);
    match run("/say \t hi \u{2003}") {
        Some(BotResponse::DeleteAndSend(t)) => assert_eq!(t, "hi"),
        _ => panic!("expected delete and send"),
    }
}

#[test]
fn rick_link_from_draws() {
    assert_eq!(rick_link(true, 0, &vec![0; 10], 0), "https://youtu.be/dQw4w9WgXcQ");
    assert_eq!(rick_link(true, 4, &vec![0; 10], 0), "https://youtu.be/2xx_2XNxxfA");
    let symbols = vec![0, 1, 25, 26, 51, 52, 61, 62, 63, 2];
    assert_eq!(rick_link(false, 0, &symbols, 61), "https://youtu.be/ABZaz09_-C9");
}

#[test]
fn fortune_asks_the_line_source() {
    let mut lines = CannedLines { answer: Some("Fortune favours the bold.".to_string()), asked: 0 };
    let t = message_text(execute("/fortune", &mut lines));
    assert_eq!(t, "Fortune favours the bold.");
    assert_eq!(lines.asked, 1);
    let mut silent = CannedLines { answer: None, asked: 0 };
    assert_eq!(message_text(execute("/fortune", &mut silent)), FORTUNE_FALLBACK);
    let mut unused = CannedLines { answer: None, asked: 0 };
    let _ = execute("/coin", &mut unused);
    assert_eq!(unused.asked, 0);
}
