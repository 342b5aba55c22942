use discordia::commands::Commands;
use discordia::response::{pick_random, winning_groups, Group};
use discordia::tags::{Filter, Tag};

fn group(name: &str, tags: &[&str]) -> Group {
    Group {
        name: name.to_string(),
        tags: tags.iter().map(|t| t.to_string()).collect(),
    }
}

#[test]
fn best_scoring_groups_win() {
    let filter = Filter::new()
        .tag(Tag::Command(Commands::Ping))
        .tag(Tag::Anima(7));
    let groups = vec![
        group("general", &["cmd:ping"]),
        group("personal", &["cmd:ping", "anima:7"]),
        group("other", &["cmd:play"]),
        group("personal2", &["anima:7", "cmd:ping", "no-exec"]),
    ];
    assert_eq!(winning_groups(&filter, &groups), vec!["personal".to_string(), "personal2".to_string()]);
}

#[test]
fn ties_keep_order_and_zero_scores_lose() {
    let filter = Filter::new().tag(Tag::Command(Commands::Ping));
    let groups = vec![group("a", &["cmd:ping"]), group("b", &["x"]), group("c", &["cmd:ping"])];
    assert_eq!(winning_groups(&filter, &groups), vec!["a".to_string(), "c".to_string()]);

    let only_optional = Filter::new().tag(Tag::Anima(1));
    let groups = vec![group("a", &["cmd:ping"])];
    assert!(winning_groups(&only_optional, &groups).is_empty());
    assert!(winning_groups(&filter, &[]).is_empty());
}

#[test]
fn random_pick_is_one_of_the_answers() {
    let answers = vec!["one".to_string(), "two".to_string(), "three".to_string()];
    for _ in 0..20 {
        let picked = pick_random(&answers).unwrap();
        assert!(answers.contains(&picked));
    }
    assert_eq!(pick_random(&[]), None);
}
