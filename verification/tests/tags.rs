use discordia::affinity::Affinity;
use discordia::commands::Commands;
use discordia::tags::{Filter, FilterResult, Tag};

#[test]
fn filter() {
    let filter1 = Filter::new()
        .tag(Tag::Command(Commands::Ping))
        .tag(Tag::Anima(59685490));

    let filter2 = Filter::new().tag(Tag::Command(Commands::Ping));

    let tags1 = ["cmd:ping".to_string(), "anima:59685490".to_string()];
    let tags2 = ["cmd:ping".to_string()];

    assert_eq!(filter1.check(&tags1), FilterResult::Passed(2));
    assert_eq!(filter2.check(&tags1), FilterResult::Passed(1));
    assert_eq!(filter1.check(&tags2), FilterResult::Passed(1));
}

#[test]
fn tag_texts() {
    assert_eq!(Tag::UsedOtherBot.string(), "used-other-bot");
    assert_eq!(Tag::UserLevelUp.string(), "user-level-up");
    assert_eq!(Tag::UserLevelDown.string(), "user-level-down");
    assert_eq!(Tag::UserExpUp.string(), "user-exp-up");
    assert_eq!(Tag::UserExpDown.string(), "user-exp-down");
    assert_eq!(Tag::NoExec.string(), "no-exec");
    assert_eq!(Tag::Affinity(Affinity::Friend).string(), "affinity:friend");
    assert_eq!(Tag::Command(Commands::Queue).string(), "cmd:queue");
    assert_eq!(Tag::Anima(0).string(), "anima:0");
    assert_eq!(Tag::Anima(u64::MAX).string(), "anima:18446744073709551615");
}

#[test]
fn tag_kinds() {
    assert!(Tag::Anima(3).optional());
    assert!(!Tag::Command(Commands::Play).optional());
    assert!(!Tag::Affinity(Affinity::Hate).optional());
    assert!(Tag::Affinity(Affinity::Hate).repetable());
    assert!(Tag::Anima(3).repetable());
    assert!(!Tag::NoExec.repetable());
}

#[test]
fn tag_equals_its_text() {
    assert!(Tag::Anima(42) == "anima:42".to_string());
    assert!(Tag::Anima(42) != "anima:43".to_string());
    assert!(Tag::Command(Commands::Skip) == "cmd:skip".to_string());
}

#[test]
fn filter_blocks_missing_required_tag() {
    let filter = Filter::new()
        .tag(Tag::Anima(7))
        .tag(Tag::UsedOtherBot);
    let strings = ["anima:7".to_string(), "cmd:ping".to_string()];
    assert_eq!(filter.check(&strings), FilterResult::Blocked);
    let strings = ["used-other-bot".to_string()];
    assert_eq!(filter.check(&strings), FilterResult::Passed(1));
}

#[test]
fn empty_filter_passes_with_zero() {
    let filter = Filter::new();
    let strings: [String; 0] = [];
    assert_eq!(filter.check(&strings), FilterResult::Passed(0));
}

#[test]
fn one_more_tag_law_on_values() {
    let base = Filter::new().tag(Tag::Command(Commands::Play));
    let strings = ["cmd:play".to_string(), "affinity:love".to_string()];
    assert_eq!(base.check(&strings), FilterResult::Passed(1));
    let more = Filter::new().tag(Tag::Command(Commands::Play)).tag(Tag::Affinity(Affinity::Love));
    assert_eq!(more.check(&strings), FilterResult::Passed(2));
    let optional_missing = Filter::new().tag(Tag::Command(Commands::Play)).tag(Tag::Anima(1));
    assert_eq!(optional_missing.check(&strings), FilterResult::Passed(1));
    let required_missing = Filter::new().tag(Tag::Command(Commands::Play)).tag(Tag::NoExec);
    assert_eq!(required_missing.check(&strings), FilterResult::Blocked);
}

#[test]
fn filter_shows_its_tags() {
    let tags = vec![
        Tag::Command(Commands::Ping),
        Tag::Anima(59685490),
        Tag::Affinity(Affinity::Friend),
        Tag::NoExec,
    ];
    let mut filter = Filter::new();
    for tag in tags.iter() {
        filter = filter.tag(*tag);
    }
    assert_eq!(filter.to_string(), format!("{:?}", tags));
    assert_eq!(Filter::new().to_string(), "[]");
    assert_eq!(Tag::UserExpDown.debug_text(), format!("{:?}", Tag::UserExpDown));
}

#[test]
fn different_tags_have_different_texts() {
    let tags = vec![
        Tag::UsedOtherBot,
        Tag::UserLevelUp,
        Tag::UserLevelDown,
        Tag::UserExpUp,
        Tag::UserExpDown,
        Tag::NoExec,
        Tag::Affinity(Affinity::Hate),
        Tag::Affinity(Affinity::Love),
        Tag::Command(Commands::Ping),
        Tag::Command(Commands::Play),
        Tag::Anima(1),
        Tag::Anima(10),
    ];
    for (i, a) in tags.iter().enumerate() {
        for (j, b) in tags.iter().enumerate() {
            assert_eq!(i == j, a.string() == b.string());
        }
    }
}

#[test]
fn tag_order_and_extra_texts() {
    let forward = Filter::new().tag(Tag::Command(Commands::Ping)).tag(Tag::Anima(5)).tag(Tag::NoExec);
    let backward = Filter::new().tag(Tag::NoExec).tag(Tag::Anima(5)).tag(Tag::Command(Commands::Ping));
    let few = ["no-exec".to_string(), "cmd:ping".to_string()];
    let more = ["cmd:ping".to_string(), "x".to_string(), "anima:5".to_string(), "no-exec".to_string()];
    assert_eq!(forward.check(&few), backward.check(&few));
    assert_eq!(forward.check(&more), backward.check(&more));
    assert_eq!(forward.check(&few), FilterResult::Passed(2));
    assert_eq!(forward.check(&more), FilterResult::Passed(3));
    let repeated = ["cmd:ping".to_string(), "no-exec".to_string(), "cmd:ping".to_string()];
    assert_eq!(forward.check(&repeated), forward.check(&few));
}
