use discordia::anima::Anima;
use discordia::bot::{
    command_filter, command_reward, event_filter, is_other_bot_call, punish_other_bot,
    reward_user, OTHER_BOT_DAMAGE_EXP,
};
use discordia::commands::Commands;
use discordia::tags::{FilterResult, Tag};

#[test]
fn other_bot_calls() {
    assert!(is_other_bot_call("!play"));
    assert!(is_other_bot_call("-skip"));
    assert!(!is_other_bot_call(".play"));
    assert!(!is_other_bot_call(""));
    assert_eq!(OTHER_BOT_DAMAGE_EXP, -50);
}

#[test]
fn rewards() {
    assert_eq!(command_reward(Commands::Play), 6);
    assert_eq!(command_reward(Commands::Balance), 2);
    assert_eq!(command_reward(Commands::Profile), 2);
    assert_eq!(command_reward(Commands::Ping), 0);
}

#[test]
fn filters_for_events() {
    let filter = event_filter(9, Tag::UsedOtherBot);
    let strings = ["anima:9".to_string(), "used-other-bot".to_string()];
    assert_eq!(filter.check(&strings), FilterResult::Passed(2));
    let filter = command_filter(Commands::Ping, 9);
    let strings = ["cmd:ping".to_string()];
    assert_eq!(filter.check(&strings), FilterResult::Passed(1));
}

#[test]
fn punishment_and_reward() {
    let mut anima = Anima::new(10, 60);
    let follow = punish_other_bot(4, &mut anima).expect("level dropped");
    assert_eq!(anima.affinity_score, 10);
    let strings = ["anima:4".to_string(), "user-level-down".to_string()];
    assert_eq!(follow.check(&strings), FilterResult::Passed(2));
    assert!(punish_other_bot(4, &mut anima).is_none());
    assert_eq!(anima.affinity_score, 0);
    assert!(reward_user(4, 6, &mut anima).is_none());
    assert_eq!(anima.affinity_score, 6);
    let follow = reward_user(4, 10, &mut anima).expect("level rose");
    let strings = ["anima:4".to_string(), "user-level-up".to_string()];
    assert_eq!(follow.check(&strings), FilterResult::Passed(2));
    assert_eq!(anima.money, 10);
}
