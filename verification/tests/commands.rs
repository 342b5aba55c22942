use discordia::commands::{
    balance_text, balance_title,
    exp_gain_text, exp_loss_text, is_link, level_down_text, level_down_title, level_up_text,
    level_up_title, Commands,
};

#[test]
fn command_names_round_trip() {
    let all = [
        Commands::Ping,
        Commands::Profile,
        Commands::Balance,
        Commands::Join,
        Commands::Leave,
        Commands::Play,
        Commands::Stop,
        Commands::Skip,
        Commands::Queue,
    ];
    for command in all.iter() {
        assert_eq!(Commands::from_str(&command.to_string()), Some(*command));
    }
    assert_eq!(Commands::Balance.to_string(), "balance");
    assert_eq!(Commands::from_str("Ping"), None);
    assert_eq!(Commands::from_str(""), None);
    assert_eq!(Commands::from_str("pong"), None);
}

#[test]
fn affinity_change_of_commands() {
    assert_eq!(Commands::Play.affinity_change(), 50);
    assert_eq!(Commands::Ping.affinity_change(), 0);
    assert_eq!(Commands::Queue.affinity_change(), 0);
}

#[test]
fn link_detection() {
    assert!(is_link("https://youtu.be/x"));
    assert!(is_link("http"));
    assert!(!is_link("htt"));
    assert!(!is_link("never gonna give you up"));
}

#[test]
fn exp_texts() {
    assert_eq!(exp_gain_text("bravo", 6), "bravo\n```diff\n+6 exp\n```");
    assert_eq!(exp_loss_text("no", 50), "no\n```diff\n-50 exp\n```");
    assert_eq!(exp_loss_text("no", -5), "no\n```diff\n--5 exp\n```");
}

#[test]
fn level_texts() {
    assert_eq!(level_up_title("mario"), "mario ha guadagnato un livello!");
    assert_eq!(level_down_title("mario"), "mario ha perso un livello!");
    assert_eq!(
        level_up_text("evviva", 5, 6),
        "evviva\n```diff\n+ Livello: 5 → 6\n+ Grado: D```"
    );
    assert_eq!(
        level_down_text("peccato", 36, 35),
        "peccato\n```diff\n- Livello: 36 → 35\n- Grado: SS```"
    );
}

#[test]
fn balance_texts() {
    assert_eq!(balance_title("mario"), "Soldi di *mario*");
    assert_eq!(balance_text(1200), "```fix\n1200\n```");
}
