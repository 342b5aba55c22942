use discordia::database::anima::Anima;
use discordia::database::RedisKey;
use discordia::embed::{decrease_exp, increase_exp, level_down, level_up, stats, EmbedFailure};
use discordia::table::profile_table;

#[test]
fn level_up_embed() {
    let embed = level_up("mario", "evviva", 5, 6).unwrap().into_embed();
    assert_eq!(embed.title.as_deref(), Some("mario ha guadagnato un livello!"));
    assert_eq!(
        embed.description.as_deref(),
        Some("evviva\n```diff\n+ Livello: 5 → 6\n+ Grado: D```")
    );
    assert_eq!(
        embed.thumbnail.and_then(|t| t.url).as_deref(),
        Some("https://www.iconfinder.com/data/icons/font-awesome/1792/level-up-512.png")
    );
}

#[test]
fn level_down_embed() {
    let embed = level_down("mario", "peccato", 11, 10).unwrap().into_embed();
    assert_eq!(embed.title.as_deref(), Some("mario ha perso un livello!"));
    assert_eq!(
        embed.description.as_deref(),
        Some("peccato\n```diff\n- Livello: 11 → 10\n- Grado: D```")
    );
    assert_eq!(
        embed.thumbnail.and_then(|t| t.url).as_deref(),
        Some("https://www.iconfinder.com/data/icons/font-awesome/1792/level-down-512.png")
    );
}

#[test]
fn exp_embeds() {
    let embed = increase_exp("ok", 50).unwrap().into_embed();
    assert_eq!(embed.description.as_deref(), Some("ok\n```diff\n+ 50 exp\n```"));
    assert!(embed.title.is_none());
    assert!(embed.thumbnail.is_none());
    assert_eq!(embed.kind, "rich");
    let embed = decrease_exp("ko", 7).unwrap().into_embed();
    assert_eq!(embed.description.as_deref(), Some("ko\n```diff\n- 7 exp\n```"));
}

#[test]
fn too_long_texts_are_refused() {
    let long = "x".repeat(300);
    assert_eq!(level_up(&long, "m", 1, 2).err(), Some(EmbedFailure::Rejected));
    let longer = "y".repeat(5000);
    assert_eq!(increase_exp(&longer, 1).err(), Some(EmbedFailure::Rejected));
    let anima = Anima::new("anima:1", 1, 2, 3);
    assert_eq!(stats("", &anima).err(), Some(EmbedFailure::Rejected));
}

#[test]
fn stats_embed_and_profile_table() {
    let anima = Anima::new("anima:1", 100, 2, 30);
    assert_eq!(anima.key(), "anima:1");
    assert_eq!((anima.money(), anima.level(), anima.exp()), (100, 2, 30));
    let table = profile_table(100, 2, 30);
    assert!(table.contains("money"));
    assert!(table.contains("100"));
    assert!(table.contains("  exp"));
    let embed = stats("mario", &anima).unwrap().into_embed();
    assert_eq!(embed.title.as_deref(), Some("mario"));
    assert_eq!(embed.description.as_deref(), Some(table.as_str()));
}
