use discordia::affinity::{Affinity, AffinityChange, AffinityLevel, AffinityScore};
use discordia::anima::exp::Rank;
use discordia::anima::Anima;
use discordia::user::User;

#[test]
fn from_score_bounds() {
    assert_eq!(Affinity::from_score(0), Affinity::Hate);
    assert_eq!(Affinity::from_score(15), Affinity::Hate);
    assert_eq!(Affinity::from_score(16), Affinity::Annoyed);
    assert_eq!(Affinity::from_score(50), Affinity::Annoyed);
    assert_eq!(Affinity::from_score(51), Affinity::Neutral);
    assert_eq!(Affinity::from_score(150), Affinity::Neutral);
    assert_eq!(Affinity::from_score(151), Affinity::Friend);
    assert_eq!(Affinity::from_score(240), Affinity::Friend);
    assert_eq!(Affinity::from_score(241), Affinity::Love);
    assert_eq!(Affinity::from_score(255), Affinity::Love);
}

#[test]
fn affinity_names() {
    assert_eq!(Affinity::Hate.to_string(), "hate");
    assert_eq!(Affinity::Annoyed.to_string(), "annoyed");
    assert_eq!(Affinity::Neutral.to_string(), "neutral");
    assert_eq!(Affinity::Friend.to_string(), "friend");
    assert_eq!(Affinity::Love.to_string(), "love");
}

#[test]
fn score_sub_reports_level_drop() {
    let mut score = AffinityScore::new(AffinityLevel::Annoyed, 60);
    assert_eq!(score.sub(5), None);
    assert_eq!(score.score(), 55);
    assert_eq!(score.sub(10), Some((Affinity::Neutral, Affinity::Annoyed)));
    assert_eq!(score.score(), 45);
    assert_eq!(score.sub(200), Some((Affinity::Annoyed, Affinity::Hate)));
    assert_eq!(score.score(), 0);
    assert_eq!(score.sub(1), None);
    assert_eq!(score.score(), 0);
}

#[test]
fn score_add_reports_level_rise() {
    let mut score = AffinityScore::new(AffinityLevel::Hate, 230);
    assert_eq!(score.add(10), None);
    assert_eq!(score.score(), 240);
    assert_eq!(score.add(1), Some((Affinity::Friend, Affinity::Love)));
    assert_eq!(score.add(100), None);
    assert_eq!(score.score(), 255);
}

#[test]
fn add_undoes_sub_without_saturation() {
    let mut score = AffinityScore::new(AffinityLevel::Hate, 100);
    score.sub(40);
    score.add(40);
    assert_eq!(score.score(), 100);
    let mut score = AffinityScore::new(AffinityLevel::Hate, 10);
    score.sub(40);
    score.add(40);
    assert_eq!(score.score(), 40);
}

#[test]
fn anima_affinity_changes() {
    let mut anima = Anima::new(30, 127);
    assert!(matches!(anima.affinity_sub(50), AffinityChange::Unchanged));
    assert_eq!(anima.affinity_score, 77);
    assert!(matches!(anima.affinity_sub(50), AffinityChange::Changed(Affinity::Neutral, Affinity::Annoyed)));
    assert_eq!(anima.affinity_score, 27);
    assert_eq!(anima.money, 30);
    assert!(matches!(anima.affinity_add(6), AffinityChange::Unchanged));
    assert_eq!(anima.affinity_score, 33);
    assert!(matches!(anima.affinity_add(250), AffinityChange::Changed(Affinity::Annoyed, Affinity::Love)));
    assert_eq!(anima.affinity_score, 255);
}

#[test]
fn rank_from_level() {
    assert_eq!(Rank::from_level(0), Rank::E);
    assert_eq!(Rank::from_level(5), Rank::E);
    assert_eq!(Rank::from_level(6), Rank::D);
    assert_eq!(Rank::from_level(11), Rank::C);
    assert_eq!(Rank::from_level(20), Rank::B);
    assert_eq!(Rank::from_level(25), Rank::A);
    assert_eq!(Rank::from_level(30), Rank::S);
    assert_eq!(Rank::from_level(35), Rank::SS);
    assert_eq!(Rank::from_level(36), Rank::SSS);
    assert_eq!(Rank::from_level(u32::MAX), Rank::SSS);
    assert_eq!(Rank::SSS.to_string(), "SSS");
    assert_eq!(Rank::SS.to_string(), "SS");
    assert_eq!(Rank::E.to_string(), "E");
}

#[test]
fn user_holds_score() {
    let user = User { affinity: AffinityScore::new(AffinityLevel::Hate, 3) };
    assert_eq!(user.affinity.score(), 3);
}
