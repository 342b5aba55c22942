//! Picking an answer: the groups of answers whose tags fit a filter best, and
//! a random pick among them.

use vstd::prelude::*;
use rand::seq::SliceRandom;
use crate::tags::{Filter, Tag, texts_of, filter_score};

verus! {

/// The random number generator of the current thread, from `rand`.
#[verifier::external_type_specification]
#[verifier::external_body]
pub struct ExThreadRng(rand::rngs::ThreadRng);

/// Calls `rand::thread_rng`, which hands out the current thread's generator.
/// Nothing is claimed of the generator.
#[verifier::external_body]
fn thread_rng() -> rand::rngs::ThreadRng {
    rand::thread_rng()
}

/// Calls `SliceRandom::choose` of `rand` on a slice: it returns `None` when
/// the slice is empty and otherwise a reference to one of its elements, at a
/// random index. Which element is left unsaid, as it rests on chance.
#[verifier::external_body]
fn choose_in<'a, T>(items: &'a [T], rng: &mut rand::rngs::ThreadRng) -> (picked: Option<&'a T>)
    ensures
        picked is None <==> items@.len() == 0,
        picked matches Some(p) ==> exists|i: int| 0 <= i < items@.len() && items@[i] == *p,
{
    items.choose(rng)
}

/// A group of answers as stored: its name and the texts of its tags.
pub struct Group {
    pub name: String,
    pub tags: Vec<String>,
}

/// The score of a group under a filter that asks for `tags`.
pub open spec fn group_score(tags: Seq<Tag>, group: Group) -> Option<nat> {
    filter_score(tags, texts_of(group.tags@))
}

/// The highest score that a fitting group gets, and at least 1.
pub open spec fn best_score(tags: Seq<Tag>, groups: Seq<Group>) -> nat
    decreases groups.len(),
{
    if groups.len() == 0 {
        1
    } else {
        let rest = best_score(tags, groups.drop_last());
        match group_score(tags, groups.last()) {
            Some(n) => if n > rest { n } else { rest },
            None => rest,
        }
    }
}

/// The names, in order, of the groups that fit with score `score`.
pub open spec fn groups_scoring(tags: Seq<Tag>, groups: Seq<Group>, score: nat) -> Seq<Seq<char>>
    decreases groups.len(),
{
    if groups.len() == 0 {
        Seq::empty()
    } else {
        let rest = groups_scoring(tags, groups.drop_last(), score);
        if group_score(tags, groups.last()) == Some(score) {
            rest.push(groups.last().name@)
        } else {
            rest
        }
    }
}

/// The names of the candidates, in order, whose score is `score`.
spec fn candidates_scoring(candidates: Seq<(String, u32)>, score: nat) -> Seq<Seq<char>>
    decreases candidates.len(),
{
    if candidates.len() == 0 {
        Seq::empty()
    } else {
        let rest = candidates_scoring(candidates.drop_last(), score);
        if candidates.last().1 == score {
            rest.push(candidates.last().0@)
        } else {
            rest
        }
    }
}

/// The names of the groups that fit `filter` with the highest score, in the
/// order given; a group must score at least 1 to be among them.
pub fn winning_groups(filter: &Filter, groups: &[Group]) -> (names: Vec<String>)
    requires
        filter@.len() <= u32::MAX,
    ensures
        names@.map_values(|s: String| s@) == groups_scoring(filter@, groups@, best_score(filter@, groups@)),
{
    let ghost tags = filter@;
    let mut candidates: Vec<(String, u32)> = Vec::new();
    let mut winner_score: u32 = 1;
    let mut i: usize = 0;
    while i < groups.len()
        invariant
            i <= groups@.len(),
            tags == filter@,
            filter@.len() <= u32::MAX,
            winner_score as nat == best_score(tags, groups@.take(i as int)),
            forall|k: int| 0 <= k < candidates@.len() ==> #[trigger] candidates@[k].1 <= winner_score,
            forall|m: nat| m >= winner_score ==> #[trigger] candidates_scoring(candidates@, m)
                == groups_scoring(tags, groups@.take(i as int), m),
        decreases groups@.len() - i,
    {
        let group = &groups[i];
        let result = filter.check(group.tags.as_slice());
        let ghost before = candidates@;
        let ghost prefix = groups@.take(i as int);
        proof {
            assert(groups@.take(i + 1).drop_last() =~= prefix);
            assert(groups@.take(i + 1).last() == *group);
        }
        match result {
            crate::tags::FilterResult::Passed(score) => {
                proof {
                    crate::tags::lemma_score_at_most_tags(tags, texts_of(group.tags@));
                }
                if score >= winner_score {
                    candidates.push((group.name.clone(), score));
                    proof {
                        assert(candidates@.drop_last() =~= before);
                        assert(group_score(tags, *group) == Some(score as nat));
                        assert(candidates@.last() == (group.name, score));
                        assert forall|m: nat| m >= score implies #[trigger] candidates_scoring(candidates@, m)
                            == groups_scoring(tags, groups@.take(i + 1), m) by {
                            assert(candidates_scoring(before, m) == groups_scoring(tags, prefix, m));
                        }
                    }
                    winner_score = score;
                } else {
                    proof {
                        assert forall|m: nat| m >= winner_score implies #[trigger] candidates_scoring(candidates@, m)
                            == groups_scoring(tags, groups@.take(i + 1), m) by {
                        }
                    }
                }
            },
            crate::tags::FilterResult::Blocked => {
                proof {
                    assert forall|m: nat| m >= winner_score implies #[trigger] candidates_scoring(candidates@, m)
                        == groups_scoring(tags, groups@.take(i + 1), m) by {
                    }
                }
            },
        }
        i = i + 1;
    }
    proof {
        assert(groups@.take(i as int) =~= groups@);
    }
    let mut names: Vec<String> = Vec::new();
    let mut j: usize = 0;
    while j < candidates.len()
        invariant
            j <= candidates@.len(),
            names@.map_values(|s: String| s@) == candidates_scoring(candidates@.take(j as int), winner_score as nat),
        decreases candidates@.len() - j,
    {
        proof {
            assert(candidates@.take(j + 1).drop_last() =~= candidates@.take(j as int));
        }
        if candidates[j].1 == winner_score {
            let ghost old_names = names@;
            names.push(candidates[j].0.clone());
            proof {
                assert(names@.map_values(|s: String| s@) =~= old_names.map_values(|s: String| s@).push(candidates@[j as int].0@));
            }
        }
        j = j + 1;
    }
    proof {
        assert(candidates@.take(j as int) =~= candidates@);
    }
    names
}

/// The best score is at least 1, no fitting group scores more, and when it
/// is above 1 some group reaches it.
pub proof fn law_best_score_is_highest(tags: Seq<Tag>, groups: Seq<Group>)
    ensures
        best_score(tags, groups) >= 1,
        forall|k: int| 0 <= k < groups.len() ==> (#[trigger] group_score(tags, groups[k]) matches Some(n)
            ==> n <= best_score(tags, groups)),
        best_score(tags, groups) > 1 ==> exists|k: int| 0 <= k < groups.len()
            && #[trigger] group_score(tags, groups[k]) == Some(best_score(tags, groups)),
    decreases groups.len(),
{
    if groups.len() > 0 {
        let init = groups.drop_last();
        law_best_score_is_highest(tags, init);
        assert forall|k: int| 0 <= k < groups.len() implies (#[trigger] group_score(tags, groups[k]) matches Some(n)
            ==> n <= best_score(tags, groups)) by {
            if k < init.len() {
                assert(groups[k] == init[k]);
            }
        }
        if best_score(tags, groups) > 1 {
            if best_score(tags, groups) == best_score(tags, init) {
                let k = choose|k: int| 0 <= k < init.len()
                    && #[trigger] group_score(tags, init[k]) == Some(best_score(tags, init));
                assert(groups[k] == init[k]);
            } else {
                assert(group_score(tags, groups[groups.len() - 1]) == Some(best_score(tags, groups)));
            }
        }
    }
}

/// A group is among those named with score `score` exactly when it fits with
/// that score.
pub proof fn law_groups_scoring_members(tags: Seq<Tag>, groups: Seq<Group>, score: nat, k: int)
    requires
        0 <= k < groups.len(),
        group_score(tags, groups[k]) == Some(score),
    ensures
        groups_scoring(tags, groups, score).contains(groups[k].name@),
    decreases groups.len(),
{
    let init = groups.drop_last();
    if k < init.len() {
        assert(groups[k] == init[k]);
        law_groups_scoring_members(tags, init, score, k);
        let rest = groups_scoring(tags, init, score);
        let j = choose|j: int| 0 <= j < rest.len() && rest[j] == groups[k].name@;
        if group_score(tags, groups.last()) == Some(score) {
            assert(rest.push(groups.last().name@)[j] == groups[k].name@);
        }
    } else {
        let rest = groups_scoring(tags, init, score);
        assert(groups_scoring(tags, groups, score)[rest.len() as int] == groups[k].name@);
    }
}

/// Every name among those with score `score` is the name of a group that fits
/// with that score.
pub proof fn law_groups_scoring_only_members(tags: Seq<Tag>, groups: Seq<Group>, score: nat, j: int)
    requires
        0 <= j < groups_scoring(tags, groups, score).len(),
    ensures
        exists|k: int| 0 <= k < groups.len() && group_score(tags, #[trigger] groups[k]) == Some(score)
            && groups[k].name@ == groups_scoring(tags, groups, score)[j],
    decreases groups.len(),
{
    let init = groups.drop_last();
    let rest = groups_scoring(tags, init, score);
    if j < rest.len() {
        law_groups_scoring_only_members(tags, init, score, j);
        let k = choose|k: int| 0 <= k < init.len() && group_score(tags, #[trigger] init[k]) == Some(score)
            && init[k].name@ == rest[j];
        assert(groups[k] == init[k]);
    } else {
        let k = groups.len() - 1;
        assert(groups[k] == groups.last());
    }
}

/// One of `answers`, picked at random with `rand`; `None` when there is none.
pub fn pick_random(answers: &[String]) -> (picked: Option<String>)
    ensures
        picked is None <==> answers@.len() == 0,
        picked matches Some(p) ==> exists|i: int| 0 <= i < answers@.len() && answers@[i]@ == p@,
{
    let mut rng = thread_rng();
    match choose_in(answers, &mut rng) {
        Some(answer) => Some(answer.clone()),
        None => None,
    }
}

} // verus!
