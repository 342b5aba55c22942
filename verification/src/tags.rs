//! Tags that mark groups of answers, and filters that pick the groups whose
//! tags fit a situation.

use vstd::prelude::*;
use crate::affinity::Affinity;
use crate::commands::Commands;
use crate::text::{decimal, decimal_text, contains_text, law_decimal_injective};
use crate::commands::law_command_name_round_trip;

verus! {

/// A tag that a group of answers can carry.
#[derive(Debug, Clone, Copy)]
pub enum Tag {
    /// Answers for a user who has just used another bot.
    UsedOtherBot,
    /// Answers for a user who went up a level.
    UserLevelUp,
    /// Answers for a user who went down a level.
    UserLevelDown,
    /// Answers for a user who gained experience.
    UserExpUp,
    /// Answers for a user who lost experience.
    UserExpDown,
    /// Answers for when a command is not carried out.
    NoExec,
    /// Answers marked with an affinity level; a group may carry several.
    Affinity(Affinity),
    /// Answers for this command; the tag is not repeatable.
    Command(Commands),
    /// Answers for one user, by id; a group that lacks it still fits.
    Anima(u64),
}

/// The text under which a tag is stored.
pub open spec fn tag_text(tag: Tag) -> Seq<char> {
    match tag {
        Tag::UsedOtherBot => "used-other-bot"@,
        Tag::UserLevelUp => "user-level-up"@,
        Tag::UserLevelDown => "user-level-down"@,
        Tag::UserExpUp => "user-exp-up"@,
        Tag::UserExpDown => "user-exp-down"@,
        Tag::NoExec => "no-exec"@,
        Tag::Affinity(level) => "affinity:"@ + level.name(),
        Tag::Command(command) => "cmd:"@ + command.name(),
        Tag::Anima(id) => "anima:"@ + decimal(id as nat),
    }
}

/// Whether a group may carry the tag more than once.
pub open spec fn tag_repeatable(tag: Tag) -> bool {
    match tag {
        Tag::Affinity(_) => true,
        Tag::Anima(_) => true,
        _ => false,
    }
}

/// Whether a group that lacks the tag still fits a filter that asks for it.
pub open spec fn tag_optional(tag: Tag) -> bool {
    match tag {
        Tag::Anima(_) => true,
        _ => false,
    }
}

impl Tag {
    /// The text under which the tag is stored.
    pub fn string(&self) -> (text: String)
        ensures
            text@ == tag_text(*self),
    {
        match self {
            Tag::UsedOtherBot => String::from_str("used-other-bot"),
            Tag::UserLevelUp => String::from_str("user-level-up"),
            Tag::UserLevelDown => String::from_str("user-level-down"),
            Tag::UserExpUp => String::from_str("user-exp-up"),
            Tag::UserExpDown => String::from_str("user-exp-down"),
            Tag::NoExec => String::from_str("no-exec"),
            Tag::Affinity(level) => {
                let mut text = String::from_str("affinity:");
                let name = level.to_string();
                text.append(name.as_str());
                text
            },
            Tag::Command(command) => {
                let mut text = String::from_str("cmd:");
                let name = command.to_string();
                text.append(name.as_str());
                text
            },
            Tag::Anima(id) => {
                let mut text = String::from_str("anima:");
                let digits = decimal_text(*id);
                text.append(digits.as_str());
                text
            },
        }
    }

    /// Whether a group may carry the tag more than once.
    pub fn repetable(&self) -> (repeatable: bool)
        ensures
            repeatable == tag_repeatable(*self),
            repeatable <==> (*self is Affinity || *self is Anima),
    {
        match self {
            Tag::UsedOtherBot => false,
            Tag::UserLevelUp => false,
            Tag::UserLevelDown => false,
            Tag::UserExpUp => false,
            Tag::UserExpDown => false,
            Tag::Affinity(_) => true,
            Tag::Command(_) => false,
            Tag::Anima(_) => true,
            Tag::NoExec => false,
        }
    }

    /// Whether a group that lacks the tag still fits.
    pub fn optional(&self) -> (optional: bool)
        ensures
            optional == tag_optional(*self),
            optional <==> *self is Anima,
    {
        match self {
            Tag::UsedOtherBot => false,
            Tag::UserLevelUp => false,
            Tag::UserLevelDown => false,
            Tag::UserExpUp => false,
            Tag::UserExpDown => false,
            Tag::Affinity(_) => false,
            Tag::Command(_) => false,
            Tag::Anima(_) => true,
            Tag::NoExec => false,
        }
    }
}

/// A tag equals a text when the text is the one the tag is stored under.
impl PartialEq<String> for Tag {
    fn eq(&self, other: &String) -> (same: bool) {
        let text = self.string();
        text == *other
    }
}

impl vstd::std_specs::cmp::PartialEqSpecImpl<String> for Tag {
    open spec fn obeys_eq_spec() -> bool {
        true
    }

    open spec fn eq_spec(&self, other: &String) -> bool {
        tag_text(*self) == other@
    }
}

/// How a level is written in a debug listing: its variant name.
pub open spec fn affinity_debug(level: Affinity) -> Seq<char> {
    match level {
        Affinity::Hate => "Hate"@,
        Affinity::Annoyed => "Annoyed"@,
        Affinity::Neutral => "Neutral"@,
        Affinity::Friend => "Friend"@,
        Affinity::Love => "Love"@,
    }
}

/// How a command is written in a debug listing: its variant name.
pub open spec fn command_debug(command: Commands) -> Seq<char> {
    match command {
        Commands::Ping => "Ping"@,
        Commands::Profile => "Profile"@,
        Commands::Balance => "Balance"@,
        Commands::Join => "Join"@,
        Commands::Leave => "Leave"@,
        Commands::Play => "Play"@,
        Commands::Stop => "Stop"@,
        Commands::Skip => "Skip"@,
        Commands::Queue => "Queue"@,
    }
}

/// How a tag is written in a debug listing: the variant name, then its
/// value in brackets when it has one.
pub open spec fn tag_debug(tag: Tag) -> Seq<char> {
    match tag {
        Tag::UsedOtherBot => "UsedOtherBot"@,
        Tag::UserLevelUp => "UserLevelUp"@,
        Tag::UserLevelDown => "UserLevelDown"@,
        Tag::UserExpUp => "UserExpUp"@,
        Tag::UserExpDown => "UserExpDown"@,
        Tag::NoExec => "NoExec"@,
        Tag::Affinity(level) => "Affinity("@ + affinity_debug(level) + ")"@,
        Tag::Command(command) => "Command("@ + command_debug(command) + ")"@,
        Tag::Anima(id) => "Anima("@ + decimal(id as nat) + ")"@,
    }
}

/// The tags written one after the other, separated by ", ".
pub open spec fn tags_joined(tags: Seq<Tag>) -> Seq<char>
    decreases tags.len(),
{
    if tags.len() == 0 {
        Seq::empty()
    } else if tags.len() == 1 {
        tag_debug(tags[0])
    } else {
        tags_joined(tags.drop_last()) + ", "@ + tag_debug(tags.last())
    }
}

/// How a level is written in a debug listing.
fn affinity_debug_text(level: Affinity) -> (text: &'static str)
    ensures
        text@ == affinity_debug(level),
{
    match level {
        Affinity::Hate => "Hate",
        Affinity::Annoyed => "Annoyed",
        Affinity::Neutral => "Neutral",
        Affinity::Friend => "Friend",
        Affinity::Love => "Love",
    }
}

/// How a command is written in a debug listing.
fn command_debug_text(command: Commands) -> (text: &'static str)
    ensures
        text@ == command_debug(command),
{
    match command {
        Commands::Ping => "Ping",
        Commands::Profile => "Profile",
        Commands::Balance => "Balance",
        Commands::Join => "Join",
        Commands::Leave => "Leave",
        Commands::Play => "Play",
        Commands::Stop => "Stop",
        Commands::Skip => "Skip",
        Commands::Queue => "Queue",
    }
}

impl Tag {
    /// How the tag is written in a debug listing.
    pub fn debug_text(&self) -> (text: String)
        ensures
            text@ == tag_debug(*self),
    {
        match self {
            Tag::UsedOtherBot => String::from_str("UsedOtherBot"),
            Tag::UserLevelUp => String::from_str("UserLevelUp"),
            Tag::UserLevelDown => String::from_str("UserLevelDown"),
            Tag::UserExpUp => String::from_str("UserExpUp"),
            Tag::UserExpDown => String::from_str("UserExpDown"),
            Tag::NoExec => String::from_str("NoExec"),
            Tag::Affinity(level) => {
                let mut text = String::from_str("Affinity(");
                text.append(affinity_debug_text(*level));
                text.append(")");
                text
            },
            Tag::Command(command) => {
                let mut text = String::from_str("Command(");
                text.append(command_debug_text(*command));
                text.append(")");
                text
            },
            Tag::Anima(id) => {
                let mut text = String::from_str("Anima(");
                let digits = decimal_text(*id);
                text.append(digits.as_str());
                text.append(")");
                text
            },
        }
    }
}

/// The first characters of a tag's text, enough to tell the kinds of tags
/// apart.
proof fn lemma_tag_text_head(tag: Tag)
    ensures
        tag_text(tag).len() >= 5,
        tag matches Tag::UsedOtherBot ==> tag_text(tag).len() == 14 && tag_text(tag)[0] == 'u' && tag_text(tag)[3] == 'd',
        tag matches Tag::UserLevelUp ==> tag_text(tag).len() == 13 && tag_text(tag)[0] == 'u' && tag_text(tag)[3] == 'r'
            && tag_text(tag)[5] == 'l' && tag_text(tag)[11] == 'u',
        tag matches Tag::UserLevelDown ==> tag_text(tag).len() == 15 && tag_text(tag)[0] == 'u' && tag_text(tag)[3] == 'r'
            && tag_text(tag)[5] == 'l' && tag_text(tag)[11] == 'd',
        tag matches Tag::UserExpUp ==> tag_text(tag).len() == 11 && tag_text(tag)[0] == 'u' && tag_text(tag)[3] == 'r'
            && tag_text(tag)[5] == 'e' && tag_text(tag)[9] == 'u',
        tag matches Tag::UserExpDown ==> tag_text(tag).len() == 13 && tag_text(tag)[0] == 'u' && tag_text(tag)[3] == 'r'
            && tag_text(tag)[5] == 'e' && tag_text(tag)[9] == 'd',
        tag matches Tag::NoExec ==> tag_text(tag)[0] == 'n',
        tag matches Tag::Affinity(_) ==> tag_text(tag)[0] == 'a' && tag_text(tag)[1] == 'f',
        tag matches Tag::Command(_) ==> tag_text(tag)[0] == 'c',
        tag matches Tag::Anima(_) ==> tag_text(tag)[0] == 'a' && tag_text(tag)[1] == 'n',
{
    reveal_strlit("used-other-bot");
    reveal_strlit("user-level-up");
    reveal_strlit("user-level-down");
    reveal_strlit("user-exp-up");
    reveal_strlit("user-exp-down");
    reveal_strlit("no-exec");
    reveal_strlit("affinity:");
    reveal_strlit("cmd:");
    reveal_strlit("anima:");
    match tag {
        Tag::Affinity(level) => {
            assert(tag_text(tag)[0] == "affinity:"@[0]);
            assert(tag_text(tag)[1] == "affinity:"@[1]);
        },
        Tag::Command(command) => {
            assert(command.name().len() >= 4);
            assert(tag_text(tag)[0] == "cmd:"@[0]);
        },
        Tag::Anima(id) => {
            crate::text::lemma_decimal_length(id as nat);
            assert(tag_text(tag)[0] == "anima:"@[0]);
            assert(tag_text(tag)[1] == "anima:"@[1]);
        },
        _ => {},
    }
}

/// No two different tags are stored under the same text.
pub proof fn law_tag_text_injective(a: Tag, b: Tag)
    requires
        tag_text(a) == tag_text(b),
    ensures
        a == b,
{
    lemma_tag_text_head(a);
    lemma_tag_text_head(b);
    match (a, b) {
        (Tag::Affinity(x), Tag::Affinity(y)) => {
            reveal_strlit("affinity:");
            assert(tag_text(a).subrange(9, tag_text(a).len() as int) =~= x.name());
            assert(tag_text(b).subrange(9, tag_text(b).len() as int) =~= y.name());
            assert(x.name() == y.name());
            assert(x.name().len() == y.name().len());
            assert(x.name()[0] == y.name()[0]);
        },
        (Tag::Command(x), Tag::Command(y)) => {
            reveal_strlit("cmd:");
            assert(tag_text(a).subrange(4, tag_text(a).len() as int) =~= x.name());
            assert(tag_text(b).subrange(4, tag_text(b).len() as int) =~= y.name());
            law_command_name_round_trip(x);
            law_command_name_round_trip(y);
        },
        (Tag::Anima(x), Tag::Anima(y)) => {
            reveal_strlit("anima:");
            assert(tag_text(a).subrange(6, tag_text(a).len() as int) =~= decimal(x as nat));
            assert(tag_text(b).subrange(6, tag_text(b).len() as int) =~= decimal(y as nat));
            law_decimal_injective(x as nat, y as nat);
        },
        _ => {},
    }
}

/// The texts of a list of strings.
pub open spec fn texts_of(strings: Seq<String>) -> Seq<Seq<char>> {
    strings.map_values(|s: String| s@)
}

/// Whether a tag's text is among `texts`.
pub open spec fn tag_present(tag: Tag, texts: Seq<Seq<char>>) -> bool {
    texts.contains(tag_text(tag))
}

/// The score after holding one more asked tag against a group: a blocked
/// group stays blocked; a carried tag adds one; a missing optional tag adds
/// nothing; a missing required tag blocks the group.
pub open spec fn with_tag(score: Option<nat>, tag: Tag, texts: Seq<Seq<char>>) -> Option<nat> {
    match score {
        None => None,
        Some(n) => if tag_present(tag, texts) {
            Some(n + 1)
        } else if tag_optional(tag) {
            Some(n)
        } else {
            None
        },
    }
}

/// The score that a group with tag texts `texts` gets from a filter asking
/// for `tags`, or `None` when the group does not fit: it does not fit when it
/// lacks a tag that is not optional; otherwise its score is the number of
/// asked tags that it carries.
pub open spec fn filter_score(tags: Seq<Tag>, texts: Seq<Seq<char>>) -> Option<nat>
    decreases tags.len(),
{
    if tags.len() == 0 {
        Some(0)
    } else {
        with_tag(filter_score(tags.drop_last(), texts), tags.last(), texts)
    }
}

/// The result of a filter.
#[derive(Debug, Clone, Copy, PartialEq, Eq, Structural)]
pub enum FilterResult {
    /// The tags fit the filter, with this score.
    Passed(u32),
    /// The tags do not fit the filter.
    Blocked,
}

/// The result that a score stands for.
pub open spec fn result_of(score: Option<nat>) -> FilterResult {
    match score {
        Some(n) => FilterResult::Passed(n as u32),
        None => FilterResult::Blocked,
    }
}

/// A set of tags that groups of answers are held against.
#[derive(Debug)]
pub struct Filter {
    tags: Vec<Tag>,
}

impl View for Filter {
    type V = Seq<Tag>;

    closed spec fn view(&self) -> Seq<Tag> {
        self.tags@
    }
}

impl Filter {
    /// A filter that asks for no tag.
    pub fn new() -> (filter: Filter)
        ensures
            filter@ == Seq::<Tag>::empty(),
    {
        Filter { tags: Vec::new() }
    }

    /// The filter that also asks for `tag`.
    pub fn tag(self, tag: Tag) -> (filter: Filter)
        ensures
            filter@ == self@.push(tag),
    {
        let mut tags = self.tags;
        tags.push(tag);
        Filter { tags }
    }

    /// The filter as it is shown: its tags in a debug listing, between square
    /// brackets and separated by ", ".
    pub fn to_string(&self) -> (text: String)
        ensures
            text@ == "["@ + tags_joined(self@) + "]"@,
    {
        let mut body = String::new();
        let mut i: usize = 0;
        while i < self.tags.len()
            invariant
                i <= self.tags@.len(),
                body@ == tags_joined(self.tags@.take(i as int)),
            decreases self.tags@.len() - i,
        {
            let ghost before = body@;
            if i > 0 {
                body.append(", ");
            }
            let item = self.tags[i].debug_text();
            body.append(item.as_str());
            proof {
                assert(self.tags@.take(i + 1).drop_last() =~= self.tags@.take(i as int));
                if i == 0 {
                    assert(body@ =~= tags_joined(self.tags@.take(1)));
                } else {
                    assert(body@ =~= before + ", "@ + tag_debug(self.tags@[i as int]));
                }
            }
            i = i + 1;
        }
        proof {
            assert(self.tags@.take(i as int) =~= self.tags@);
        }
        let mut text = String::from_str("[");
        text.append(body.as_str());
        text.append("]");
        text
    }

    /// Holds the tag texts `strings` of a group against the filter: the
    /// group is blocked when it lacks a tag that is not optional, and
    /// otherwise passes with the number of asked tags that it carries.
    pub fn check(&self, strings: &[String]) -> (result: FilterResult)
        requires
            self@.len() <= u32::MAX,
        ensures
            result == result_of(filter_score(self@, texts_of(strings@))),
    {
        let ghost texts = texts_of(strings@);
        let mut score: u32 = 0;
        let mut i: usize = 0;
        while i < self.tags.len()
            invariant
                i <= self.tags@.len(),
                self.tags@.len() <= u32::MAX,
                texts == texts_of(strings@),
                filter_score(self.tags@.take(i as int), texts) == Some(score as nat),
                score <= i,
            decreases self.tags@.len() - i,
        {
            let tag = self.tags[i];
            let text = tag.string();
            let contains = contains_text(strings, &text);
            let optional = tag.optional();
            proof {
                assert(self.tags@.take(i + 1).drop_last() =~= self.tags@.take(i as int));
                assert(self.tags@.take(i + 1).last() == tag);
                if contains {
                    let k = choose|k: int| 0 <= k < strings@.len() && #[trigger] strings@[k]@ == text@;
                    assert(texts[k] == tag_text(tag));
                } else {
                    assert forall|k: int| 0 <= k < texts.len() implies texts[k] != tag_text(tag) by {
                        assert(strings@[k]@ != text@);
                    }
                }
            }
            if !optional && !contains {
                proof {
                    lemma_blocked_stays_blocked(self.tags@, texts, i as int + 1);
                }
                return FilterResult::Blocked;
            }
            if optional && !contains {
                i = i + 1;
                continue;
            }
            score = score + 1;
            i = i + 1;
        }
        proof {
            assert(self.tags@.take(i as int) =~= self.tags@);
        }
        FilterResult::Passed(score)
    }
}

/// Once a prefix of the asked tags blocks a group, the whole filter does.
proof fn lemma_blocked_stays_blocked(tags: Seq<Tag>, texts: Seq<Seq<char>>, n: int)
    requires
        0 <= n <= tags.len(),
        filter_score(tags.take(n), texts) is None,
    ensures
        filter_score(tags, texts) is None,
    decreases tags.len() - n,
{
    if n == tags.len() {
        assert(tags.take(n) =~= tags);
    } else {
        assert(tags.take(n + 1).drop_last() =~= tags.take(n));
        lemma_blocked_stays_blocked(tags, texts, n + 1);
    }
}

/// Whether some asked tag is neither carried nor optional.
pub open spec fn lacks_required(tags: Seq<Tag>, texts: Seq<Seq<char>>) -> bool {
    exists|i: int| 0 <= i < tags.len() && !tag_optional(#[trigger] tags[i]) && !tag_present(tags[i], texts)
}

/// How many of the asked tags are carried.
pub open spec fn present_count(tags: Seq<Tag>, texts: Seq<Seq<char>>) -> nat
    decreases tags.len(),
{
    if tags.len() == 0 {
        0
    } else {
        present_count(tags.drop_last(), texts) + if tag_present(tags.last(), texts) { 1nat } else { 0nat }
    }
}

/// A filter blocks a group exactly when the group lacks an asked tag that is
/// not optional; otherwise the score is the number of asked tags it carries.
pub proof fn law_filter_score(tags: Seq<Tag>, texts: Seq<Seq<char>>)
    ensures
        filter_score(tags, texts) == (if lacks_required(tags, texts) {
            None
        } else {
            Some(present_count(tags, texts))
        }),
    decreases tags.len(),
{
    if tags.len() > 0 {
        let init = tags.drop_last();
        law_filter_score(init, texts);
        if lacks_required(init, texts) {
            let i = choose|i: int| 0 <= i < init.len() && !tag_optional(#[trigger] init[i]) && !tag_present(init[i], texts);
            assert(tags[i] == init[i]);
        }
        if lacks_required(tags, texts) {
            let i = choose|i: int| 0 <= i < tags.len() && !tag_optional(#[trigger] tags[i]) && !tag_present(tags[i], texts);
            if i < init.len() {
                assert(init[i] == tags[i]);
            }
        }
    }
}

/// Asking for one more tag: a group that carries it scores one more, a group
/// that lacks it keeps its score when the tag is optional and is blocked
/// otherwise; a blocked group stays blocked.
pub proof fn law_filter_one_more_tag(tags: Seq<Tag>, tag: Tag, texts: Seq<Seq<char>>)
    ensures
        filter_score(tags.push(tag), texts) == with_tag(filter_score(tags, texts), tag, texts),
{
    assert(tags.push(tag).drop_last() =~= tags);
}

/// A score never exceeds the number of asked tags.
pub proof fn lemma_score_at_most_tags(tags: Seq<Tag>, texts: Seq<Seq<char>>)
    ensures
        filter_score(tags, texts) matches Some(n) ==> n <= tags.len(),
    decreases tags.len(),
{
    if tags.len() > 0 {
        lemma_score_at_most_tags(tags.drop_last(), texts);
    }
}

/// Asked tags can be held against a group in either order.
proof fn lemma_with_tag_commutes(score: Option<nat>, a: Tag, b: Tag, texts: Seq<Seq<char>>)
    ensures
        with_tag(with_tag(score, a, texts), b, texts) == with_tag(with_tag(score, b, texts), a, texts),
{
}

/// Taking any one tag out of a filter and holding it last gives the same
/// score.
proof fn lemma_filter_score_remove(tags: Seq<Tag>, texts: Seq<Seq<char>>, k: int)
    requires
        0 <= k < tags.len(),
    ensures
        filter_score(tags, texts) == with_tag(filter_score(tags.remove(k), texts), tags[k], texts),
    decreases tags.len(),
{
    let init = tags.drop_last();
    if k == tags.len() - 1 {
        assert(tags.remove(k) =~= init);
    } else {
        lemma_filter_score_remove(init, texts, k);
        assert(tags.remove(k) =~= init.remove(k).push(tags.last()));
        assert(tags.remove(k).drop_last() =~= init.remove(k));
        assert(init[k] == tags[k]);
        lemma_with_tag_commutes(filter_score(init.remove(k), texts), tags[k], tags.last(), texts);
    }
}

/// The order of a filter's tags does not matter: filters asking for the same
/// tags, as many times each, give every group the same result.
pub proof fn law_filter_order_free(tags1: Seq<Tag>, tags2: Seq<Tag>, texts: Seq<Seq<char>>)
    requires
        tags1.to_multiset() == tags2.to_multiset(),
    ensures
        filter_score(tags1, texts) == filter_score(tags2, texts),
    decreases tags1.len(),
{
    broadcast use vstd::seq_lib::group_to_multiset_ensures;
    if tags1.len() == 0 {
        assert(tags2.to_multiset().len() == 0);
        assert(tags2.len() == 0);
    } else {
        let init = tags1.drop_last();
        let x = tags1.last();
        assert(init.push(x) =~= tags1);
        assert(tags1.to_multiset() =~= init.to_multiset().insert(x));
        assert(tags2.to_multiset().count(x) > 0);
        assert(tags2.contains(x));
        let k = choose|k: int| 0 <= k < tags2.len() && tags2[k] == x;
        let rest = tags2.remove(k);
        assert(rest.to_multiset() =~= tags2.to_multiset().remove(x));
        assert(rest.to_multiset() =~= init.to_multiset());
        law_filter_order_free(init, rest, texts);
        lemma_filter_score_remove(tags2, texts, k);
    }
}

/// A group that carries at least the tag texts of another never does worse:
/// when the other fits, it fits too, with at least the same score.
pub proof fn law_filter_more_texts(tags: Seq<Tag>, texts1: Seq<Seq<char>>, texts2: Seq<Seq<char>>)
    requires
        forall|x: Seq<char>| texts1.contains(x) ==> texts2.contains(x),
    ensures
        filter_score(tags, texts1) matches Some(n1) ==> (filter_score(tags, texts2) matches Some(n2) && n2 >= n1),
    decreases tags.len(),
{
    if tags.len() > 0 {
        law_filter_more_texts(tags.drop_last(), texts1, texts2);
        let t = tags.last();
        if tag_present(t, texts1) {
            assert(texts2.contains(tag_text(t)));
        }
    }
}

/// Groups that carry the same tag texts, in any order or repeated, get the
/// same result.
pub proof fn law_filter_same_texts(tags: Seq<Tag>, texts1: Seq<Seq<char>>, texts2: Seq<Seq<char>>)
    requires
        forall|x: Seq<char>| texts1.contains(x) <==> texts2.contains(x),
    ensures
        filter_score(tags, texts1) == filter_score(tags, texts2),
{
    law_filter_more_texts(tags, texts1, texts2);
    law_filter_more_texts(tags, texts2, texts1);
}

/// Only user tags are optional: every other tag that a filter asks for must
/// be carried by a group for the group to fit.
pub proof fn law_only_user_tags_optional(tag: Tag)
    ensures
        tag_optional(tag) <==> tag is Anima,
        tag_repeatable(tag) <==> (tag is Affinity || tag is Anima),
{
}

/// A filter that asks for a tag other than a user tag blocks every group
/// that does not carry that tag's text; for instance a filter asking for
/// `UserLevelDown` blocks every group without "user-level-down".
pub proof fn law_required_tag_blocks(tags: Seq<Tag>, texts: Seq<Seq<char>>, i: int)
    requires
        0 <= i < tags.len(),
        !(tags[i] is Anima),
        !texts.contains(tag_text(tags[i])),
    ensures
        filter_score(tags, texts) is None,
{
    law_filter_score(tags, texts);
    assert(!tag_optional(tags[i]) && !tag_present(tags[i], texts));
}

/// The texts of the tags that carry no value, and the prefixes of the others.
pub proof fn law_tag_texts(level: Affinity, command: Commands, id: u64)
    ensures
        tag_text(Tag::UsedOtherBot) == seq!['u', 's', 'e', 'd', '-', 'o', 't', 'h', 'e', 'r', '-', 'b', 'o', 't'],
        tag_text(Tag::UserLevelUp) == seq!['u', 's', 'e', 'r', '-', 'l', 'e', 'v', 'e', 'l', '-', 'u', 'p'],
        tag_text(Tag::UserLevelDown) == seq!['u', 's', 'e', 'r', '-', 'l', 'e', 'v', 'e', 'l', '-', 'd', 'o', 'w', 'n'],
        tag_text(Tag::UserExpUp) == seq!['u', 's', 'e', 'r', '-', 'e', 'x', 'p', '-', 'u', 'p'],
        tag_text(Tag::UserExpDown) == seq!['u', 's', 'e', 'r', '-', 'e', 'x', 'p', '-', 'd', 'o', 'w', 'n'],
        tag_text(Tag::NoExec) == seq!['n', 'o', '-', 'e', 'x', 'e', 'c'],
        tag_text(Tag::Affinity(level)) == seq!['a', 'f', 'f', 'i', 'n', 'i', 't', 'y', ':'] + level.name(),
        tag_text(Tag::Command(command)) == seq!['c', 'm', 'd', ':'] + command.name(),
        tag_text(Tag::Anima(id)) == seq!['a', 'n', 'i', 'm', 'a', ':'] + decimal(id as nat),
{
    reveal_strlit("used-other-bot");
    reveal_strlit("user-level-up");
    reveal_strlit("user-level-down");
    reveal_strlit("user-exp-up");
    reveal_strlit("user-exp-down");
    reveal_strlit("no-exec");
    reveal_strlit("affinity:");
    reveal_strlit("cmd:");
    reveal_strlit("anima:");
    assert("used-other-bot"@ =~= seq!['u', 's', 'e', 'd', '-', 'o', 't', 'h', 'e', 'r', '-', 'b', 'o', 't']);
    assert("user-level-up"@ =~= seq!['u', 's', 'e', 'r', '-', 'l', 'e', 'v', 'e', 'l', '-', 'u', 'p']);
    assert("user-level-down"@ =~= seq!['u', 's', 'e', 'r', '-', 'l', 'e', 'v', 'e', 'l', '-', 'd', 'o', 'w', 'n']);
    assert("user-exp-up"@ =~= seq!['u', 's', 'e', 'r', '-', 'e', 'x', 'p', '-', 'u', 'p']);
    assert("user-exp-down"@ =~= seq!['u', 's', 'e', 'r', '-', 'e', 'x', 'p', '-', 'd', 'o', 'w', 'n']);
    assert("no-exec"@ =~= seq!['n', 'o', '-', 'e', 'x', 'e', 'c']);
    assert("affinity:"@ =~= seq!['a', 'f', 'f', 'i', 'n', 'i', 't', 'y', ':']);
    assert("cmd:"@ =~= seq!['c', 'm', 'd', ':']);
    assert("anima:"@ =~= seq!['a', 'n', 'i', 'm', 'a', ':']);
}

/// How tags are written in a debug listing, character by character: the
/// variant's name, with its value in brackets.
pub proof fn law_debug_texts(level: Affinity, command: Commands, id: u64)
    ensures
        tag_debug(Tag::UsedOtherBot) == seq!['U', 's', 'e', 'd', 'O', 't', 'h', 'e', 'r', 'B', 'o', 't'],
        tag_debug(Tag::UserLevelUp) == seq!['U', 's', 'e', 'r', 'L', 'e', 'v', 'e', 'l', 'U', 'p'],
        tag_debug(Tag::UserLevelDown) == seq!['U', 's', 'e', 'r', 'L', 'e', 'v', 'e', 'l', 'D', 'o', 'w', 'n'],
        tag_debug(Tag::UserExpUp) == seq!['U', 's', 'e', 'r', 'E', 'x', 'p', 'U', 'p'],
        tag_debug(Tag::UserExpDown) == seq!['U', 's', 'e', 'r', 'E', 'x', 'p', 'D', 'o', 'w', 'n'],
        tag_debug(Tag::NoExec) == seq!['N', 'o', 'E', 'x', 'e', 'c'],
        tag_debug(Tag::Affinity(level)) == seq!['A', 'f', 'f', 'i', 'n', 'i', 't', 'y', '('] + affinity_debug(level) + seq![')'],
        tag_debug(Tag::Command(command)) == seq!['C', 'o', 'm', 'm', 'a', 'n', 'd', '('] + command_debug(command) + seq![')'],
        tag_debug(Tag::Anima(id)) == seq!['A', 'n', 'i', 'm', 'a', '('] + decimal(id as nat) + seq![')'],
        affinity_debug(Affinity::Hate) == seq!['H', 'a', 't', 'e'],
        affinity_debug(Affinity::Annoyed) == seq!['A', 'n', 'n', 'o', 'y', 'e', 'd'],
        affinity_debug(Affinity::Neutral) == seq!['N', 'e', 'u', 't', 'r', 'a', 'l'],
        affinity_debug(Affinity::Friend) == seq!['F', 'r', 'i', 'e', 'n', 'd'],
        affinity_debug(Affinity::Love) == seq!['L', 'o', 'v', 'e'],
        command_debug(Commands::Ping) == seq!['P', 'i', 'n', 'g'],
        command_debug(Commands::Profile) == seq!['P', 'r', 'o', 'f', 'i', 'l', 'e'],
        command_debug(Commands::Balance) == seq!['B', 'a', 'l', 'a', 'n', 'c', 'e'],
        command_debug(Commands::Join) == seq!['J', 'o', 'i', 'n'],
        command_debug(Commands::Leave) == seq!['L', 'e', 'a', 'v', 'e'],
        command_debug(Commands::Play) == seq!['P', 'l', 'a', 'y'],
        command_debug(Commands::Stop) == seq!['S', 't', 'o', 'p'],
        command_debug(Commands::Skip) == seq!['S', 'k', 'i', 'p'],
        command_debug(Commands::Queue) == seq!['Q', 'u', 'e', 'u', 'e'],
{
    reveal_strlit(")");
    reveal_strlit("Affinity(");
    reveal_strlit("Anima(");
    reveal_strlit("Annoyed");
    reveal_strlit("Balance");
    reveal_strlit("Command(");
    reveal_strlit("Friend");
    reveal_strlit("Hate");
    reveal_strlit("Join");
    reveal_strlit("Leave");
    reveal_strlit("Love");
    reveal_strlit("Neutral");
    reveal_strlit("NoExec");
    reveal_strlit("Ping");
    reveal_strlit("Play");
    reveal_strlit("Profile");
    reveal_strlit("Queue");
    reveal_strlit("Skip");
    reveal_strlit("Stop");
    reveal_strlit("UsedOtherBot");
    reveal_strlit("UserExpDown");
    reveal_strlit("UserExpUp");
    reveal_strlit("UserLevelDown");
    reveal_strlit("UserLevelUp");
    assert(")"@ =~= seq![')']);
    assert("Affinity("@ =~= seq!['A', 'f', 'f', 'i', 'n', 'i', 't', 'y', '(']);
    assert("Anima("@ =~= seq!['A', 'n', 'i', 'm', 'a', '(']);
    assert("Annoyed"@ =~= seq!['A', 'n', 'n', 'o', 'y', 'e', 'd']);
    assert("Balance"@ =~= seq!['B', 'a', 'l', 'a', 'n', 'c', 'e']);
    assert("Command("@ =~= seq!['C', 'o', 'm', 'm', 'a', 'n', 'd', '(']);
    assert("Friend"@ =~= seq!['F', 'r', 'i', 'e', 'n', 'd']);
    assert("Hate"@ =~= seq!['H', 'a', 't', 'e']);
    assert("Join"@ =~= seq!['J', 'o', 'i', 'n']);
    assert("Leave"@ =~= seq!['L', 'e', 'a', 'v', 'e']);
    assert("Love"@ =~= seq!['L', 'o', 'v', 'e']);
    assert("Neutral"@ =~= seq!['N', 'e', 'u', 't', 'r', 'a', 'l']);
    assert("NoExec"@ =~= seq!['N', 'o', 'E', 'x', 'e', 'c']);
    assert("Ping"@ =~= seq!['P', 'i', 'n', 'g']);
    assert("Play"@ =~= seq!['P', 'l', 'a', 'y']);
    assert("Profile"@ =~= seq!['P', 'r', 'o', 'f', 'i', 'l', 'e']);
    assert("Queue"@ =~= seq!['Q', 'u', 'e', 'u', 'e']);
    assert("Skip"@ =~= seq!['S', 'k', 'i', 'p']);
    assert("Stop"@ =~= seq!['S', 't', 'o', 'p']);
    assert("UsedOtherBot"@ =~= seq!['U', 's', 'e', 'd', 'O', 't', 'h', 'e', 'r', 'B', 'o', 't']);
    assert("UserExpDown"@ =~= seq!['U', 's', 'e', 'r', 'E', 'x', 'p', 'D', 'o', 'w', 'n']);
    assert("UserExpUp"@ =~= seq!['U', 's', 'e', 'r', 'E', 'x', 'p', 'U', 'p']);
    assert("UserLevelDown"@ =~= seq!['U', 's', 'e', 'r', 'L', 'e', 'v', 'e', 'l', 'D', 'o', 'w', 'n']);
    assert("UserLevelUp"@ =~= seq!['U', 's', 'e', 'r', 'L', 'e', 'v', 'e', 'l', 'U', 'p']);
}

} // verus!
