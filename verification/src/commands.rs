//! The commands that users can give the bot.

use vstd::prelude::*;
use crate::text::{same_text, decimal, decimal_text, signed_decimal, signed_decimal_text};
use crate::anima::exp::{Rank, rank_of};

verus! {

/// Every command the bot understands.
#[derive(Debug, Clone, Copy, PartialEq, Eq, Structural)]
pub enum Commands {
    Ping,
    Profile,
    Balance,
    Join,
    Leave,
    Play,
    Stop,
    Skip,
    Queue,
}

impl Commands {
    /// The lower-case name under which the command is typed and stored.
    pub open spec fn name(self) -> Seq<char> {
        match self {
            Commands::Ping => seq!['p', 'i', 'n', 'g'],
            Commands::Profile => seq!['p', 'r', 'o', 'f', 'i', 'l', 'e'],
            Commands::Balance => seq!['b', 'a', 'l', 'a', 'n', 'c', 'e'],
            Commands::Join => seq!['j', 'o', 'i', 'n'],
            Commands::Leave => seq!['l', 'e', 'a', 'v', 'e'],
            Commands::Play => seq!['p', 'l', 'a', 'y'],
            Commands::Stop => seq!['s', 't', 'o', 'p'],
            Commands::Skip => seq!['s', 'k', 'i', 'p'],
            Commands::Queue => seq!['q', 'u', 'e', 'u', 'e'],
        }
    }

    /// The command whose name is `text`, if any.
    pub open spec fn named(text: Seq<char>) -> Option<Commands> {
        if text == Commands::Ping.name() { Some(Commands::Ping) }
        else if text == Commands::Profile.name() { Some(Commands::Profile) }
        else if text == Commands::Balance.name() { Some(Commands::Balance) }
        else if text == Commands::Join.name() { Some(Commands::Join) }
        else if text == Commands::Leave.name() { Some(Commands::Leave) }
        else if text == Commands::Play.name() { Some(Commands::Play) }
        else if text == Commands::Stop.name() { Some(Commands::Stop) }
        else if text == Commands::Skip.name() { Some(Commands::Skip) }
        else if text == Commands::Queue.name() { Some(Commands::Queue) }
        else { None }
    }

    /// How much using the command changes the bot's affinity: `Play` raises
    /// it by 50, every other command leaves it alone.
    pub fn affinity_change(&self) -> (change: i8)
        ensures
            change == (if *self == Commands::Play { 50i8 } else { 0i8 }),
    {
        match self {
            Commands::Play => 50,
            _ => 0,
        }
    }

    /// The command named `name`, if there is one.
    pub fn from_str(name: &str) -> (command: Option<Commands>)
        ensures
            command == Commands::named(name@),
    {
        proof {
            reveal_strlit("ping");
            reveal_strlit("profile");
            reveal_strlit("balance");
            reveal_strlit("join");
            reveal_strlit("leave");
            reveal_strlit("play");
            reveal_strlit("stop");
            reveal_strlit("skip");
            reveal_strlit("queue");
            assert("ping"@ =~= Commands::Ping.name());
            assert("profile"@ =~= Commands::Profile.name());
            assert("balance"@ =~= Commands::Balance.name());
            assert("join"@ =~= Commands::Join.name());
            assert("leave"@ =~= Commands::Leave.name());
            assert("play"@ =~= Commands::Play.name());
            assert("stop"@ =~= Commands::Stop.name());
            assert("skip"@ =~= Commands::Skip.name());
            assert("queue"@ =~= Commands::Queue.name());
        }
        if same_text(name, "ping") { Some(Commands::Ping) }
        else if same_text(name, "profile") { Some(Commands::Profile) }
        else if same_text(name, "balance") { Some(Commands::Balance) }
        else if same_text(name, "join") { Some(Commands::Join) }
        else if same_text(name, "leave") { Some(Commands::Leave) }
        else if same_text(name, "play") { Some(Commands::Play) }
        else if same_text(name, "stop") { Some(Commands::Stop) }
        else if same_text(name, "skip") { Some(Commands::Skip) }
        else if same_text(name, "queue") { Some(Commands::Queue) }
        else { None }
    }

    /// The command's name.
    pub fn to_string(&self) -> (text: String)
        ensures
            text@ == self.name(),
    {
        proof {
            reveal_strlit("ping");
            reveal_strlit("profile");
            reveal_strlit("balance");
            reveal_strlit("join");
            reveal_strlit("leave");
            reveal_strlit("play");
            reveal_strlit("stop");
            reveal_strlit("skip");
            reveal_strlit("queue");
        }
        let lit = match self {
            Commands::Ping => "ping",
            Commands::Profile => "profile",
            Commands::Balance => "balance",
            Commands::Join => "join",
            Commands::Leave => "leave",
            Commands::Play => "play",
            Commands::Stop => "stop",
            Commands::Skip => "skip",
            Commands::Queue => "queue",
        };
        String::from_str(lit)
    }
}

/// Whether the argument of `play` is a link (it starts with `http`) rather
/// than words to search for.
pub open spec fn is_link_spec(text: Seq<char>) -> bool {
    text.len() >= 4 && text.subrange(0, 4) == "http"@
}

/// Whether `text` is a link to play rather than words to search for.
pub fn is_link(text: &str) -> (link: bool)
    ensures
        link == is_link_spec(text@),
        link <==> (text@.len() >= 4 && text@[0] == 'h' && text@[1] == 't' && text@[2] == 't' && text@[3] == 'p'),
{
    proof {
        law_link_prefix(text@);
    }
    if text.unicode_len() < 4 {
        false
    } else {
        let head = text.substring_char(0, 4);
        same_text(head, "http")
    }
}

/// Picture shown beside a level gain.
pub const LVL_UP_ICON: &'static str = "https://www.iconfinder.com/data/icons/font-awesome/1792/level-up-512.png";

/// Picture shown beside a level loss.
pub const LVL_DOWN_ICON: &'static str = "https://www.iconfinder.com/data/icons/font-awesome/1792/level-down-512.png";

/// The text of a message about gained experience: the answer, then a diff
/// block with the gain.
pub open spec fn exp_gain_spec(response: Seq<char>, exp: int) -> Seq<char> {
    response + "\n```diff\n+"@ + signed_decimal(exp) + " exp\n```"@
}

/// The text of a message about lost experience: the answer, then a diff
/// block with the loss.
pub open spec fn exp_loss_spec(response: Seq<char>, exp: int) -> Seq<char> {
    response + "\n```diff\n-"@ + signed_decimal(exp) + " exp\n```"@
}

/// The title of a message about a user going up a level.
pub open spec fn level_up_title_spec(name: Seq<char>) -> Seq<char> {
    name + " ha guadagnato un livello!"@
}

/// The title of a message about a user going down a level.
pub open spec fn level_down_title_spec(name: Seq<char>) -> Seq<char> {
    name + " ha perso un livello!"@
}

/// The text of a message about a level gain: the answer, then a diff block
/// with the old and new level and the new grade.
pub open spec fn level_up_text_spec(response: Seq<char>, old: u32, new: u32) -> Seq<char> {
    response + "\n"@ + "```diff\n+ Livello: "@ + decimal(old as nat) + " → "@ + decimal(new as nat)
        + "\n+ Grado: "@ + rank_of(new).name() + "```"@
}

/// The text of a message about a level loss: the answer, then a diff block
/// with the old and new level and the new grade.
pub open spec fn level_down_text_spec(response: Seq<char>, old: u32, new: u32) -> Seq<char> {
    response + "\n"@ + "```diff\n- Livello: "@ + decimal(old as nat) + " → "@ + decimal(new as nat)
        + "\n- Grado: "@ + rank_of(new).name() + "```"@
}

/// The text of a message about gained experience.
pub fn exp_gain_text(response: &str, exp: i32) -> (text: String)
    ensures
        text@ == exp_gain_spec(response@, exp as int),
{
    let mut text = String::from_str(response);
    text.append("\n```diff\n+");
    let amount = signed_decimal_text(exp);
    text.append(amount.as_str());
    text.append(" exp\n```");
    text
}

/// The text of a message about lost experience.
pub fn exp_loss_text(response: &str, exp: i32) -> (text: String)
    ensures
        text@ == exp_loss_spec(response@, exp as int),
{
    let mut text = String::from_str(response);
    text.append("\n```diff\n-");
    let amount = signed_decimal_text(exp);
    text.append(amount.as_str());
    text.append(" exp\n```");
    text
}

/// The title of a message about `name` going up a level.
pub fn level_up_title(name: &str) -> (title: String)
    ensures
        title@ == level_up_title_spec(name@),
{
    let mut title = String::from_str(name);
    title.append(" ha guadagnato un livello!");
    title
}

/// The title of a message about `name` going down a level.
pub fn level_down_title(name: &str) -> (title: String)
    ensures
        title@ == level_down_title_spec(name@),
{
    let mut title = String::from_str(name);
    title.append(" ha perso un livello!");
    title
}

/// The text of a message about a level gain from `old` to `new`.
pub fn level_up_text(response: &str, old: u32, new: u32) -> (text: String)
    ensures
        text@ == level_up_text_spec(response@, old, new),
{
    let mut text = String::from_str(response);
    text.append("\n");
    text.append("```diff\n+ Livello: ");
    let old_digits = decimal_text(old as u64);
    text.append(old_digits.as_str());
    text.append(" → ");
    let new_digits = decimal_text(new as u64);
    text.append(new_digits.as_str());
    text.append("\n+ Grado: ");
    let grade = Rank::from_level(new).to_string();
    text.append(grade.as_str());
    text.append("```");
    text
}

/// The text of a message about a level loss from `old` to `new`.
pub fn level_down_text(response: &str, old: u32, new: u32) -> (text: String)
    ensures
        text@ == level_down_text_spec(response@, old, new),
{
    let mut text = String::from_str(response);
    text.append("\n");
    text.append("```diff\n- Livello: ");
    let old_digits = decimal_text(old as u64);
    text.append(old_digits.as_str());
    text.append(" → ");
    let new_digits = decimal_text(new as u64);
    text.append(new_digits.as_str());
    text.append("\n- Grado: ");
    let grade = Rank::from_level(new).to_string();
    text.append(grade.as_str());
    text.append("```");
    text
}

/// The title of the answer to `balance` for user `name`: "Soldi di *name*".
pub fn balance_title(name: &str) -> (title: String)
    ensures
        title@ == "Soldi di *"@ + name@ + "*"@,
{
    let mut title = String::from_str("Soldi di *");
    title.append(name);
    title.append("*");
    title
}

/// The text of the answer to `balance`: the money in a `fix` code block.
pub fn balance_text(money: u32) -> (text: String)
    ensures
        text@ == "```fix\n"@ + decimal(money as nat) + "\n```"@,
{
    let mut text = String::from_str("```fix\n");
    let digits = decimal_text(money as u64);
    text.append(digits.as_str());
    text.append("\n```");
    text
}

/// A text is a link exactly when it starts with the four characters
/// `http`; a text whose first four characters differ anywhere from `http`
/// is searched for.
pub proof fn law_link_prefix(text: Seq<char>)
    ensures
        is_link_spec(text) <==> (text.len() >= 4 && text[0] == 'h' && text[1] == 't' && text[2] == 't'
            && text[3] == 'p'),
{
    reveal_strlit("http");
    if text.len() >= 4 && text[0] == 'h' && text[1] == 't' && text[2] == 't' && text[3] == 'p' {
        assert(text.subrange(0, 4) =~= "http"@);
    }
    if is_link_spec(text) {
        assert(text.subrange(0, 4)[1] == "http"@[1]);
        assert(text.subrange(0, 4)[0] == "http"@[0]);
        assert(text.subrange(0, 4)[2] == "http"@[2]);
        assert(text.subrange(0, 4)[3] == "http"@[3]);
    }
}

/// Each command is named by its variant's name in lower case.
pub proof fn law_command_names()
    ensures
        Commands::Ping.name() == seq!['p', 'i', 'n', 'g'],
        Commands::Profile.name() == seq!['p', 'r', 'o', 'f', 'i', 'l', 'e'],
        Commands::Balance.name() == seq!['b', 'a', 'l', 'a', 'n', 'c', 'e'],
        Commands::Join.name() == seq!['j', 'o', 'i', 'n'],
        Commands::Leave.name() == seq!['l', 'e', 'a', 'v', 'e'],
        Commands::Play.name() == seq!['p', 'l', 'a', 'y'],
        Commands::Stop.name() == seq!['s', 't', 'o', 'p'],
        Commands::Skip.name() == seq!['s', 'k', 'i', 'p'],
        Commands::Queue.name() == seq!['q', 'u', 'e', 'u', 'e'],
{
}

/// Typing a command's lower-case name gives that command, and any other text
/// gives none.
pub proof fn law_typed_command_names(text: Seq<char>)
    ensures
        Commands::named(seq!['p', 'i', 'n', 'g']) == Some(Commands::Ping),
        Commands::named(seq!['p', 'r', 'o', 'f', 'i', 'l', 'e']) == Some(Commands::Profile),
        Commands::named(seq!['b', 'a', 'l', 'a', 'n', 'c', 'e']) == Some(Commands::Balance),
        Commands::named(seq!['j', 'o', 'i', 'n']) == Some(Commands::Join),
        Commands::named(seq!['l', 'e', 'a', 'v', 'e']) == Some(Commands::Leave),
        Commands::named(seq!['p', 'l', 'a', 'y']) == Some(Commands::Play),
        Commands::named(seq!['s', 't', 'o', 'p']) == Some(Commands::Stop),
        Commands::named(seq!['s', 'k', 'i', 'p']) == Some(Commands::Skip),
        Commands::named(seq!['q', 'u', 'e', 'u', 'e']) == Some(Commands::Queue),
        Commands::named(text) is None <==> forall|c: Commands| #[trigger] c.name() != text,
{
    law_command_name_round_trip(Commands::Ping);
    law_command_name_round_trip(Commands::Profile);
    law_command_name_round_trip(Commands::Balance);
    law_command_name_round_trip(Commands::Join);
    law_command_name_round_trip(Commands::Leave);
    law_command_name_round_trip(Commands::Play);
    law_command_name_round_trip(Commands::Stop);
    law_command_name_round_trip(Commands::Skip);
    law_command_name_round_trip(Commands::Queue);
    if Commands::named(text) is None {
        assert forall|c: Commands| #[trigger] c.name() != text by {
            law_command_name_round_trip(c);
        }
    }
}

/// The messages about experience and levels, character by character: the
/// answer, then a `diff` block whose lines start with `+` for a gain and
/// `-` for a loss, carrying the numbers in decimal and the new grade.
pub proof fn law_message_texts(response: Seq<char>, name: Seq<char>, exp: int, old: u32, new: u32)
    ensures
        exp_gain_spec(response, exp) == response + seq!['\n', '`', '`', '`', 'd', 'i', 'f', 'f', '\n', '+'] + signed_decimal(exp) + seq![' ', 'e', 'x', 'p', '\n', '`', '`', '`'],
        exp_loss_spec(response, exp) == response + seq!['\n', '`', '`', '`', 'd', 'i', 'f', 'f', '\n', '-'] + signed_decimal(exp) + seq![' ', 'e', 'x', 'p', '\n', '`', '`', '`'],
        level_up_title_spec(name) == name + seq![' ', 'h', 'a', ' ', 'g', 'u', 'a', 'd', 'a', 'g', 'n', 'a', 't', 'o', ' ', 'u', 'n', ' ', 'l', 'i', 'v', 'e', 'l', 'l', 'o', '!'],
        level_down_title_spec(name) == name + seq![' ', 'h', 'a', ' ', 'p', 'e', 'r', 's', 'o', ' ', 'u', 'n', ' ', 'l', 'i', 'v', 'e', 'l', 'l', 'o', '!'],
        level_up_text_spec(response, old, new) == response + seq!['\n'] + seq!['`', '`', '`', 'd', 'i', 'f', 'f', '\n', '+', ' ', 'L', 'i', 'v', 'e', 'l', 'l', 'o', ':', ' '] + decimal(old as nat) + seq![' ', '→', ' '] + decimal(new as nat) + seq!['\n', '+', ' ', 'G', 'r', 'a', 'd', 'o', ':', ' '] + rank_of(new).name() + seq!['`', '`', '`'],
        level_down_text_spec(response, old, new) == response + seq!['\n'] + seq!['`', '`', '`', 'd', 'i', 'f', 'f', '\n', '-', ' ', 'L', 'i', 'v', 'e', 'l', 'l', 'o', ':', ' '] + decimal(old as nat) + seq![' ', '→', ' '] + decimal(new as nat) + seq!['\n', '-', ' ', 'G', 'r', 'a', 'd', 'o', ':', ' '] + rank_of(new).name() + seq!['`', '`', '`'],
{
    reveal_strlit(" exp\n```");
    reveal_strlit(" ha guadagnato un livello!");
    reveal_strlit(" ha perso un livello!");
    reveal_strlit(" → ");
    reveal_strlit("\n");
    reveal_strlit("\n+ Grado: ");
    reveal_strlit("\n- Grado: ");
    reveal_strlit("\n```diff\n+");
    reveal_strlit("\n```diff\n-");
    reveal_strlit("```");
    reveal_strlit("```diff\n+ Livello: ");
    reveal_strlit("```diff\n- Livello: ");
    assert(" exp\n```"@ =~= seq![' ', 'e', 'x', 'p', '\n', '`', '`', '`']);
    assert(" ha guadagnato un livello!"@ =~= seq![' ', 'h', 'a', ' ', 'g', 'u', 'a', 'd', 'a', 'g', 'n', 'a', 't', 'o', ' ', 'u', 'n', ' ', 'l', 'i', 'v', 'e', 'l', 'l', 'o', '!']);
    assert(" ha perso un livello!"@ =~= seq![' ', 'h', 'a', ' ', 'p', 'e', 'r', 's', 'o', ' ', 'u', 'n', ' ', 'l', 'i', 'v', 'e', 'l', 'l', 'o', '!']);
    assert(" → "@ =~= seq![' ', '→', ' ']);
    assert("\n"@ =~= seq!['\n']);
    assert("\n+ Grado: "@ =~= seq!['\n', '+', ' ', 'G', 'r', 'a', 'd', 'o', ':', ' ']);
    assert("\n- Grado: "@ =~= seq!['\n', '-', ' ', 'G', 'r', 'a', 'd', 'o', ':', ' ']);
    assert("\n```diff\n+"@ =~= seq!['\n', '`', '`', '`', 'd', 'i', 'f', 'f', '\n', '+']);
    assert("\n```diff\n-"@ =~= seq!['\n', '`', '`', '`', 'd', 'i', 'f', 'f', '\n', '-']);
    assert("```"@ =~= seq!['`', '`', '`']);
    assert("```diff\n+ Livello: "@ =~= seq!['`', '`', '`', 'd', 'i', 'f', 'f', '\n', '+', ' ', 'L', 'i', 'v', 'e', 'l', 'l', 'o', ':', ' ']);
    assert("```diff\n- Livello: "@ =~= seq!['`', '`', '`', 'd', 'i', 'f', 'f', '\n', '-', ' ', 'L', 'i', 'v', 'e', 'l', 'l', 'o', ':', ' ']);
}

/// Reading back the name of a command gives the command: no two commands
/// share a name.
pub proof fn law_command_name_round_trip(command: Commands)
    ensures
        Commands::named(command.name()) == Some(command),
{
    let n = command.name();
    assert(n.len() >= 4);
    match command {
        Commands::Ping => {},
        Commands::Profile => {
            assert(n[1] != 'i');
        },
        Commands::Balance => {
            assert(n[0] == 'b');
        },
        Commands::Join => {
            assert(n[0] == 'j');
        },
        Commands::Leave => {
            assert(n[0] == 'l');
        },
        Commands::Play => {
            assert(n[1] != 'i' && n[1] != 'r');
        },
        Commands::Stop => {
            assert(n[0] == 's');
        },
        Commands::Skip => {
            assert(n[1] != 't');
        },
        Commands::Queue => {
            assert(n[0] == 'q');
        },
    }
}

/// A text names a command exactly when it is that command's name.
pub proof fn law_command_named_only_by_name(text: Seq<char>, command: Commands)
    ensures
        Commands::named(text) == Some(command) <==> text == command.name(),
{
    law_command_name_round_trip(command);
}

} // verus!
