//! Rich messages ("embeds") for level and experience changes, built with
//! `twilight_embed_builder`.

use vstd::prelude::*;
use twilight_embed_builder::{EmbedBuilder, EmbedError, ImageSource};
use twilight_embed_builder::image_source::ImageSourceUrlError;
use twilight_model::channel::embed::Embed;
use crate::commands::{level_up_title, level_down_title, level_up_text, level_down_text,
    level_up_title_spec, level_down_title_spec, level_up_text_spec, level_down_text_spec,
    LVL_UP_ICON, LVL_DOWN_ICON};
use crate::database::anima::Anima;
use crate::table::{profile_table, profile_rows, drawn_table, TableLook};
use crate::text::{signed_decimal, signed_decimal_text};

verus! {

/// A rich message of `twilight_model`.
#[verifier::external_type_specification]
#[verifier::external_body]
pub struct ExEmbed(Embed);

/// The embed builder of `twilight_embed_builder`.
#[verifier::external_type_specification]
#[verifier::external_body]
pub struct ExEmbedBuilder(EmbedBuilder);

/// The error of `EmbedBuilder::build`.
#[verifier::external_type_specification]
#[verifier::external_body]
pub struct ExEmbedError(EmbedError);

/// An image given by URL, of `twilight_embed_builder`.
#[verifier::external_type_specification]
#[verifier::external_body]
pub struct ExImageSource(ImageSource);

/// The error of `ImageSource::url`.
#[verifier::external_type_specification]
#[verifier::external_body]
pub struct ExImageSourceUrlError(ImageSourceUrlError);

/// What an embed shows, or has been given so far while it is built: its
/// title, its description and the URL of its thumbnail, each when set.
pub struct EmbedContent {
    pub title: Option<Seq<char>>,
    pub description: Option<Seq<char>>,
    pub thumbnail: Option<Seq<char>>,
}

/// Whether an optional text is accepted under a length limit: when present it
/// must be non-empty and have at most `limit` characters.
pub open spec fn text_accepted(text: Option<Seq<char>>, limit: nat) -> bool {
    match text {
        Some(t) => 0 < t.len() <= limit,
        None => true,
    }
}

/// The number of characters of an optional text.
pub open spec fn text_length(text: Option<Seq<char>>) -> nat {
    match text {
        Some(t) => t.len(),
        None => 0,
    }
}

/// Whether `EmbedBuilder::build` accepts an embed with this content: a title
/// of at most 256 characters, a description of at most 4096, neither empty,
/// and at most 6000 characters in all.
pub open spec fn embed_accepted(content: EmbedContent) -> bool {
    &&& text_accepted(content.title, 256)
    &&& text_accepted(content.description, 4096)
    &&& text_length(content.title) + text_length(content.description) <= 6000
}

/// Whether `ImageSource::url` accepts a URL: it must start with `https:` or
/// `http:`.
pub open spec fn url_accepted(url: Seq<char>) -> bool {
    (url.len() >= 6 && url.subrange(0, 6) == "https:"@) || (url.len() >= 5 && url.subrange(0, 5) == "http:"@)
}

/// An image given by URL, together with that URL.
pub struct ImageUrl {
    source: ImageSource,
    url: Ghost<Seq<char>>,
}

impl View for ImageUrl {
    type V = Seq<char>;

    closed spec fn view(&self) -> Seq<char> {
        self.url@
    }
}

/// An embed under construction.
pub struct EmbedDraft {
    builder: EmbedBuilder,
    content: Ghost<EmbedContent>,
}

impl View for EmbedDraft {
    type V = EmbedContent;

    closed spec fn view(&self) -> EmbedContent {
        self.content@
    }
}

/// A built embed together with what it shows. The embed's `kind`, which
/// the builder sets to "rich", is not part of the view.
pub struct BuiltEmbed {
    embed: Embed,
    content: Ghost<EmbedContent>,
}

impl View for BuiltEmbed {
    type V = EmbedContent;

    closed spec fn view(&self) -> EmbedContent {
        self.content@
    }
}

impl BuiltEmbed {
    /// The embed, to be sent.
    pub fn into_embed(self) -> Embed {
        self.embed
    }
}

/// Calls `EmbedBuilder::new`: an embed with nothing set.
#[verifier::external_body]
fn draft_new() -> (draft: EmbedDraft)
    ensures
        draft@ == (EmbedContent { title: None, description: None, thumbnail: None }),
{
    EmbedDraft {
        builder: EmbedBuilder::new(),
        content: Ghost(EmbedContent { title: None, description: None, thumbnail: None }),
    }
}

/// Calls `EmbedBuilder::title`, which records the title.
#[verifier::external_body]
fn draft_title(draft: EmbedDraft, title: String) -> (next: EmbedDraft)
    ensures
        next@ == (EmbedContent { title: Some(title@), ..draft@ }),
{
    let ghost content = EmbedContent { title: Some(title@), ..draft.content@ };
    EmbedDraft { builder: draft.builder.title(title), content: Ghost(content) }
}

/// Calls `EmbedBuilder::description`, which records the description.
#[verifier::external_body]
fn draft_description(draft: EmbedDraft, description: String) -> (next: EmbedDraft)
    ensures
        next@ == (EmbedContent { description: Some(description@), ..draft@ }),
{
    let ghost content = EmbedContent { description: Some(description@), ..draft.content@ };
    EmbedDraft { builder: draft.builder.description(description), content: Ghost(content) }
}

/// Calls `EmbedBuilder::thumbnail`, which records the image's URL as the
/// thumbnail.
#[verifier::external_body]
fn draft_thumbnail(draft: EmbedDraft, image: ImageUrl) -> (next: EmbedDraft)
    ensures
        next@ == (EmbedContent { thumbnail: Some(image@), ..draft@ }),
{
    let ghost content = EmbedContent { thumbnail: Some(image.url@), ..draft.content@ };
    EmbedDraft { builder: draft.builder.thumbnail(image.source), content: Ghost(content) }
}

/// Calls `EmbedBuilder::build`, which checks the lengths of the texts and
/// fails exactly when `embed_accepted` does not hold; otherwise the embed
/// shows what the builder was given.
#[verifier::external_body]
fn draft_build(draft: EmbedDraft) -> (built: Result<BuiltEmbed, EmbedError>)
    ensures
        built is Ok <==> embed_accepted(draft@),
        built matches Ok(b) ==> b@ == draft@,
{
    match draft.builder.build() {
        Ok(embed) => Ok(BuiltEmbed { embed, content: draft.content }),
        Err(error) => Err(error),
    }
}

/// Calls `ImageSource::url`, which accepts exactly the URLs that start with
/// `https:` or `http:` and keeps the URL as it is.
#[verifier::external_body]
fn image_source_url(url: &str) -> (image: Result<ImageUrl, ImageSourceUrlError>)
    ensures
        image is Ok <==> url_accepted(url@),
        image matches Ok(i) ==> i@ == url@,
{
    match ImageSource::url(url) {
        Ok(source) => Ok(ImageUrl { source, url: Ghost(url@) }),
        Err(error) => Err(error),
    }
}

/// Why an embed could not be made.
#[derive(Debug, Clone, Copy, PartialEq, Eq, Structural)]
pub enum EmbedFailure {
    /// The thumbnail's URL was refused.
    ImageUrl,
    /// The builder refused the texts.
    Rejected,
}

/// A green line of a diff block: "```diff\n+ " then `text` then "\n```".
pub fn positive(text: &str) -> (block: String)
    ensures
        block@ == "```diff\n+ "@ + text@ + "\n```"@,
{
    let mut block = String::from_str("```diff\n+ ");
    block.append(text);
    block.append("\n```");
    block
}

/// A red line of a diff block: "```diff\n- " then `text` then "\n```".
pub fn negative(text: &str) -> (block: String)
    ensures
        block@ == "```diff\n- "@ + text@ + "\n```"@,
{
    let mut block = String::from_str("```diff\n- ");
    block.append(text);
    block.append("\n```");
    block
}

/// A code block: "```\n" then `text` then "\n```".
pub fn code(text: &str) -> (block: String)
    ensures
        block@ == "```\n"@ + text@ + "\n```"@,
{
    let mut block = String::from_str("```\n");
    block.append(text);
    block.append("\n```");
    block
}

/// Builds an embed with a title, a description and a thumbnail at `icon`.
fn titled_embed(title: String, description: String, icon: &str) -> (built: Result<BuiltEmbed, EmbedFailure>)
    ensures
        built is Ok <==> url_accepted(icon@) && embed_accepted(
            EmbedContent { title: Some(title@), description: Some(description@), thumbnail: Some(icon@) },
        ),
        built matches Ok(b) ==> b@ == (EmbedContent {
            title: Some(title@),
            description: Some(description@),
            thumbnail: Some(icon@),
        }),
        built matches Err(e) ==> (e == EmbedFailure::ImageUrl <==> !url_accepted(icon@)),
{
    let ghost title_text = title@;
    let ghost description_text = description@;
    let draft = draft_new();
    let draft = draft_title(draft, title);
    let draft = draft_description(draft, description);
    let image = match image_source_url(icon) {
        Ok(image) => image,
        Err(_) => return Err(EmbedFailure::ImageUrl),
    };
    let draft = draft_thumbnail(draft, image);
    proof {
        assert(draft@ == (EmbedContent { title: Some(title_text), description: Some(description_text), thumbnail: Some(icon@) }));
    }
    match draft_build(draft) {
        Ok(embed) => Ok(embed),
        Err(_) => Err(EmbedFailure::Rejected),
    }
}

/// Builds an embed with only a description.
fn plain_embed(description: String) -> (built: Result<BuiltEmbed, EmbedFailure>)
    ensures
        built is Ok <==> embed_accepted(
            EmbedContent { title: None, description: Some(description@), thumbnail: None },
        ),
        built matches Ok(b) ==> b@ == (EmbedContent { title: None, description: Some(description@), thumbnail: None }),
        built matches Err(e) ==> e == EmbedFailure::Rejected,
{
    let draft = draft_new();
    let draft = draft_description(draft, description);
    match draft_build(draft) {
        Ok(embed) => Ok(embed),
        Err(_) => Err(EmbedFailure::Rejected),
    }
}

/// An embed telling that `username` went up from level `old_level` to
/// `new_level`, with the answer `message`. It is refused when its texts are
/// too long for Discord.
pub fn level_up(username: &str, message: &str, old_level: u32, new_level: u32) -> (built: Result<BuiltEmbed, EmbedFailure>)
    ensures
        built is Ok <==> embed_accepted(EmbedContent {
            title: Some(level_up_title_spec(username@)),
            description: Some(level_up_text_spec(message@, old_level, new_level)),
            thumbnail: Some(LVL_UP_ICON@),
        }),
        built matches Ok(b) ==> b@ == (EmbedContent {
            title: Some(level_up_title_spec(username@)),
            description: Some(level_up_text_spec(message@, old_level, new_level)),
            thumbnail: Some(LVL_UP_ICON@),
        }),
        built matches Err(e) ==> e == EmbedFailure::Rejected,
{
    proof { reveal_strlit("https://www.iconfinder.com/data/icons/font-awesome/1792/level-up-512.png"); reveal_strlit("https:"); }
    let title = level_up_title(username);
    let description = level_up_text(message, old_level, new_level);
    proof { assert(LVL_UP_ICON@.subrange(0, 6) =~= "https:"@); }
    titled_embed(title, description, LVL_UP_ICON)
}

/// An embed telling that `username` went down from level `old_level` to
/// `new_level`, with the answer `message`. It is refused when its texts are
/// too long for Discord.
pub fn level_down(username: &str, message: &str, old_level: u32, new_level: u32) -> (built: Result<BuiltEmbed, EmbedFailure>)
    ensures
        built is Ok <==> embed_accepted(EmbedContent {
            title: Some(level_down_title_spec(username@)),
            description: Some(level_down_text_spec(message@, old_level, new_level)),
            thumbnail: Some(LVL_DOWN_ICON@),
        }),
        built matches Ok(b) ==> b@ == (EmbedContent {
            title: Some(level_down_title_spec(username@)),
            description: Some(level_down_text_spec(message@, old_level, new_level)),
            thumbnail: Some(LVL_DOWN_ICON@),
        }),
        built matches Err(e) ==> e == EmbedFailure::Rejected,
{
    proof { reveal_strlit("https://www.iconfinder.com/data/icons/font-awesome/1792/level-down-512.png"); reveal_strlit("https:"); }
    let title = level_down_title(username);
    let description = level_down_text(message, old_level, new_level);
    proof { assert(LVL_DOWN_ICON@.subrange(0, 6) =~= "https:"@); }
    titled_embed(title, description, LVL_DOWN_ICON)
}

/// The description of an embed about lost experience.
pub open spec fn exp_loss_description(response: Seq<char>, exp: int) -> Seq<char> {
    response + "\n"@ + "```diff\n- "@ + signed_decimal(exp) + " exp"@ + "\n```"@
}

/// The description of an embed about gained experience.
pub open spec fn exp_gain_description(response: Seq<char>, exp: int) -> Seq<char> {
    response + "\n"@ + "```diff\n+ "@ + signed_decimal(exp) + " exp"@ + "\n```"@
}

/// The text "<exp> exp".
fn exp_amount(exp: i32) -> (text: String)
    ensures
        text@ == signed_decimal(exp as int) + " exp"@,
{
    let mut text = signed_decimal_text(exp);
    text.append(" exp");
    text
}

/// An embed telling that `exp` experience was lost, with the answer
/// `response`.
pub fn decrease_exp(response: &str, exp: i32) -> (built: Result<BuiltEmbed, EmbedFailure>)
    ensures
        built is Ok <==> embed_accepted(EmbedContent {
            title: None,
            description: Some(exp_loss_description(response@, exp as int)),
            thumbnail: None,
        }),
        built matches Ok(b) ==> b@ == (EmbedContent {
            title: None,
            description: Some(exp_loss_description(response@, exp as int)),
            thumbnail: None,
        }),
        built matches Err(e) ==> e == EmbedFailure::Rejected,
{
    let amount = exp_amount(exp);
    let block = negative(amount.as_str());
    let mut description = String::from_str(response);
    description.append("\n");
    description.append(block.as_str());
    proof {
        assert(description@ =~= exp_loss_description(response@, exp as int));
    }
    plain_embed(description)
}

/// An embed telling that `exp` experience was gained, with the answer
/// `response`.
pub fn increase_exp(response: &str, exp: i32) -> (built: Result<BuiltEmbed, EmbedFailure>)
    ensures
        built is Ok <==> embed_accepted(EmbedContent {
            title: None,
            description: Some(exp_gain_description(response@, exp as int)),
            thumbnail: None,
        }),
        built matches Ok(b) ==> b@ == (EmbedContent {
            title: None,
            description: Some(exp_gain_description(response@, exp as int)),
            thumbnail: None,
        }),
        built matches Err(e) ==> e == EmbedFailure::Rejected,
{
    let amount = exp_amount(exp);
    let block = positive(amount.as_str());
    let mut description = String::from_str(response);
    description.append("\n");
    description.append(block.as_str());
    proof {
        assert(description@ =~= exp_gain_description(response@, exp as int));
    }
    plain_embed(description)
}

/// An embed with a user's statistics: titled with `username`, describing the
/// record as a table of money, level and experience.
pub fn stats(username: &str, anima: &Anima) -> (built: Result<BuiltEmbed, EmbedFailure>)
    ensures
        built is Ok <==> embed_accepted(EmbedContent {
            title: Some(username@),
            description: Some(drawn_table(profile_rows(anima@.1, anima@.2, anima@.3), TableLook::Borderless)),
            thumbnail: None,
        }),
        built matches Ok(b) ==> b@ == (EmbedContent {
            title: Some(username@),
            description: Some(drawn_table(profile_rows(anima@.1, anima@.2, anima@.3), TableLook::Borderless)),
            thumbnail: None,
        }),
        built matches Err(e) ==> e == EmbedFailure::Rejected,
{
    let description = profile_table(anima.money(), anima.level(), anima.exp());
    let draft = draft_new();
    let draft = draft_title(draft, String::from_str(username));
    let draft = draft_description(draft, description);
    match draft_build(draft) {
        Ok(embed) => Ok(embed),
        Err(_) => Err(EmbedFailure::Rejected),
    }
}

/// The descriptions of the experience embeds, character by character.
pub proof fn law_embed_texts(response: Seq<char>, exp: int)
    ensures
        exp_loss_description(response, exp) == response + seq!['\n'] + seq!['`', '`', '`', 'd', 'i', 'f', 'f', '\n', '-', ' '] + signed_decimal(exp) + seq![' ', 'e', 'x', 'p'] + seq!['\n', '`', '`', '`'],
        exp_gain_description(response, exp) == response + seq!['\n'] + seq!['`', '`', '`', 'd', 'i', 'f', 'f', '\n', '+', ' '] + signed_decimal(exp) + seq![' ', 'e', 'x', 'p'] + seq!['\n', '`', '`', '`'],
{
    reveal_strlit(" exp");
    reveal_strlit("\n");
    reveal_strlit("\n```");
    reveal_strlit("```diff\n+ ");
    reveal_strlit("```diff\n- ");
    assert(" exp"@ =~= seq![' ', 'e', 'x', 'p']);
    assert("\n"@ =~= seq!['\n']);
    assert("\n```"@ =~= seq!['\n', '`', '`', '`']);
    assert("```diff\n+ "@ =~= seq!['`', '`', '`', 'd', 'i', 'f', 'f', '\n', '+', ' ']);
    assert("```diff\n- "@ =~= seq!['`', '`', '`', 'd', 'i', 'f', 'f', '\n', '-', ' ']);
}

/// An embed is refused exactly when a title is empty or longer than 256
/// characters, a description is empty or longer than 4096 characters, or
/// the two together are longer than 6000 characters; the thumbnail plays no
/// part.
pub proof fn law_embed_limits(content: EmbedContent)
    ensures
        embed_accepted(content) <==> (
            (content.title matches Some(t) ==> 1 <= t.len() <= 256)
            && (content.description matches Some(d) ==> 1 <= d.len() <= 4096)
            && (match (content.title, content.description) {
                (Some(t), Some(d)) => t.len() + d.len() <= 6000,
                (Some(t), None) => t.len() <= 6000,
                (None, Some(d)) => d.len() <= 6000,
                (None, None) => true,
            })
        ),
{
}

/// A URL is accepted for an image exactly when it starts with `https:` or
/// `http:`.
pub proof fn law_url_prefix(url: Seq<char>)
    ensures
        url_accepted(url) <==> (
            (url.len() >= 5 && url[0] == 'h' && url[1] == 't' && url[2] == 't' && url[3] == 'p' && url[4] == ':')
            || (url.len() >= 6 && url[0] == 'h' && url[1] == 't' && url[2] == 't' && url[3] == 'p' && url[4] == 's'
                && url[5] == ':')
        ),
{
    reveal_strlit("https:");
    reveal_strlit("http:");
    if url.len() >= 5 && url[0] == 'h' && url[1] == 't' && url[2] == 't' && url[3] == 'p' && url[4] == ':' {
        assert(url.subrange(0, 5) =~= "http:"@);
    }
    if url.len() >= 6 && url[0] == 'h' && url[1] == 't' && url[2] == 't' && url[3] == 'p' && url[4] == 's' && url[5] == ':' {
        assert(url.subrange(0, 6) =~= "https:"@);
    }
    if url.len() >= 6 && url.subrange(0, 6) == "https:"@ {
        assert(url.subrange(0, 6)[0] == url[0] && url.subrange(0, 6)[1] == url[1] && url.subrange(0, 6)[2] == url[2]
            && url.subrange(0, 6)[3] == url[3] && url.subrange(0, 6)[4] == url[4] && url.subrange(0, 6)[5] == url[5]);
    }
    if url.len() >= 5 && url.subrange(0, 5) == "http:"@ {
        assert(url.subrange(0, 5)[0] == url[0] && url.subrange(0, 5)[1] == url[1] && url.subrange(0, 5)[2] == url[2]
            && url.subrange(0, 5)[3] == url[3] && url.subrange(0, 5)[4] == url[4]);
    }
}

} // verus!
