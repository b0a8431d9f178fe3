//! The messages the pipeline shows, as plain values.
//!
//! An [`Embed`] holds what a rich message is made of. The caller turns it
//! into the message type of its chat library.

use crate::message::{embed_color_of, get_embed_color, MessageState};
use crate::progress::{prepare_line, progress_lines, render_line, upload_line};
use crate::text::opt_text;
use vstd::prelude::*;

verus! {

/// One titled line of a message.
#[derive(Debug, PartialEq, Eq)]
pub struct EmbedField {
    pub name: String,
    pub value: String,
    pub inline: bool,
}

/// A rich message.
#[derive(Debug, PartialEq, Eq)]
pub struct Embed {
    pub author: Option<String>,
    /// The colour of the message, as `0xRRGGBB`.
    pub color: u32,
    pub title: Option<String>,
    pub description: Option<String>,
    pub fields: Vec<EmbedField>,
}

/// One titled line of a message, as plain values.
pub struct FieldView {
    pub name: Seq<char>,
    pub value: Seq<char>,
    pub inline: bool,
}

/// A rich message, as plain values.
pub struct EmbedView {
    pub author: Option<Seq<char>>,
    pub color: u32,
    pub title: Option<Seq<char>>,
    pub description: Option<Seq<char>>,
    pub fields: Seq<FieldView>,
}

impl View for EmbedField {
    type V = FieldView;

    open spec fn view(&self) -> FieldView {
        FieldView { name: self.name@, value: self.value@, inline: self.inline }
    }
}

impl View for Embed {
    type V = EmbedView;

    open spec fn view(&self) -> EmbedView {
        EmbedView {
            author: opt_text(self.author),
            color: self.color,
            title: opt_text(self.title),
            description: opt_text(self.description),
            fields: self.fields@.map_values(|f: EmbedField| f@),
        }
    }
}

/// A message of one text in the colour of its severity.
pub open spec fn text_embed(text: Seq<char>, state: MessageState) -> EmbedView {
    EmbedView {
        author: None,
        color: embed_color_of(state),
        title: None,
        description: Some(text),
        fields: Seq::empty(),
    }
}

/// The status display of a run: the title of the video and one line each
/// on preparation, render and upload.
pub open spec fn progress_embed(
    title: Seq<char>,
    prepared: bool,
    token: Option<Seq<char>>,
    uploaded: bool,
) -> EmbedView {
    EmbedView {
        author: Some("Upload progress:"@),
        color: embed_color_of(MessageState::SUCCESS),
        title: Some(title),
        description: None,
        fields: seq![
            FieldView { name: "Prepare replay:"@, value: prepare_line(prepared), inline: false },
            FieldView { name: "Render replay:"@, value: render_line(prepared, token), inline: false },
            FieldView { name: "Upload Video:"@, value: upload_line(token, uploaded), inline: false },
        ],
    }
}

/// The address at which an uploaded video is edited.
pub open spec fn studio_link(video_id: Seq<char>) -> Seq<char> {
    "https://studio.youtube.com/video/"@ + video_id + "/edit"@
}

/// The report of a finished upload. Where the title was too long for the
/// upload, the report carries it in a warning.
pub open spec fn result_embed(
    title: Seq<char>,
    video_id: Seq<char>,
    title_too_long: bool,
) -> EmbedView {
    EmbedView {
        author: Some("Render and upload"@),
        color: embed_color_of(MessageState::SUCCESS),
        title: Some(title),
        description: Some("Video has been uploaded successfully: "@ + studio_link(video_id)),
        fields: if title_too_long {
            seq![
                FieldView {
                    name: "Warning: The title was too long. Please adjust accordingly and set it yourself."@,
                    value: title,
                    inline: false,
                },
            ]
        } else {
            Seq::empty()
        },
    }
}

/// The notice on a suggestion that was approved or declined.
pub open spec fn suggestion_embed(title: Seq<char>, approved: bool) -> EmbedView {
    EmbedView {
        author: Some("Suggestion"@),
        color: embed_color_of(MessageState::SUCCESS),
        title: Some(
            if approved {
                "\u{2705} Your suggestion has been approved!"@
            } else {
                "\u{274c} Your suggestion has been declined!"@
            },
        ),
        description: Some("Score: "@ + title),
        fields: Seq::empty(),
    }
}

/// Builds a message of one text in the colour of its severity.
pub fn single_text_response_embed(text: &str, message_state: MessageState) -> (embed: Embed)
    ensures
        embed@ == text_embed(text@, message_state),
{
    let embed = Embed {
        author: None,
        color: get_embed_color(&message_state),
        title: None,
        description: Some(String::from_str(text)),
        fields: Vec::new(),
    };
    assert(embed@.fields =~= Seq::<FieldView>::empty());
    embed
}

/// Builds the status display of a run.
pub fn render_and_upload_embed(
    title: &String,
    preparation_finished: bool,
    render_replay: Option<String>,
    video_uploaded: bool,
) -> (embed: Embed)
    ensures
        embed@ == progress_embed(
            title@,
            preparation_finished,
            opt_text(render_replay),
            video_uploaded,
        ),
{
    let lines = match &render_replay {
        Some(token) => progress_lines(preparation_finished, Some(token.as_str()), video_uploaded),
        None => progress_lines(preparation_finished, None, video_uploaded),
    };
    let mut fields: Vec<EmbedField> = Vec::new();
    fields.push(
        EmbedField {
            name: String::from_str("Prepare replay:"),
            value: lines.prepare,
            inline: false,
        },
    );
    fields.push(
        EmbedField { name: String::from_str("Render replay:"), value: lines.render, inline: false },
    );
    fields.push(
        EmbedField { name: String::from_str("Upload Video:"), value: lines.upload, inline: false },
    );
    let embed = Embed {
        author: Some(String::from_str("Upload progress:")),
        color: get_embed_color(&MessageState::SUCCESS),
        title: Some(title.clone()),
        description: None,
        fields,
    };
    assert(embed@.fields =~= progress_embed(
        title@,
        preparation_finished,
        opt_text(render_replay),
        video_uploaded,
    ).fields);
    embed
}

/// Builds the report of a finished upload.
pub fn upload_result_embed(title: &String, youtube_id: &String, title_too_long: bool) -> (embed:
    Embed)
    ensures
        embed@ == result_embed(title@, youtube_id@, title_too_long),
{
    let mut description = String::from_str("Video has been uploaded successfully: ");
    description.append("https://studio.youtube.com/video/");
    description.append(youtube_id.as_str());
    description.append("/edit");
    assert(description@ =~= "Video has been uploaded successfully: "@ + studio_link(youtube_id@));
    let mut fields: Vec<EmbedField> = Vec::new();
    if title_too_long {
        fields.push(
            EmbedField {
                name: String::from_str(
                    "Warning: The title was too long. Please adjust accordingly and set it yourself.",
                ),
                value: title.clone(),
                inline: false,
            },
        );
    }
    let embed = Embed {
        author: Some(String::from_str("Render and upload")),
        color: get_embed_color(&MessageState::SUCCESS),
        title: Some(title.clone()),
        description: Some(description),
        fields,
    };
    assert(embed@.fields =~= result_embed(title@, youtube_id@, title_too_long).fields);
    embed
}

/// Builds the notice on an approved suggestion.
pub fn suggestion_approved_embed(title: &String) -> (embed: Embed)
    ensures
        embed@ == suggestion_embed(title@, true),
{
    let mut description = String::from_str("Score: ");
    description.append(title.as_str());
    let embed = Embed {
        author: Some(String::from_str("Suggestion")),
        color: get_embed_color(&MessageState::SUCCESS),
        title: Some(String::from_str("\u{2705} Your suggestion has been approved!")),
        description: Some(description),
        fields: Vec::new(),
    };
    assert(embed@.fields =~= Seq::<FieldView>::empty());
    embed
}

/// Builds the notice on a declined suggestion.
pub fn suggestion_declined_embed(title: &String) -> (embed: Embed)
    ensures
        embed@ == suggestion_embed(title@, false),
{
    let mut description = String::from_str("Score: ");
    description.append(title.as_str());
    let embed = Embed {
        author: Some(String::from_str("Suggestion")),
        color: get_embed_color(&MessageState::SUCCESS),
        title: Some(String::from_str("\u{274c} Your suggestion has been declined!")),
        description: Some(description),
        fields: Vec::new(),
    };
    assert(embed@.fields =~= Seq::<FieldView>::empty());
    embed
}

} // verus!
