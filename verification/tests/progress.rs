use oscbot::embeds::{
    render_and_upload_embed, single_text_response_embed, suggestion_approved_embed,
    suggestion_declined_embed, upload_result_embed, Embed, EmbedField,
};
use oscbot::message::{get_embed_color, MessageState};
use oscbot::progress::{lines_of, progress_lines, ProgressLines, ProgressState};

fn lines(prepare: &str, render: &str, upload: &str) -> ProgressLines {
    ProgressLines {
        prepare: prepare.to_string(),
        render: render.to_string(),
        upload: upload.to_string(),
    }
}

fn field(name: &str, value: &str) -> EmbedField {
    EmbedField { name: name.to_string(), value: value.to_string(), inline: false }
}

#[test]
fn colours_of_the_severities() {
    assert_eq!(get_embed_color(&MessageState::SUCCESS), 0x873D48);
    assert_eq!(get_embed_color(&MessageState::WARN), 0xFFA53F);
    assert_eq!(get_embed_color(&MessageState::ERROR), 0xcc3300);
    assert_eq!(get_embed_color(&MessageState::INFO), 0x1434A4);
}

#[test]
fn lines_while_preparing() {
    assert_eq!(progress_lines(false, None, false), lines("Ongoing...", "awaiting", "awaiting"));
    assert_eq!(lines_of(&ProgressState::Preparing), lines("Ongoing...", "awaiting", "awaiting"));
}

#[test]
fn lines_when_the_render_starts() {
    assert_eq!(progress_lines(true, None, false), lines("Finished", "0%", "awaiting"));
    assert_eq!(lines_of(&ProgressState::Rendering(None)), lines("Finished", "0%", "awaiting"));
}

#[test]
fn lines_while_rendering() {
    assert_eq!(progress_lines(true, Some("45%"), false), lines("Finished", "45%", "awaiting"));
    assert_eq!(
        lines_of(&ProgressState::Rendering(Some("45%".to_string()))),
        lines("Finished", "45%", "awaiting")
    );
}

#[test]
fn full_token_turns_the_upload_on() {
    assert_eq!(progress_lines(true, Some("100%"), false), lines("Finished", "done", "ongoing"));
    assert_eq!(
        lines_of(&ProgressState::Rendering(Some("100%".to_string()))),
        lines("Finished", "done", "ongoing")
    );
    assert_eq!(lines_of(&ProgressState::Uploading), lines("Finished", "done", "ongoing"));
}

#[test]
fn lines_when_done() {
    assert_eq!(progress_lines(true, Some("100%"), true), lines("Finished", "done", "done"));
    assert_eq!(lines_of(&ProgressState::Done), lines("Finished", "done", "done"));
}

#[test]
fn upload_waits_for_the_full_token() {
    assert_eq!(progress_lines(true, Some("99%"), true), lines("Finished", "99%", "awaiting"));
    assert_eq!(progress_lines(true, None, true), lines("Finished", "0%", "awaiting"));
    assert_eq!(progress_lines(false, Some("100%"), true), lines("Ongoing...", "done", "done"));
}

#[test]
fn status_display() {
    let embed = render_and_upload_embed(&"Player - Song".to_string(), true, Some("45%".to_string()), false);
    assert_eq!(
        embed,
        Embed {
            author: Some("Upload progress:".to_string()),
            color: 0x873D48,
            title: Some("Player - Song".to_string()),
            description: None,
            fields: vec![
                field("Prepare replay:", "Finished"),
                field("Render replay:", "45%"),
                field("Upload Video:", "awaiting"),
            ],
        }
    );
}

#[test]
fn status_display_at_the_start() {
    let embed = render_and_upload_embed(&"...".to_string(), false, None, false);
    assert_eq!(
        embed.fields,
        vec![
            field("Prepare replay:", "Ongoing..."),
            field("Render replay:", "awaiting"),
            field("Upload Video:", "awaiting"),
        ]
    );
}

#[test]
fn upload_report() {
    let embed = upload_result_embed(&"Title".to_string(), &"abc123".to_string(), false);
    assert_eq!(
        embed,
        Embed {
            author: Some("Render and upload".to_string()),
            color: 0x873D48,
            title: Some("Title".to_string()),
            description: Some(
                "Video has been uploaded successfully: https://studio.youtube.com/video/abc123/edit"
                    .to_string()
            ),
            fields: vec![],
        }
    );
}

#[test]
fn upload_report_warns_about_a_long_title() {
    let embed = upload_result_embed(&"Long".to_string(), &"id".to_string(), true);
    assert_eq!(
        embed.fields,
        vec![field(
            "Warning: The title was too long. Please adjust accordingly and set it yourself.",
            "Long"
        )]
    );
}

#[test]
fn single_text_message() {
    let embed = single_text_response_embed("All mirrors don't have this map", MessageState::ERROR);
    assert_eq!(
        embed,
        Embed {
            author: None,
            color: 0xcc3300,
            title: None,
            description: Some("All mirrors don't have this map".to_string()),
            fields: vec![],
        }
    );
}

#[test]
fn suggestion_notices() {
    let approved = suggestion_approved_embed(&"Player - Song".to_string());
    assert_eq!(approved.author, Some("Suggestion".to_string()));
    assert_eq!(approved.title, Some("\u{2705} Your suggestion has been approved!".to_string()));
    assert_eq!(approved.description, Some("Score: Player - Song".to_string()));
    assert_eq!(approved.color, 0x873D48);
    assert!(approved.fields.is_empty());
    let declined = suggestion_declined_embed(&"Player - Song".to_string());
    assert_eq!(declined.title, Some("\u{274c} Your suggestion has been declined!".to_string()));
    assert_eq!(declined.description, Some("Score: Player - Song".to_string()));
}
