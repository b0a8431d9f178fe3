use oscbot::coordinator::{
    render_and_upload, render_and_upload_by_replay, render_and_upload_by_score, JobError, Stage,
};
use oscbot::discord::{
    handle_error, handle_message, list, user_has_replay_role, FrameworkFault, Notice,
};
use oscbot::message::MessageState;
use oscbot::skin::SkinReference;

fn generic() -> Option<Notice> {
    Some(Notice {
        text: "Something went wrong. blame Mikumin.".to_string(),
        state: MessageState::ERROR,
        ephemeral: false,
    })
}

#[test]
fn failed_checks_and_user_permissions_are_silent() {
    for has_context in [true, false] {
        assert_eq!(handle_error(FrameworkFault::CommandCheckFailed, has_context), None);
        assert_eq!(handle_error(FrameworkFault::MissingUserPermissions, has_context), None);
    }
}

#[test]
fn missing_bot_permissions_are_told_to_the_user_alone() {
    assert_eq!(
        handle_error(FrameworkFault::MissingBotPermissions, true),
        Some(Notice {
            text: "Bot has missing permissions".to_string(),
            state: MessageState::ERROR,
            ephemeral: true,
        })
    );
    assert_eq!(handle_error(FrameworkFault::MissingBotPermissions, false), None);
}

#[test]
fn command_failures_are_always_answered() {
    for has_context in [true, false] {
        assert_eq!(handle_error(FrameworkFault::Command, has_context), generic());
        assert_eq!(handle_error(FrameworkFault::CommandPanic, has_context), generic());
    }
}

#[test]
fn other_faults_are_answered_where_there_is_a_command() {
    for fault in [
        FrameworkFault::Setup,
        FrameworkFault::EventHandler,
        FrameworkFault::DynamicPrefix,
        FrameworkFault::Other,
    ] {
        assert_eq!(handle_error(fault, true), generic());
        assert_eq!(handle_error(fault, false), None);
    }
}

#[test]
fn replay_role_is_looked_up_among_the_roles() {
    assert!(user_has_replay_role(&vec![1, 2, 3], 2));
    assert!(user_has_replay_role(&vec![7], 7));
    assert!(!user_has_replay_role(&vec![1, 2, 3], 4));
    assert!(!user_has_replay_role(&vec![], 0));
}

#[test]
fn only_the_phrase_of_a_human_is_answered() {
    assert!(handle_message(false, "sata andagi"));
    assert!(!handle_message(true, "sata andagi"));
    assert!(!handle_message(false, "Sata andagi"));
    assert!(!handle_message(false, "sata andagi!"));
    assert!(!handle_message(false, ""));
}

#[test]
fn blacklist_is_listed_as_mentions() {
    assert_eq!(list(&vec![]), "");
    assert_eq!(list(&vec!["1".to_string(), "22".to_string()]), "<@1>\n<@22>\n");
}

#[test]
fn run_is_set_up_as_given() {
    let skin = SkinReference { user: 9, url: "u".to_string() };
    let c = render_and_upload(
        "/danser".to_string(),
        "ref".to_string(),
        5,
        "hash".to_string(),
        "title".to_string(),
        "description".to_string(),
        vec![1],
        Some(skin),
    );
    assert_eq!(c.base, "/danser");
    assert_eq!(c.stage, Stage::Created);
    assert_eq!(c.replay, None);
    assert_eq!(c.video, None);
    assert_eq!(c.job.mapset_id, 5);
    assert_eq!(c.job.beatmap_hash, "hash");
    assert_eq!(c.job.replay_reference, "ref");
    assert_eq!(c.job.skin, Some(SkinReference { user: 9, url: "u".to_string() }));
    assert_eq!(c.job.title, "title");
    assert_eq!(c.job.description, "description");
    assert_eq!(c.job.thumbnail, vec![1]);
}

#[test]
fn score_is_referred_to_by_its_identifier() {
    let c = render_and_upload_by_score(
        "/danser".to_string(),
        1724681877,
        5,
        Some("hash".to_string()),
        "t".to_string(),
        "d".to_string(),
        vec![],
        None,
    )
    .expect("a beatmap with a checksum gives a run");
    assert_eq!(c.job.replay_reference, "1724681877");
    assert_eq!(c.job.beatmap_hash, "hash");
    assert_eq!(c.job.skin, None);
}

#[test]
fn score_without_checksum_gives_no_run() {
    let run = render_and_upload_by_score(
        "/danser".to_string(),
        1,
        5,
        None,
        "t".to_string(),
        "d".to_string(),
        vec![],
        None,
    );
    assert_eq!(run, Err(JobError::MissingChecksum));
}

#[test]
fn replay_is_referred_to_by_its_hash() {
    let c = render_and_upload_by_replay(
        "/danser".to_string(),
        Some("replayhash".to_string()),
        5,
        Some("hash".to_string()),
        "t".to_string(),
        "d".to_string(),
        vec![],
        None,
    )
    .expect("a replay with a hash and a beatmap with a checksum give a run");
    assert_eq!(c.job.replay_reference, "replayhash");
    assert_eq!(c.job.beatmap_hash, "hash");
}

#[test]
fn replay_without_hash_gives_no_run() {
    let both = render_and_upload_by_replay(
        "/danser".to_string(), None, 5, None, "t".to_string(), "d".to_string(), vec![], None,
    );
    assert_eq!(both, Err(JobError::MissingReplayHash));
    let hash_only = render_and_upload_by_replay(
        "/danser".to_string(),
        Some("r".to_string()),
        5,
        None,
        "t".to_string(),
        "d".to_string(),
        vec![],
        None,
    );
    assert_eq!(hash_only, Err(JobError::MissingChecksum));
}
