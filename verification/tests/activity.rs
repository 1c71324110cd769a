use std::collections::VecDeque;

use termusic::activity::{
    tag_editor_step, ExitReason, MessageState, NodeProbe, RunAction, Status, StatusLine,
    TagEditorStart, TagEditorStep, TermusicActivity, TransferState, DIRECTORY_HAS_NO_TAG,
};
use termusic::app::PlayerCommand;
use termusic::config::{Termusic, MUSIC_DIR};
use termusic::song::Song;

fn song(file: Option<&str>) -> Song {
    Song { file: file.map(|f| f.to_string()) }
}

fn files(queue: &VecDeque<Song>) -> Vec<Option<String>> {
    queue.iter().map(|s| s.file.clone()).collect()
}

fn stopped_with(queue: &[Option<&str>]) -> TermusicActivity<u32> {
    let mut a: TermusicActivity<u32> = TermusicActivity::default();
    for f in queue {
        a.queue_items.push_back(song(*f));
    }
    a.status = Some(Status::Stopped);
    a
}

#[test]
fn default_activity_is_blank() {
    let a: TermusicActivity<u32> = TermusicActivity::default();
    assert!(a.exit_reason.is_none());
    assert!(a.context.is_none());
    assert!(a.redraw);
    assert!(a.queue_items.is_empty());
    assert_eq!(a.time_pos, 0);
    assert!(a.status.is_none());
    assert!(a.current_song.is_none());
    assert!(a.yanked_node_id.is_none());
    assert_eq!(a.config.music_dir, MUSIC_DIR);
    assert!(a.path.ends_with("/Music"));
}

#[test]
fn run_arms_a_fresh_activity() {
    let mut a: TermusicActivity<u32> = TermusicActivity::default();
    a.queue_items.push_back(song(Some("a.mp3")));
    let action = a.run();
    assert!(matches!(action, RunAction::Idle));
    assert!(matches!(a.status, Some(Status::Stopped)));
    assert!(a.current_song.is_none());
    assert_eq!(files(&a.queue_items), vec![Some("a.mp3".to_string())]);
    // the next step starts the song
    let action = a.run();
    match action {
        RunAction::Started { command } => {
            assert_eq!(command, Some(PlayerCommand::Play("a.mp3".to_string())))
        }
        RunAction::Idle => panic!("expected a start"),
    }
}

#[test]
fn run_with_empty_queue_stays_stopped() {
    let mut a = stopped_with(&[]);
    let action = a.run();
    assert!(matches!(action, RunAction::Idle));
    assert!(matches!(a.status, Some(Status::Stopped)));
    assert!(a.current_song.is_none());
}

#[test]
fn run_starts_front_song_and_rotates_queue() {
    let mut a = stopped_with(&[Some("a.mp3"), None, Some("c.flac")]);
    let action = a.run();
    match action {
        RunAction::Started { command } => {
            assert_eq!(command, Some(PlayerCommand::Play("a.mp3".to_string())))
        }
        RunAction::Idle => panic!("expected a start"),
    }
    assert!(matches!(a.status, Some(Status::Running)));
    assert_eq!(a.current_song.as_ref().unwrap().file.as_deref(), Some("a.mp3"));
    assert_eq!(
        files(&a.queue_items),
        vec![None, Some("c.flac".to_string()), Some("a.mp3".to_string())]
    );
}

#[test]
fn run_song_without_file_sends_no_command() {
    let mut a = stopped_with(&[None, Some("b.mp3")]);
    let action = a.run();
    match action {
        RunAction::Started { command } => assert_eq!(command, None),
        RunAction::Idle => panic!("expected a start"),
    }
    assert!(a.current_song.as_ref().unwrap().file.is_none());
    assert_eq!(files(&a.queue_items), vec![Some("b.mp3".to_string()), None]);
}

#[test]
fn run_while_running_or_paused_changes_nothing() {
    for status in [Status::Running, Status::Paused] {
        let mut a = stopped_with(&[Some("a.mp3"), Some("b.mp3")]);
        a.status = Some(status);
        let action = a.run();
        assert!(matches!(action, RunAction::Idle));
        assert!(a.current_song.is_none());
        assert_eq!(
            files(&a.queue_items),
            vec![Some("a.mp3".to_string()), Some("b.mp3".to_string())]
        );
    }
    let mut a = stopped_with(&[Some("a.mp3")]);
    a.status = Some(Status::Paused);
    a.run();
    assert!(matches!(a.status, Some(Status::Paused)));
}

#[test]
fn starts_walk_the_queue_and_wrap_around() {
    let original = vec![Some("a".to_string()), Some("b".to_string()), Some("c".to_string())];
    let mut a = stopped_with(&[Some("a"), Some("b"), Some("c")]);
    let mut played = Vec::new();
    for _ in 0..4 {
        a.status = Some(Status::Stopped);
        if let RunAction::Started { command: Some(PlayerCommand::Play(f)) } = a.run() {
            played.push(f);
        }
        assert_eq!(a.queue_items.len(), 3);
        if played.len() == 3 {
            assert_eq!(files(&a.queue_items), original);
        }
    }
    assert_eq!(played, vec!["a", "b", "c", "a"]);
}

#[test]
fn tag_editor_refuses_directory() {
    let mut a = stopped_with(&[]);
    a.context = Some(7);
    match a.prepare_tag_editor(NodeProbe::Directory) {
        TagEditorStart::Refuse(message) => {
            assert_eq!(message, DIRECTORY_HAS_NO_TAG);
            assert_eq!(message, "directory doesn't have tag!");
        }
        _ => panic!("expected a refusal"),
    }
    assert_eq!(a.context, Some(7));
}

#[test]
fn tag_editor_reports_read_error() {
    let mut a = stopped_with(&[]);
    a.context = Some(7);
    match a.prepare_tag_editor(NodeProbe::File(Err("no such file".to_string()))) {
        TagEditorStart::Refuse(message) => assert_eq!(message, "no such file"),
        _ => panic!("expected a refusal"),
    }
    assert_eq!(a.context, Some(7));
}

#[test]
fn tag_editor_opens_with_the_context() {
    let mut a = stopped_with(&[]);
    a.context = Some(7);
    match a.prepare_tag_editor(NodeProbe::File(Ok(song(Some("x.mp3"))))) {
        TagEditorStart::Open { context, song } => {
            assert_eq!(context, 7);
            assert_eq!(song.file.as_deref(), Some("x.mp3"));
        }
        _ => panic!("expected the editor to open"),
    }
    assert_eq!(a.context, None);
    a.finish_tag_editor(Some(7));
    assert_eq!(a.context, Some(7));
}

#[test]
fn tag_editor_without_context_gives_up() {
    let mut a = stopped_with(&[]);
    assert!(matches!(
        a.prepare_tag_editor(NodeProbe::File(Ok(song(Some("x.mp3"))))),
        TagEditorStart::NoContext
    ));
    assert_eq!(a.context, None);
}

#[test]
fn tag_editor_without_selection_runs_blank() {
    let mut a = stopped_with(&[]);
    a.context = Some(3);
    assert!(matches!(a.prepare_tag_editor(NodeProbe::NoSelection), TagEditorStart::Blank));
    assert_eq!(a.context, Some(3));
    // what the blank editor gives back replaces the context
    a.finish_tag_editor(None);
    assert_eq!(a.context, None);
}

#[test]
fn tag_editor_loop_steps() {
    assert!(matches!(tag_editor_step(Some(&ExitReason::Quit)), TagEditorStep::Leave));
    match tag_editor_step(Some(&ExitReason::NeedRefreshPlaylist("/m/a.mp3".to_string()))) {
        TagEditorStep::RefreshPlaylist(f) => assert_eq!(f, "/m/a.mp3"),
        _ => panic!("expected a refresh"),
    }
    assert!(matches!(tag_editor_step(None), TagEditorStep::Continue));
}

#[test]
fn context_comes_back_on_destroy() {
    let mut a: TermusicActivity<String> = TermusicActivity::default();
    assert!(!a.can_draw());
    a.on_create("terminal".to_string());
    assert!(a.can_draw());
    assert!(matches!(a.status, Some(Status::Stopped)));
    assert_eq!(a.on_destroy(), Some("terminal".to_string()));
    assert_eq!(a.context, None);
    assert!(!a.can_draw());
    assert_eq!(a.on_destroy(), None);
}

#[test]
fn redraw_request_is_taken_once() {
    let mut a: TermusicActivity<u32> = TermusicActivity::default();
    assert!(a.take_redraw());
    assert!(!a.take_redraw());
    a.mark_redraw();
    assert!(a.redraw);
    assert!(a.take_redraw());
    assert!(!a.redraw);
}

#[test]
fn will_umount_reports_exit_reason() {
    let mut a: TermusicActivity<u32> = TermusicActivity::default();
    assert!(a.will_umount().is_none());
    a.exit_reason = Some(ExitReason::Quit);
    assert!(matches!(a.will_umount(), Some(ExitReason::Quit)));
}

#[test]
fn init_config_takes_config_and_expands_music_dir() {
    let mut a: TermusicActivity<u32> = TermusicActivity::default();
    let dir = a.init_config(&Termusic { music_dir: "/srv/music".to_string() });
    assert_eq!(dir, "/srv/music");
    assert_eq!(a.path, "/srv/music");
    assert_eq!(a.config.music_dir, "/srv/music");

    let dir = a.init_config(&Termusic { music_dir: "~/Music".to_string() });
    assert_eq!(a.config.music_dir, "~/Music");
    assert!(dir.ends_with("/Music"));
    assert!(!dir.starts_with('~'));
    assert_eq!(a.path, dir);

    let dir = a.init_config(&Termusic { music_dir: "~other/music".to_string() });
    assert_eq!(dir, "~other/music");
}

#[test]
fn status_line_and_messages() {
    let line = StatusLine::Running;
    let copy = line;
    assert!(matches!(copy, StatusLine::Running));
    assert!(matches!(line, StatusLine::Running));
    let shown = MessageState::Show(("Title".to_string(), "Text".to_string()));
    assert!(matches!(shown, MessageState::Show((ref t, _)) if t == "Title"));
    assert!(matches!(MessageState::Hide, MessageState::Hide));
    let done = TransferState::Completed(Some("a.mp3".to_string()));
    assert!(matches!(done, TransferState::Completed(Some(_))));
    for s in [TransferState::Running, TransferState::Success, TransferState::ErrDownload, TransferState::ErrEmbedData] {
        assert!(!matches!(s, TransferState::Completed(_)));
    }
}

#[test]
fn context_is_held_through_steps_until_destroy() {
    let mut a: TermusicActivity<String> = TermusicActivity::default();
    a.queue_items.push_back(song(Some("a.mp3")));
    a.on_create("terminal".to_string());
    a.run();
    a.init_config(&Termusic { music_dir: "/srv/music".to_string() });
    a.mark_redraw();
    a.take_redraw();
    assert!(a.can_draw());
    assert!(a.will_umount().is_none());
    a.status = Some(Status::Stopped);
    a.run();
    assert_eq!(a.on_destroy(), Some("terminal".to_string()));
    assert_eq!(a.context, None);
}
