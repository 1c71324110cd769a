use std::collections::VecDeque;
use vstd::prelude::*;

use crate::app::PlayerCommand;
use crate::config::{Termusic, MUSIC_DIR};
use crate::paths::{expand_tilde, is_tilde_expansion};
use crate::song::Song;

verus! {

/// Playback status of the main screen.
pub enum Status {
    Running,
    Stopped,
    Paused,
}

/// Why a screen asks to be closed.
pub enum ExitReason {
    Quit,
    /// The tag editor changed the file at this path; the playlist must be reloaded.
    NeedRefreshPlaylist(String),
}

/// What the message box shows.
pub enum MessageState {
    /// Title and text of the message.
    Show((String, String)),
    Hide,
}

/// Progress of a download.
pub enum TransferState {
    Running,
    Success,
    Completed(Option<String>),
    ErrDownload,
    ErrEmbedData,
}

/// The download status shown in the status line.
#[derive(Copy, Clone)]
pub enum StatusLine {
    Default,
    Success,
    Running,
    Error,
}

/// Text shown when the tag editor is asked to open a directory.
pub const DIRECTORY_HAS_NO_TAG: &'static str = "directory doesn't have tag!";

/// The state of the main screen that its decisions read and write. `Ctx` is the
/// terminal context the screen borrows while it is shown.
pub struct TermusicActivity<Ctx> {
    pub exit_reason: Option<ExitReason>,
    pub context: Option<Ctx>,
    pub redraw: bool,
    /// Root of the library tree.
    pub path: String,
    /// The play queue; its front is the next song to start.
    pub queue_items: VecDeque<Song>,
    pub time_pos: u64,
    pub status: Option<Status>,
    pub current_song: Option<Song>,
    pub yanked_node_id: Option<String>,
    pub config: Termusic,
}

/// What the main loop must do after `TermusicActivity::run`.
pub enum RunAction {
    /// Nothing started.
    Idle,
    /// A song was taken from the front of the queue and became the current song: send
    /// `command` to the player, if there is one, then refresh the playback widgets.
    Started { command: Option<PlayerCommand> },
}

/// What the selected node of the library tree turned out to be.
pub enum NodeProbe {
    /// No node is selected.
    NoSelection,
    Directory,
    /// A file, with the song read from it or the text of the error that reading gave.
    File(Result<Song, String>),
}

/// How the tag editor starts.
pub enum TagEditorStart<Ctx> {
    /// Nothing was selected: the editor runs without a song and without the context.
    Blank,
    /// Show this error and do not open the editor.
    Refuse(String),
    /// Open the editor on `song`, lending it the screen's context.
    Open { context: Ctx, song: Song },
    /// The screen has no context to lend: give up.
    NoContext,
}

/// What the tag editor's loop does after one pass.
pub enum TagEditorStep {
    Leave,
    /// Reload the playlist after the file at this path changed, then go on.
    RefreshPlaylist(String),
    Continue,
}

/// The command that starts `song` on the player, if it has a file.
pub open spec fn play_command(song: Song) -> Option<PlayerCommand> {
    match song.file {
        Some(f) => Some(PlayerCommand::Play(f)),
        None => None,
    }
}

/// The queue after its front song has been started: that song moves to the back.
pub open spec fn rotated(q: Seq<Song>) -> Seq<Song> {
    q.drop_first().push(q[0])
}

/// The queue after `k` songs have been started from it.
pub open spec fn rotate_times(q: Seq<Song>, k: nat) -> Seq<Song>
    decreases k,
{
    if k == 0 || q.len() == 0 {
        q
    } else {
        rotated(rotate_times(q, (k - 1) as nat))
    }
}

/// The screen after it was shown on `context`: it holds the context, playback stopped.
pub open spec fn shown_on<Ctx>(screen: TermusicActivity<Ctx>, context: Ctx) -> TermusicActivity<Ctx> {
    TermusicActivity { context: Some(context), status: Some(Status::Stopped), ..screen }
}

/// `after` holds the same context as `before`: the step between them lent nothing.
pub open spec fn keeps_context<Ctx>(before: TermusicActivity<Ctx>, after: TermusicActivity<Ctx>) -> bool {
    after.context == before.context
}

/// The screen after it was closed: it holds no context.
pub open spec fn closed<Ctx>(screen: TermusicActivity<Ctx>) -> TermusicActivity<Ctx> {
    TermusicActivity { context: None, ..screen }
}

impl<Ctx> Default for TermusicActivity<Ctx> {
    /// A screen that has not been shown yet: no context, no status, an empty queue, and
    /// the default music directory (its `~` expanded) as the root of the tree.
    fn default() -> (activity: Self)
        ensures
            activity.exit_reason is None,
            activity.context is None,
            activity.redraw,
            is_tilde_expansion(MUSIC_DIR@, activity.path@),
            activity.queue_items@ == Seq::<Song>::empty(),
            activity.time_pos == 0,
            activity.status is None,
            activity.current_song is None,
            activity.yanked_node_id is None,
            activity.config.music_dir@ == MUSIC_DIR@,
    {
        let path = expand_tilde(MUSIC_DIR);
        TermusicActivity {
            exit_reason: None,
            context: None,
            redraw: true,
            path,
            queue_items: VecDeque::with_capacity(100),
            time_pos: 0,
            status: None,
            current_song: None,
            yanked_node_id: None,
            config: Termusic::default(),
        }
    }
}

impl<Ctx> TermusicActivity<Ctx> {
    /// Takes over `config` and makes its music directory, with `~` expanded, the root of
    /// the library tree; returns that directory, whose tree the screen must now show.
    pub fn init_config(&mut self, config: &Termusic) -> (music_dir: String)
        ensures
            *final(self) == (TermusicActivity { config: *config, path: music_dir, ..*old(self) }),
            is_tilde_expansion(config.music_dir@, music_dir@),
            keeps_context(*old(self), *final(self)),
    {
        self.config = config.clone();
        let music_dir = expand_tilde(self.config.music_dir.as_str());
        self.path = music_dir.clone();
        music_dir
    }

    /// One step of playback. A screen without a status becomes stopped. A stopped
    /// screen with songs queued starts the song at the front: it becomes the current
    /// song, moves to the back of the queue, and the status becomes running. In every
    /// other case nothing changes.
    pub fn run(&mut self) -> (action: RunAction)
        ensures
            keeps_context(*old(self), *final(self)),
            old(self).status == Some(Status::Stopped) && old(self).queue_items@.len() > 0
                ==> match old(self).queue_items@[0].file {
                Some(f) => action == (RunAction::Started {
                    command: Some(PlayerCommand::Play(f)),
                }),
                None => action == (RunAction::Started { command: None }),
            },
            match old(self).status {
                Some(Status::Stopped) => if old(self).queue_items@.len() == 0 {
                    &&& *final(self) == *old(self)
                    &&& action is Idle
                } else {
                    &&& final(self).queue_items@ == rotated(old(self).queue_items@)
                    &&& *final(self) == (TermusicActivity {
                        status: Some(Status::Running),
                        current_song: Some(old(self).queue_items@[0]),
                        queue_items: final(self).queue_items,
                        ..*old(self)
                    })
                    &&& action == (RunAction::Started {
                        command: play_command(old(self).queue_items@[0]),
                    })
                },
                Some(_) => {
                    &&& *final(self) == *old(self)
                    &&& action is Idle
                },
                None => {
                    &&& *final(self) == (TermusicActivity {
                        status: Some(Status::Stopped),
                        ..*old(self)
                    })
                    &&& action is Idle
                },
            },
    {
        let stopped = match &self.status {
            Some(Status::Stopped) => true,
            _ => false,
        };
        if self.status.is_none() {
            self.status = Some(Status::Stopped);
            return RunAction::Idle;
        }
        if !stopped || self.queue_items.len() == 0 {
            return RunAction::Idle;
        }
        self.status = Some(Status::Running);
        match self.queue_items.pop_front() {
            Some(song) => {
                let command = match &song.file {
                    Some(f) => Some(PlayerCommand::Play(f.clone())),
                    None => None,
                };
                self.queue_items.push_back(song.clone());
                self.current_song = Some(song);
                RunAction::Started { command }
            },
            None => RunAction::Idle,
        }
    }

    /// Decides how the tag editor starts for the selected node of the library tree. A
    /// directory is refused with `DIRECTORY_HAS_NO_TAG`, a file that could not be read
    /// is refused with the reading error; a song read from a file opens the editor on
    /// it with the screen's context, which the screen gives up meanwhile, or gives up
    /// when the screen has no context. With nothing selected the editor runs blank.
    pub fn prepare_tag_editor(&mut self, node: NodeProbe) -> (start: TagEditorStart<Ctx>)
        ensures
            match node {
                NodeProbe::NoSelection => {
                    &&& *final(self) == *old(self)
                    &&& start is Blank
                },
                NodeProbe::Directory => {
                    &&& *final(self) == *old(self)
                    &&& start matches TagEditorStart::Refuse(message)
                    &&& message@ == DIRECTORY_HAS_NO_TAG@
                },
                NodeProbe::File(Err(error)) => {
                    &&& *final(self) == *old(self)
                    &&& start == TagEditorStart::<Ctx>::Refuse(error)
                },
                NodeProbe::File(Ok(song)) => match old(self).context {
                    Some(context) => {
                        &&& *final(self) == (TermusicActivity { context: None, ..*old(self) })
                        &&& start == (TagEditorStart::Open { context, song })
                    },
                    None => {
                        &&& *final(self) == *old(self)
                        &&& start is NoContext
                    },
                },
            },
    {
        match node {
            NodeProbe::NoSelection => TagEditorStart::Blank,
            NodeProbe::Directory => TagEditorStart::Refuse(DIRECTORY_HAS_NO_TAG.to_string()),
            NodeProbe::File(Err(error)) => TagEditorStart::Refuse(error),
            NodeProbe::File(Ok(song)) => match self.context.take() {
                Some(context) => TagEditorStart::Open { context, song },
                None => TagEditorStart::NoContext,
            },
        }
    }

    /// Takes back the context that the tag editor returned when it closed; what the
    /// editor returns replaces the screen's context.
    pub fn finish_tag_editor(&mut self, context: Option<Ctx>)
        ensures
            *final(self) == (TermusicActivity { context, ..*old(self) }),
    {
        self.context = context;
    }

    /// Shows the screen on `context`: the screen keeps the context and playback is
    /// stopped.
    pub fn on_create(&mut self, context: Ctx)
        ensures
            *final(self) == shown_on(*old(self), context),
    {
        self.context = Some(context);
        self.status = Some(Status::Stopped);
    }

    /// Whether the screen can draw: only while it holds a context.
    pub fn can_draw(&self) -> (ready: bool)
        ensures
            ready == self.context is Some,
    {
        self.context.is_some()
    }

    /// Records that input arrived: the screen must be redrawn.
    pub fn mark_redraw(&mut self)
        ensures
            *final(self) == (TermusicActivity { redraw: true, ..*old(self) }),
            keeps_context(*old(self), *final(self)),
    {
        self.redraw = true;
    }

    /// Whether the screen must be drawn now; the request is cleared.
    pub fn take_redraw(&mut self) -> (draw: bool)
        ensures
            draw == old(self).redraw,
            *final(self) == (TermusicActivity { redraw: false, ..*old(self) }),
            keeps_context(*old(self), *final(self)),
    {
        let draw = self.redraw;
        self.redraw = false;
        draw
    }

    /// Why the screen asks to be closed, if it does.
    pub fn will_umount(&self) -> (reason: Option<&ExitReason>)
        ensures
            reason is Some == self.exit_reason is Some,
            reason is Some ==> *reason.unwrap() == self.exit_reason.unwrap(),
    {
        match &self.exit_reason {
            Some(r) => Some(r),
            None => None,
        }
    }

    /// Closes the screen: the context it held, if any, is handed back.
    pub fn on_destroy(&mut self) -> (context: Option<Ctx>)
        ensures
            context == old(self).context,
            *final(self) == closed(*old(self)),
    {
        self.context.take()
    }
}

/// What the tag editor's loop does after a pass in which the editor gave `reason`:
/// leave on `Quit`, reload the playlist on `NeedRefreshPlaylist`, else go on.
pub fn tag_editor_step(reason: Option<&ExitReason>) -> (step: TagEditorStep)
    ensures
        match reason {
            Some(ExitReason::Quit) => step is Leave,
            Some(ExitReason::NeedRefreshPlaylist(file)) => step == TagEditorStep::RefreshPlaylist(
                *file,
            ),
            None => step is Continue,
        },
{
    match reason {
        Some(ExitReason::Quit) => TagEditorStep::Leave,
        Some(ExitReason::NeedRefreshPlaylist(file)) => TagEditorStep::RefreshPlaylist(file.clone()),
        None => TagEditorStep::Continue,
    }
}

/// The command that starts a song plays exactly the song's file: every song with a file
/// is started by `Play` of that file, and no command is sent only for a song without one.
pub proof fn law_start_plays_file(song: Song)
    ensures
        song.file matches Some(f) ==> play_command(song) == Some(PlayerCommand::Play(f)),
        play_command(song) is None <==> song.file is None,
{
}

/// Starting a song never loses or adds one: the queue after a start holds the same
/// songs, as many times each, as before.
pub proof fn law_start_keeps_songs(q: Seq<Song>)
    requires
        q.len() > 0,
    ensures
        rotated(q).len() == q.len(),
        rotated(q).to_multiset() == q.to_multiset(),
{
    broadcast use vstd::seq_lib::group_to_multiset_ensures, vstd::multiset::group_multiset_axioms;

    assert(q.drop_first() =~= q.remove(0));
    assert(q.to_multiset().count(q[0]) > 0);
    assert(q.to_multiset().remove(q[0]).insert(q[0]) =~= q.to_multiset());
}

/// Successive starts walk the queue in order: after `k` starts the queue is its last
/// songs from position `k` followed by its first `k` songs, so the `k`-th start plays
/// the song that was at position `k`, and after as many starts as there are songs the
/// queue is back in its original order.
pub proof fn law_starts_walk_queue(q: Seq<Song>, k: nat)
    requires
        k <= q.len(),
    ensures
        rotate_times(q, k) == q.skip(k as int) + q.take(k as int),
        k < q.len() ==> rotate_times(q, k)[0] == q[k as int],
        rotate_times(q, q.len()) == q,
{
    lemma_rotate_prefix(q, k);
    lemma_rotate_prefix(q, q.len());
    assert(q.skip(q.len() as int) + q.take(q.len() as int) =~= q);
}

proof fn lemma_rotate_prefix(q: Seq<Song>, k: nat)
    requires
        k <= q.len(),
    ensures
        rotate_times(q, k) == q.skip(k as int) + q.take(k as int),
    decreases k,
{
    if k == 0 {
        assert(q.skip(0) + q.take(0) =~= q);
    } else {
        lemma_rotate_prefix(q, (k - 1) as nat);
        let prev = q.skip(k - 1) + q.take(k - 1);
        assert(prev[0] == q[k - 1]);
        assert(rotated(prev) =~= q.skip(k as int) + q.take(k as int));
    }
}

/// The context a screen is shown on comes back when the screen closes, and the closed
/// screen keeps none; playback stays stopped.
pub proof fn law_context_round_trip<Ctx>(screen: TermusicActivity<Ctx>, context: Ctx)
    ensures
        shown_on(screen, context).context == Some(context),
        closed(shown_on(screen, context)).context is None,
        closed(shown_on(screen, context)).status == Some(Status::Stopped),
{
}

/// The screen holds the context it was shown on until it is destroyed: through any run of
/// steps that lend nothing (playback steps, taking a configuration, drawing, asking
/// whether to close), the context stays, so closing hands back the very context given
/// when the screen was shown, and the closed screen keeps none.
pub proof fn law_context_held_until_destroy<Ctx>(
    screen: TermusicActivity<Ctx>,
    context: Ctx,
    steps: Seq<TermusicActivity<Ctx>>,
)
    requires
        steps.len() > 0,
        steps[0] == shown_on(screen, context),
        forall|i: int| 0 <= i < steps.len() - 1 ==> #[trigger] keeps_context(steps[i], steps[i + 1]),
    ensures
        steps.last().context == Some(context),
        closed(steps.last()).context is None,
    decreases steps.len(),
{
    if steps.len() > 1 {
        let shorter = steps.drop_last();
        assert forall|i: int| 0 <= i < shorter.len() - 1 implies #[trigger] keeps_context(shorter[i], shorter[i + 1]) by {
            assert(keeps_context(steps[i], steps[i + 1]));
        }
        law_context_held_until_destroy(screen, context, shorter);
        let j = steps.len() - 2;
        assert(keeps_context(steps[j], steps[j + 1]));
        assert(shorter.last() == steps[j]);
    }
}

} // verus!
