//! The reload coordinator: one owner for the shader text, the installed
//! pipeline, the watch on the user's file and the per-frame uniform state.
//!
//! The coordinator does no outside work itself. Once per frame the host
//! drains its watch channels, reads files, compiles shaders and builds
//! pipelines, and hands each result over; the coordinator decides what
//! follows from it. A frame runs in this order:
//!
//! 1. `drain_events` takes the notifications drained this frame;
//! 2. where it asks for it, `read_external_glsl_file` takes the file's text;
//! 3. `compile_request` says whether an attempt is due, and on which text;
//! 4. `reload` takes the compilers' outputs and installs the new pipeline
//!    or keeps the old one;
//! 5. `present` fills the uniform block and counts the frame.

use crate::clock::{binary32_of_count, ClockState, FrameClock, FRAME_LIMIT};
use crate::compiler::{
    attempt_outcome,
    join_stages,
    stage_output,
    CompileError,
    CompileErrorView,
    CompiledStagesView,
    Stage,
};
use crate::notifier::{
    content_changed,
    stage_changed,
    stage_trigger,
    ChangeNotifier,
    NotifierState,
    WatchEvent,
    WatchSetupError,
    WatchTarget,
};
use crate::pipeline::{create_pipeline, pipeline_for, Pipeline, PipelineView};
use crate::render::{full_screen_draw, DrawCall, RenderCallback};
use crate::source::{Origin, OriginView, ShaderSource, SourceState};
use crate::uniform::{lemma_layout_size, UniformState, Vec2, UNIFORM_SIZE};
use vstd::prelude::*;

verus! {

/// Whether a compilation attempt is due.
#[derive(Clone, Copy, Debug, PartialEq, Eq, Structural)]
pub enum ReloadState {
    /// Nothing changed since the last attempt.
    Clean,
    /// An attempt is due.
    Dirty,
}

/// How a call of `reload` ended.
#[derive(Clone, Copy, Debug, PartialEq, Eq, Structural)]
pub enum ReloadOutcome {
    /// No attempt was due; nothing was done.
    Idle,
    /// Both stages compiled; the new pipeline is installed.
    Installed,
    /// This stage failed to compile; the pipeline is as it was.
    Failed(Stage),
}

/// Why the user's file could not be read again after a notification.
#[derive(Clone, Debug, PartialEq, Eq)]
pub enum FileReadError {
    /// No file was chosen.
    PathNotSet,
    /// The file does not exist any more.
    NotFound,
    /// The file could not be read.
    Unreadable(String),
}

/// A file of the user's choice on which the host has set a watch: its
/// absolute path and its text.
#[derive(Clone, Debug, PartialEq, Eq)]
pub struct ExternalFile {
    pub path: String,
    pub text: String,
}

/// What the coordinator holds.
pub struct AppState<F> {
    /// The fragment shader's text, its provenance and the dirty flag.
    pub source: SourceState,
    /// The installed pipeline, where an attempt has succeeded.
    pub pipeline: Option<PipelineView<F>>,
    /// The error of the last attempt, where it failed.
    pub error: Option<CompileErrorView>,
    /// The change notifier; none on a platform without file watching.
    pub notifier: Option<NotifierState>,
    /// Format of the surface that pipelines draw to.
    pub target_format: F,
    /// Frame counter and time origin.
    pub clock: ClockState,
    /// The uniform block as last presented.
    pub uniform: UniformState,
}

impl<F> AppState<F> {
    /// The state at start: the embedded text, dirty, no pipeline, no watch
    /// on a file of the user's choice, the clock started at `now`.
    pub open spec fn initial(
        text: Seq<char>,
        target_format: F,
        now: u64,
        file_watching: bool,
    ) -> AppState<F> {
        AppState {
            source: SourceState { text, origin: OriginView::Embedded, dirty: true },
            pipeline: None,
            error: None,
            notifier: if file_watching {
                Some(NotifierState::initial())
            } else {
                None
            },
            target_format,
            clock: ClockState { origin: now, frame: 0 },
            uniform: UniformState::zeroed(),
        }
    }

    /// This state with another source.
    pub open spec fn with_source(self, source: SourceState) -> AppState<F> {
        AppState {
            source,
            pipeline: self.pipeline,
            error: self.error,
            notifier: self.notifier,
            target_format: self.target_format,
            clock: self.clock,
            uniform: self.uniform,
        }
    }

    /// This state with another notifier.
    pub open spec fn with_notifier(self, notifier: Option<NotifierState>) -> AppState<F> {
        AppState {
            source: self.source,
            pipeline: self.pipeline,
            error: self.error,
            notifier,
            target_format: self.target_format,
            clock: self.clock,
            uniform: self.uniform,
        }
    }

    /// Whether a compilation attempt is due.
    pub open spec fn attempt_due(self) -> bool {
        self.source.dirty
    }

    /// The reload state: `Dirty` exactly where an attempt is due.
    pub open spec fn reload_state(self) -> ReloadState {
        if self.source.dirty {
            ReloadState::Dirty
        } else {
            ReloadState::Clean
        }
    }

    /// The watch channel the host is to drain for the user's file.
    pub open spec fn polled_channel(self) -> Option<u64> {
        match self.notifier {
            Some(notifier) => notifier.polled_channel(),
            None => None,
        }
    }

    /// Path of the user's file, where one is watched.
    pub open spec fn external_path(self) -> Option<Seq<char>> {
        match self.notifier {
            Some(notifier) => match notifier.external {
                Some(handle) => Some(handle.path),
                None => None,
            },
            None => None,
        }
    }

    /// Whether the user's file is watched and the watch is followed.
    pub open spec fn monitoring(self) -> bool {
        self.polled_channel().is_some()
    }

    /// The state after a batch of notifications was drained: an attempt is
    /// due where the content of a stage file changed. However many events
    /// say so, the state is the same.
    pub open spec fn drain(self, events: Seq<WatchEvent>) -> AppState<F> {
        if self.notifier.is_some() && stage_changed(events) {
            self.with_source(self.source.with_dirty(true))
        } else {
            self
        }
    }

    /// Whether a drained batch calls for reading the user's file again.
    pub open spec fn reread_due(self, events: Seq<WatchEvent>) -> bool {
        match self.notifier {
            Some(notifier) => notifier.external_changed(events),
            None => false,
        }
    }

    /// The state after the shader text was replaced, by an edit or by
    /// reading the user's file again.
    pub open spec fn with_text(self, text: Seq<char>) -> AppState<F> {
        self.with_source(self.source.with_text(text))
    }

    /// Whether a watch on a file can be set: the platform has file watching.
    pub open spec fn can_watch(self) -> bool {
        self.notifier.is_some()
    }

    /// The state after the user's choice of the file at `path`, with `text`
    /// in it, replaced the watched file.
    pub open spec fn watch(self, path: Seq<char>, text: Seq<char>) -> AppState<F>
        recommends
            self.can_watch(),
    {
        self.with_source(self.source.with_file(path, text)).with_notifier(
            Some(self.notifier.unwrap().replace(path)),
        )
    }

    /// The state after a compilation attempt with the given outcome. Where
    /// none was due, nothing changes. Otherwise the state is clean; success
    /// installs the pipeline of the compiled stages and clears the error,
    /// failure records the error and leaves the pipeline as it was.
    pub open spec fn reload(
        self,
        outcome: Result<CompiledStagesView, CompileErrorView>,
    ) -> AppState<F> {
        if !self.source.dirty {
            self
        } else {
            AppState {
                source: self.source.with_dirty(false),
                pipeline: match outcome {
                    Ok(stages) => Some(pipeline_for(stages, self.target_format)),
                    Err(_) => self.pipeline,
                },
                error: match outcome {
                    Ok(_) => None,
                    Err(error) => Some(error),
                },
                notifier: self.notifier,
                target_format: self.target_format,
                clock: self.clock,
                uniform: self.uniform,
            }
        }
    }

    /// What `reload` reports for the given outcome.
    pub open spec fn reload_outcome(
        self,
        outcome: Result<CompiledStagesView, CompileErrorView>,
    ) -> ReloadOutcome {
        if !self.source.dirty {
            ReloadOutcome::Idle
        } else {
            match outcome {
                Ok(_) => ReloadOutcome::Installed,
                Err(error) => ReloadOutcome::Failed(error.stage),
            }
        }
    }

    /// The state after a reset at `now`: the frame count is zero and time
    /// is counted from `now`.
    pub open spec fn reset(self, now: u64) -> AppState<F> {
        AppState {
            source: self.source,
            pipeline: self.pipeline,
            error: self.error,
            notifier: self.notifier,
            target_format: self.target_format,
            clock: self.clock.reset(now),
            uniform: UniformState {
                resolution: self.uniform.resolution,
                time: self.uniform.time,
                time_delta: self.uniform.time_delta,
                frame: 0,
                channel_time: self.uniform.channel_time,
                mouse: self.uniform.mouse,
                date: self.uniform.date,
                sample_rate: self.uniform.sample_rate,
            },
        }
    }

    /// The uniform block of the frame that is presented next, given the
    /// viewport size and the time as the bits of floats.
    pub open spec fn frame_uniform(self, resolution: Vec2, time: u32) -> UniformState {
        UniformState {
            resolution,
            time,
            time_delta: self.uniform.time_delta,
            frame: binary32_of_count(self.clock.frame) as u32,
            channel_time: self.uniform.channel_time,
            mouse: self.uniform.mouse,
            date: self.uniform.date,
            sample_rate: self.uniform.sample_rate,
        }
    }

    /// The state after a frame was presented: the block is that of the
    /// frame, and the frame is counted.
    pub open spec fn present(self, resolution: Vec2, time: u32) -> AppState<F> {
        AppState {
            source: self.source,
            pipeline: self.pipeline,
            error: self.error,
            notifier: self.notifier,
            target_format: self.target_format,
            clock: self.clock.advance(),
            uniform: self.frame_uniform(resolution, time),
        }
    }

    /// The draw of a frame: the full-screen draw where a pipeline is
    /// installed, none where it is not.
    pub open spec fn draw(self) -> Option<DrawCall> {
        if self.pipeline.is_some() {
            Some(full_screen_draw())
        } else {
            None
        }
    }
}

/// The coordinator. `F` is the host's type for the format of the surface.
pub struct App<F> {
    source: ShaderSource,
    pipeline: Option<Pipeline<F>>,
    error: Option<CompileError>,
    notifier: Option<ChangeNotifier>,
    target_format: F,
    clock: FrameClock,
    callback: RenderCallback,
}

impl<F> View for App<F> {
    type V = AppState<F>;

    closed spec fn view(&self) -> AppState<F> {
        AppState {
            source: self.source@,
            pipeline: match self.pipeline {
                Some(pipeline) => Some(pipeline@),
                None => None,
            },
            error: match self.error {
                Some(error) => Some(error@),
                None => None,
            },
            notifier: match self.notifier {
                Some(notifier) => Some(notifier@),
                None => None,
            },
            target_format: self.target_format,
            clock: self.clock@,
            uniform: self.callback.uniform,
        }
    }
}

impl<F: Copy> App<F> {
    /// The coordinator at start. It holds the embedded default text and is
    /// dirty, so that the first frame compiles. `file_watching` says whether
    /// the platform can watch files.
    pub fn new(shader_content: String, target_format: F, now: u64, file_watching: bool) -> (app:
        App<F>)
        ensures
            app@ == AppState::initial(shader_content@, target_format, now, file_watching),
            app@.clock.wf(),
    {
        App {
            source: ShaderSource::new(shader_content, Origin::Embedded),
            pipeline: None,
            error: None,
            notifier: if file_watching {
                Some(ChangeNotifier::new())
            } else {
                None
            },
            target_format,
            clock: FrameClock::new(now),
            callback: RenderCallback::default(),
        }
    }

    /// Takes the notifications drained this frame. A change of content of a
    /// stage file makes an attempt due. The result says whether the user's
    /// file changed and is to be read again. Events of the user's file count
    /// for nothing where they come from another channel than that of the
    /// current watch, or while the watch is not followed. Without file
    /// watching no event counts.
    pub fn drain_events(&mut self, events: &Vec<WatchEvent>) -> (reread: bool)
        ensures
            final(self)@ == old(self)@.drain(events@),
            reread == old(self)@.reread_due(events@),
    {
        match &self.notifier {
            None => false,
            Some(notifier) => {
                let changes = notifier.coalesce(events);
                if changes.stages {
                    self.source.mark_dirty();
                }
                changes.external
            },
        }
    }

    /// Takes what reading the user's file again gave. With the text, the
    /// shader text is replaced and an attempt is due. With an error, or
    /// where no file is watched, nothing changes and the error is returned.
    pub fn read_external_glsl_file(&mut self, read: Result<String, FileReadError>) -> (result:
        Result<(), FileReadError>)
        ensures
            old(self)@.external_path().is_none() ==> {
                &&& result == Err::<(), FileReadError>(FileReadError::PathNotSet)
                &&& final(self)@ == old(self)@
            },
            old(self)@.external_path().is_some() ==> match read {
                Ok(text) => {
                    &&& result.is_ok()
                    &&& final(self)@ == old(self)@.with_text(text@)
                },
                Err(error) => {
                    &&& result == Err::<(), FileReadError>(error)
                    &&& final(self)@ == old(self)@
                },
            },
    {
        if self.external_glsl_file_path().is_none() {
            return Err(FileReadError::PathNotSet);
        }
        match read {
            Ok(text) => {
                self.source.set_text(text);
                Ok(())
            },
            Err(error) => Err(error),
        }
    }

    /// Takes the outcome of the host's attempt to watch a file of the
    /// user's choice. Where it succeeded, the file replaces the watched one:
    /// its text becomes the shader text, an attempt is due, monitoring is
    /// on, and the result is the channel number under which the host is to
    /// hand over the new watch's events. The old watch's channel is not
    /// listened to any more. Where it failed, or where the platform has no
    /// file watching, nothing changes and the error is returned.
    pub fn set_external_glsl_file_watcher(
        &mut self,
        setup: Result<ExternalFile, WatchSetupError>,
    ) -> (result: Result<u64, WatchSetupError>)
        ensures
            match setup {
                Err(error) => {
                    &&& result == Err::<u64, WatchSetupError>(error)
                    &&& final(self)@ == old(self)@
                },
                Ok(file) => if old(self)@.can_watch() {
                    &&& result == Ok::<u64, WatchSetupError>(
                        old(self)@.notifier.unwrap().next_channel(),
                    )
                    &&& final(self)@ == old(self)@.watch(file.path@, file.text@)
                } else {
                    &&& result == Err::<u64, WatchSetupError>(WatchSetupError::Unavailable)
                    &&& final(self)@ == old(self)@
                },
            },
    {
        let file = match setup {
            Ok(file) => file,
            Err(error) => {
                return Err(error);
            },
        };
        let ExternalFile { path, text } = file;
        match &mut self.notifier {
            None => Err(WatchSetupError::Unavailable),
            Some(notifier) => {
                let watched = path.clone();
                let channel = notifier.replace_external(watched);
                self.source.load_file(path, text);
                Ok(channel)
            },
        }
    }

    /// Turns following the watch on the user's file on or off. Without
    /// file watching there is nothing to turn.
    pub fn set_monitoring(&mut self, monitoring: bool)
        ensures
            final(self)@ == old(self)@.with_notifier(
                match old(self)@.notifier {
                    Some(notifier) => Some(
                        NotifierState { external: notifier.external, monitoring },
                    ),
                    None => None,
                },
            ),
    {
        match &mut self.notifier {
            Some(notifier) => {
                notifier.set_monitoring(monitoring);
            },
            None => {},
        }
    }

    /// Takes the editor's text after the user changed it.
    pub fn edit_shader(&mut self, text: String)
        ensures
            final(self)@ == old(self)@.with_text(text@),
    {
        self.source.set_text(text);
    }

    /// The text to compile for the fragment stage, where an attempt is due.
    pub fn compile_request(&self) -> (request: Option<&String>)
        ensures
            request.is_some() == self@.attempt_due(),
            request matches Some(text) ==> text@ == self@.source.text,
    {
        if self.source.is_dirty() {
            Some(self.source.text())
        } else {
            None
        }
    }

    /// Takes the outputs of the two compilations of one attempt. Where no
    /// attempt was due, nothing happens. Otherwise the state is clean
    /// afterwards, whatever the outcome: a failed attempt is not repeated
    /// until something changes. Where both stages compiled, the pipeline
    /// made of them replaces the installed one in one assignment. Where one
    /// failed, the installed pipeline stays and the error is kept.
    pub fn reload(&mut self, vertex: Result<Vec<u32>, String>, fragment: Result<Vec<u32>, String>)
        -> (outcome: ReloadOutcome)
        ensures
            final(self)@ == old(self)@.reload(
                attempt_outcome(stage_output(vertex), stage_output(fragment)),
            ),
            outcome == old(self)@.reload_outcome(
                attempt_outcome(stage_output(vertex), stage_output(fragment)),
            ),
    {
        if !self.source.is_dirty() {
            return ReloadOutcome::Idle;
        }
        self.source.mark_clean();
        match join_stages(vertex, fragment) {
            Ok(stages) => {
                self.pipeline = Some(create_pipeline(stages, self.target_format));
                self.error = None;
                ReloadOutcome::Installed
            },
            Err(error) => {
                let stage = error.stage;
                self.error = Some(error);
                ReloadOutcome::Failed(stage)
            },
        }
    }

    /// Starts the frame count over and counts time from `now`.
    pub fn reset(&mut self, now: u64)
        ensures
            final(self)@ == old(self)@.reset(now),
            final(self)@.clock.wf(),
    {
        self.clock.reset(now);
        self.callback.uniform.frame = 0;
    }

    /// Ticks from the last reset to `now`.
    pub fn elapsed(&self, now: u64) -> (ticks: u64)
        ensures
            ticks == self@.clock.elapsed(now),
    {
        self.clock.elapsed(now)
    }

    /// Presents a frame: fills the uniform block with the viewport size in
    /// physical pixels, the time in seconds and the frame count, hands out
    /// the frame's unit of work, and counts the frame.
    pub fn present(&mut self, resolution: Vec2, time: u32) -> (callback: RenderCallback)
        ensures
            final(self)@ == old(self)@.present(resolution, time),
            callback.uniform == old(self)@.frame_uniform(resolution, time),
            final(self)@.clock.wf(),
    {
        self.callback.uniform.resolution = resolution;
        self.callback.uniform.time = time;
        self.callback.uniform.frame = self.clock.frame_bits();
        let callback = self.callback;
        self.clock.advance();
        callback
    }

    /// Whether a compilation attempt is due.
    pub fn state(&self) -> (state: ReloadState)
        ensures
            state == self@.reload_state(),
    {
        if self.source.is_dirty() {
            ReloadState::Dirty
        } else {
            ReloadState::Clean
        }
    }

    /// The shader text, for display.
    pub fn shader_content(&self) -> (text: &String)
        ensures
            text@ == self@.source.text,
    {
        self.source.text()
    }

    /// The shader source with its provenance.
    pub fn source(&self) -> (source: &ShaderSource)
        ensures
            source@ == self@.source,
    {
        &self.source
    }

    /// The installed pipeline, where there is one.
    pub fn pipeline(&self) -> (pipeline: Option<&Pipeline<F>>)
        ensures
            match pipeline {
                Some(p) => self@.pipeline == Some(p@),
                None => self@.pipeline.is_none(),
            },
    {
        self.pipeline.as_ref()
    }

    /// The error of the last attempt, where it failed.
    pub fn last_error(&self) -> (error: Option<&CompileError>)
        ensures
            match error {
                Some(e) => self@.error == Some(e@),
                None => self@.error.is_none(),
            },
    {
        self.error.as_ref()
    }

    /// Path of the user's file, where one is watched.
    pub fn external_glsl_file_path(&self) -> (path: Option<&String>)
        ensures
            match path {
                Some(p) => self@.external_path() == Some(p@),
                None => self@.external_path().is_none(),
            },
    {
        match &self.notifier {
            Some(notifier) => match notifier.external() {
                Some(handle) => Some(handle.path()),
                None => None,
            },
            None => None,
        }
    }

    /// The watch channel the host is to drain for the user's file this
    /// frame: that of the current watch while it is followed.
    pub fn polled_channel(&self) -> (channel: Option<u64>)
        ensures
            channel == self@.polled_channel(),
    {
        match &self.notifier {
            Some(notifier) => notifier.polled_channel(),
            None => None,
        }
    }

    /// Whether the user's file is watched and the watch is followed.
    pub fn is_monitoring(&self) -> (monitoring: bool)
        ensures
            monitoring == self@.monitoring(),
    {
        self.polled_channel().is_some()
    }

    /// The uniform block as last presented.
    pub fn uniform(&self) -> (uniform: UniformState)
        ensures
            uniform == self@.uniform,
    {
        self.callback.uniform
    }

    /// Frames presented since the last reset.
    pub fn frame(&self) -> (count: u32)
        ensures
            count == self@.clock.frame,
            self@.clock.wf(),
    {
        self.clock.frame()
    }

    /// The draw of this frame's render pass.
    pub fn paint(&self) -> (draw: Option<DrawCall>)
        ensures
            draw == self@.draw(),
    {
        self.callback.paint(self.pipeline.is_some())
    }
}

/// Compiling and building the same pair of stages twice gives a pipeline
/// to draw with both times, and the same one: after the second attempt,
/// which an edit that leaves the text as it is makes due, the state and the
/// frame's draw are what they were after the first. The pipeline depends on
/// the compiled stages and the target format alone, not on what was
/// installed before.
pub proof fn lemma_reload_idempotent<F>(state: AppState<F>, stages: CompiledStagesView)
    requires
        state.attempt_due(),
    ensures
        ({
            let once = state.reload(Ok(stages));
            let twice = once.with_text(once.source.text).reload(Ok(stages));
            &&& once.pipeline == Some(pipeline_for(stages, state.target_format))
            &&& once.draw() == Some(full_screen_draw())
            &&& twice == once
            &&& twice.draw() == once.draw()
        }),
{
}

/// A failed attempt changes nothing but the dirty flag and the recorded
/// error: whichever stage fails, the installed pipeline is the one that was
/// installed before, and the state is clean.
pub proof fn lemma_failure_isolation<F>(
    state: AppState<F>,
    vertex: Result<Seq<u32>, Seq<char>>,
    fragment: Result<Seq<u32>, Seq<char>>,
)
    requires
        state.attempt_due(),
        vertex.is_err() || fragment.is_err(),
    ensures
        ({
            let after = state.reload(attempt_outcome(vertex, fragment));
            &&& after.pipeline == state.pipeline
            &&& after.draw() == state.draw()
            &&& after.reload_state() == ReloadState::Clean
            &&& after.source.text == state.source.text
            &&& after.error.is_some()
            &&& vertex.is_ok() ==> after.error.unwrap().stage == Stage::Fragment
            &&& state.reload_outcome(attempt_outcome(vertex, fragment)) is Failed
        }),
{
}

/// Every attempt leaves the state clean, and a second attempt in the same
/// frame does nothing.
pub proof fn lemma_one_attempt_cleans<F>(
    state: AppState<F>,
    first: Result<CompiledStagesView, CompileErrorView>,
    second: Result<CompiledStagesView, CompileErrorView>,
)
    ensures
        state.reload(first).reload_state() == ReloadState::Clean,
        state.reload(first).reload(second) == state.reload(first),
        state.reload(first).reload_outcome(second) == ReloadOutcome::Idle,
{
}

/// Changes of a stage file coalesce: a batch with a change of content at
/// position `at`, and any number of further events, leaves the state that a
/// batch of that one event leaves. In it one attempt is due, and that
/// attempt, whatever its outcome, leaves none due.
pub proof fn lemma_stage_events_coalesce<F>(
    state: AppState<F>,
    events: Seq<WatchEvent>,
    at: int,
    outcome: Result<CompiledStagesView, CompileErrorView>,
)
    requires
        state.notifier.is_some(),
        0 <= at < events.len(),
        stage_trigger(events[at]),
    ensures
        state.drain(events) == state.drain(seq![events[at]]),
        state.drain(events).attempt_due(),
        !state.drain(events).reload(outcome).attempt_due(),
{
    let one = seq![events[at]];
    assert(stage_trigger(one[0]));
}

/// Changes of the user's file coalesce: a batch with a change of content
/// at position `at`, and any number of further events, asks for one read of
/// the file, as a batch of that one event does. With the text read, one
/// attempt is due, and that attempt leaves none due.
pub proof fn lemma_external_events_coalesce<F>(
    state: AppState<F>,
    events: Seq<WatchEvent>,
    at: int,
    text: Seq<char>,
    outcome: Result<CompiledStagesView, CompileErrorView>,
)
    requires
        state.notifier.is_some(),
        0 <= at < events.len(),
        state.notifier.unwrap().external_trigger(events[at]),
    ensures
        state.reread_due(events),
        state.reread_due(events) == state.reread_due(seq![events[at]]),
        state.drain(events).with_text(text).attempt_due(),
        !state.drain(events).with_text(text).reload(outcome).attempt_due(),
{
    let one = seq![events[at]];
    assert(state.notifier.unwrap().external_trigger(one[0]));
}

/// A batch without a change of content, of a stage file or of the user's
/// file, leaves the state as it is and asks for no read.
pub proof fn lemma_other_events_ignored<F>(state: AppState<F>, events: Seq<WatchEvent>)
    requires
        forall|i: int|
            0 <= i < events.len() ==> !stage_trigger(#[trigger] events[i]) && !(state.notifier
                matches Some(notifier) && notifier.external_trigger(events[i])),
    ensures
        state.drain(events) == state,
        !state.reread_due(events),
{
}

/// After the watched file was replaced, the old watch is not listened to:
/// an event from its channel, whatever it reports, asks for no read and
/// changes nothing. A change of content from the new watch's channel asks
/// for a read, and with the text read an attempt is due.
pub proof fn lemma_watch_replacement<F>(
    state: AppState<F>,
    path: Seq<char>,
    text: Seq<char>,
    event: WatchEvent,
)
    requires
        state.can_watch(),
        state.notifier.unwrap().external.is_some(),
    ensures
        ({
            let old_channel = state.notifier.unwrap().external.unwrap().channel;
            let after = state.watch(path, text);
            let new_channel = after.notifier.unwrap().external.unwrap().channel;
            &&& new_channel != old_channel
            &&& after.polled_channel() == Some(new_channel)
            &&& after.external_path() == Some(path)
            &&& event.target == WatchTarget::External(old_channel) ==> {
                &&& !after.reread_due(seq![event])
                &&& after.drain(seq![event]) == after
            }
            &&& event.target == WatchTarget::External(new_channel) && content_changed(event.kind)
                ==> {
                &&& after.reread_due(seq![event])
                &&& after.drain(seq![event]).with_text(text).attempt_due()
            }
        }),
{
    let after = state.watch(path, text);
    let one = seq![event];
    let old_channel = state.notifier.unwrap().external.unwrap().channel;
    let new_channel = after.notifier.unwrap().external.unwrap().channel;
    assert(one[0] == event);
    if event.target == WatchTarget::External(old_channel) {
        assert forall|i: int| 0 <= i < one.len() implies !stage_trigger(#[trigger] one[i]) by {}
        assert(!stage_changed(one));
    }
    if event.target == WatchTarget::External(new_channel) && content_changed(event.kind) {
        assert(after.notifier.unwrap().external_trigger(one[0]));
    }
}

/// The bytes handed to the GPU do not depend on which pipeline is
/// installed: a frame's block has the same bytes, and the same number of
/// them, before and after any compilation attempt.
pub proof fn lemma_layout_survives_rebuild<F>(
    state: AppState<F>,
    outcome: Result<CompiledStagesView, CompileErrorView>,
    resolution: Vec2,
    time: u32,
)
    ensures
        state.reload(outcome).uniform == state.uniform,
        state.reload(outcome).clock == state.clock,
        state.reload(outcome).frame_uniform(resolution, time).layout() == state.frame_uniform(
            resolution,
            time,
        ).layout(),
        state.frame_uniform(resolution, time).layout().len() == UNIFORM_SIZE,
{
    lemma_layout_size(state.frame_uniform(resolution, time));
}

/// A reset puts the frame count to zero and the time origin to the instant
/// of the reset: a frame presented `later` ticks after it is handed the
/// count zero, and the time that has passed since is `later`.
pub proof fn lemma_reset_restarts<F>(state: AppState<F>, now: u64, later: u64, resolution: Vec2, time: u32)
    requires
        now + later <= u64::MAX,
    ensures
        state.reset(now).clock.frame == 0,
        state.reset(now).uniform.frame == 0,
        state.reset(now).clock.elapsed((now + later) as u64) == later,
        state.reset(now).frame_uniform(resolution, time).frame == 0,
        state.reset(now).source == state.source,
        state.reset(now).pipeline == state.pipeline,
{
}

/// The frame count never goes down but by a reset, and grows by one per
/// presented frame until it has reached the limit.
pub proof fn lemma_frame_count_grows<F>(state: AppState<F>, resolution: Vec2, time: u32)
    requires
        state.clock.wf(),
    ensures
        state.present(resolution, time).clock.wf(),
        state.present(resolution, time).clock.frame >= state.clock.frame,
        state.clock.frame < FRAME_LIMIT ==> state.present(resolution, time).clock.frame
            == state.clock.frame + 1,
        state.present(resolution, time).clock.origin == state.clock.origin,
{
}

} // verus!
