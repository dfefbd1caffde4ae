//! The shared state of the recorder: flags, the task counter, the session
//! of the current task and the tasks whose cancellation was asked for.
use vstd::prelude::*;

use crate::settings::app_settings::{is_default_settings, AppSettings};
use crate::text::append_str;

verus! {

/// The text gathered for one recording task.
#[derive(Debug)]
pub struct RecordingSession {
    pub task_id: u64,
    pub text: String,
}

/// The recorder's state.  `level_monitor_signals` holds, in order, the
/// switches sent to the audio level monitor (`true` to start watching the
/// input level, `false` to stop), for the caller to deliver.
#[derive(Debug)]
pub struct AppState {
    pub settings: AppSettings,
    pub is_recording: bool,
    pub is_transcribing: bool,
    pub task_counter: u64,
    pub recording_start_time: u64,
    pub session: Option<RecordingSession>,
    pub canceled_tasks: Vec<u64>,
    pub level_monitor_signals: Vec<bool>,
}

/// The task the session belongs to, if there is one.
pub open spec fn session_task(s: Option<RecordingSession>) -> Option<u64> {
    match s {
        Some(x) => Some(x.task_id),
        None => None,
    }
}

/// The text of the session of `task_id`, if that task has the session.
pub open spec fn session_text_of(s: Option<RecordingSession>, task_id: u64) -> Option<Seq<char>> {
    match s {
        Some(x) => if x.task_id == task_id {
            Some(x.text@)
        } else {
            None
        },
        None => None,
    }
}

impl AppState {
    /// Whether cancellation of the task was asked for.
    pub open spec fn canceled(&self, task_id: u64) -> bool {
        self.canceled_tasks@.contains(task_id)
    }

    /// An idle state with default settings.
    pub fn new() -> (s: Self)
        ensures
            is_default_settings(s.settings),
            !s.is_recording,
            !s.is_transcribing,
            s.task_counter == 0,
            s.recording_start_time == 0,
            s.session is None,
            s.canceled_tasks@.len() == 0,
            s.level_monitor_signals@.len() == 0,
    {
        AppState {
            settings: AppSettings::default(),
            is_recording: false,
            is_transcribing: false,
            task_counter: 0,
            recording_start_time: 0,
            session: None,
            canceled_tasks: Vec::new(),
            level_monitor_signals: Vec::new(),
        }
    }

    /// Opens an empty session for the task, replacing any other session.
    pub fn start_session(&mut self, task_id: u64)
        ensures
            session_task(final(self).session) == Some(task_id),
            session_text_of(final(self).session, task_id) == Some(Seq::<char>::empty()),
            *final(self) == (AppState { session: final(self).session, ..*old(self) }),
    {
        self.session = Some(RecordingSession { task_id, text: String::new() });
    }

    /// Closes the session of the task and hands back its text; a session of
    /// another task stays.
    pub fn finish_session(&mut self, task_id: u64) -> (r: Option<String>)
        ensures
            match r {
                Some(t) => session_text_of(old(self).session, task_id) == Some(t@),
                None => session_text_of(old(self).session, task_id) is None,
            },
            final(self).session == (if session_task(old(self).session) == Some(task_id) {
                None
            } else {
                old(self).session
            }),
            *final(self) == (AppState { session: final(self).session, ..*old(self) }),
    {
        let matches = match &self.session {
            Some(s) => s.task_id == task_id,
            None => false,
        };
        if matches {
            match self.session.take() {
                Some(s) => Some(s.text),
                None => None,
            }
        } else {
            None
        }
    }

    /// The text of the task's session, if the task has the session.
    pub fn get_session_text(&self, task_id: u64) -> (r: Option<String>)
        ensures
            match r {
                Some(t) => session_text_of(self.session, task_id) == Some(t@),
                None => session_text_of(self.session, task_id) is None,
            },
    {
        match &self.session {
            Some(s) => if s.task_id == task_id {
                Some(s.text.clone())
            } else {
                None
            },
            None => None,
        }
    }

    /// Appends text to the task's session, if the task has the session.
    pub fn append_session_text(&mut self, task_id: u64, text: &str)
        ensures
            session_task(final(self).session) == session_task(old(self).session),
            session_text_of(final(self).session, task_id) == (match session_text_of(old(self).session, task_id) {
                Some(t) => Some(t + text@),
                None => None,
            }),
            *final(self) == (AppState { session: final(self).session, ..*old(self) }),
    {
        match &mut self.session {
            Some(s) => {
                if s.task_id == task_id {
                    append_str(&mut s.text, text);
                }
            },
            None => {},
        }
    }

    /// Drops the session, whichever task it belongs to.
    pub fn clear_session(&mut self)
        ensures
            *final(self) == (AppState { session: None, ..*old(self) }),
    {
        self.session = None;
    }

    /// Records that cancellation of the task was asked for.
    pub fn request_cancellation(&mut self, task_id: u64)
        ensures
            final(self).canceled(task_id),
            forall|t: u64| t != task_id ==> (final(self).canceled(t) <==> old(self).canceled(t)),
            *final(self) == (AppState { canceled_tasks: final(self).canceled_tasks, ..*old(self) }),
    {
        broadcast use vstd::seq_lib::lemma_seq_contains_after_push;

        if !self.is_cancellation_requested(task_id) {
            self.canceled_tasks.push(task_id);
        }
    }

    /// Whether cancellation of the task was asked for.
    pub fn is_cancellation_requested(&self, task_id: u64) -> (b: bool)
        ensures
            b == self.canceled(task_id),
    {
        let mut i: usize = 0;
        while i < self.canceled_tasks.len()
            invariant
                i <= self.canceled_tasks@.len(),
                forall|j: int| 0 <= j < i ==> self.canceled_tasks@[j] != task_id,
            decreases self.canceled_tasks.len() - i,
        {
            if self.canceled_tasks[i] == task_id {
                return true;
            }
            i = i + 1;
        }
        false
    }

    /// Forgets that cancellation of the task was asked for; other tasks keep
    /// theirs.
    pub fn clear_cancellation(&mut self, task_id: u64)
        ensures
            !final(self).canceled(task_id),
            forall|t: u64| t != task_id ==> (final(self).canceled(t) <==> old(self).canceled(t)),
            *final(self) == (AppState { canceled_tasks: final(self).canceled_tasks, ..*old(self) }),
    {
        broadcast use vstd::seq_lib::lemma_seq_contains_after_push;

        let mut kept: Vec<u64> = Vec::new();
        let mut i: usize = 0;
        while i < self.canceled_tasks.len()
            invariant
                i <= self.canceled_tasks@.len(),
                forall|t: u64| #[trigger] kept@.contains(t) <==> (t != task_id && self.canceled_tasks@.subrange(0, i as int).contains(t)),
            decreases self.canceled_tasks.len() - i,
        {
            let t = self.canceled_tasks[i];
            let ghost prefix = self.canceled_tasks@.subrange(0, i as int);
            let ghost kept_before = kept@;
            proof {
                assert(self.canceled_tasks@.subrange(0, i + 1) == prefix.push(t));
            }
            if t != task_id {
                kept.push(t);
            }
            proof {
                assert forall|u: u64| #[trigger] kept@.contains(u) <==> (u != task_id && prefix.push(t).contains(u)) by {
                    vstd::seq_lib::lemma_seq_contains_after_push(prefix, t, u);
                    assert(kept_before.contains(u) <==> (u != task_id && prefix.contains(u)));
                    if t != task_id {
                        assert(kept@ == kept_before.push(t));
                        vstd::seq_lib::lemma_seq_contains_after_push(kept_before, t, u);
                    }
                }
            }
            i = i + 1;
        }
        proof {
            assert(self.canceled_tasks@.subrange(0, self.canceled_tasks@.len() as int) == self.canceled_tasks@);
        }
        self.canceled_tasks = kept;
    }

    /// Sends a switch to the audio level monitor.
    pub fn notify_level_monitor(&mut self, active: bool)
        ensures
            final(self).level_monitor_signals@ == old(self).level_monitor_signals@.push(active),
            *final(self) == (AppState { level_monitor_signals: final(self).level_monitor_signals, ..*old(self) }),
    {
        self.level_monitor_signals.push(active);
    }
}

} // verus!
