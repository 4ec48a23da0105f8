//! How sessions start, run and end, and what the shell makes of it.

use crate::ports::{
    EventModel, LaunchResult, ObservedSessionState, SessionEvent, SessionPoll, TerminalReceipt,
};
use crate::state::{NavModel, Presentation, Route, SessionStateModel, ShellCore, ShellModel};
use crate::text::{cat, Text};
use vstd::prelude::*;
use vstd::string::*;

verus! {

/// What is said while Safe Return cannot reach the session service.
pub open spec fn retry_words() -> Text {
    "The session service isn't reachable; Safe Return can retry"@
}

impl ShellModel {
    /// The state with another session.
    pub open spec fn with_session(self, session: SessionStateModel) -> ShellModel {
        ShellModel { session, ..self }
    }

    /// The state with another presentation.
    pub open spec fn presenting(self, presentation: Presentation) -> ShellModel {
        self.with_session(SessionStateModel { presentation, ..self.session })
    }

    /// The state after a launch was asked for: it starts where it was accepted.
    pub open spec fn answered(self, result: LaunchResult) -> ShellModel {
        self.presenting(
            if result == LaunchResult::Accepted {
                Presentation::Starting
            } else {
                Presentation::Ready
            },
        )
    }

    /// The state once the session that was launched is over: the focus is where
    /// it was before.
    pub open spec fn back_from(self, presentation: Presentation, returned: bool) -> ShellModel {
        ShellModel {
            nav: NavModel { focus: self.nav.launch_focus, ..self.nav },
            session: SessionStateModel {
                presentation,
                safe_return_failed: false,
                pending_ack: true,
                just_returned: self.session.just_returned || returned,
                ..self.session
            },
            ..self
        }
    }

    /// The state once the session that was launched has crashed.
    pub open spec fn crashed(self, session_id: Text, summary: Text) -> ShellModel {
        ShellModel {
            nav: NavModel { focus: 0, ..self.nav },
            session: SessionStateModel {
                presentation: Presentation::Crash,
                safe_return_failed: false,
                crash_summary: summary,
                crash_receipt_id: session_id,
                crash_exit_detail: summary,
                pending_ack: true,
                ..self.session
            },
            ..self
        }
    }

    /// The state after an event of a session.
    pub open spec fn after_event(self, event: EventModel) -> ShellModel {
        match event {
            EventModel::Observed(ObservedSessionState::Starting) => self.presenting(
                Presentation::Starting,
            ),
            EventModel::Observed(ObservedSessionState::Running) => self.presenting(
                Presentation::Running,
            ),
            EventModel::Observed(_) => self,
            EventModel::Returned => self.back_from(Presentation::Returned, true),
            EventModel::ForcedClose => self.back_from(Presentation::ForcedClose, false),
            EventModel::Crash { session_id, summary } => self.crashed(session_id, summary),
            EventModel::RecoveryRequired => self.with_session(
                SessionStateModel {
                    presentation: Presentation::RecoveryRequired,
                    pending_ack: false,
                    ..self.session
                },
            ),
        }
    }

    pub proof fn lemma_after_event_ok(self, event: EventModel)
        requires
            self.ok(),
        ensures
            self.after_event(event).ok(),
    {
        reveal(ShellModel::ok);
    }

    /// What is said about the session.
    pub open spec fn spoken_status(self) -> Option<Text> {
        if self.session.safe_return_failed {
            Some(retry_words())
        } else {
            self.session.session_status
        }
    }
}

/// Every end of a session is to be acknowledged, brings the shell back on the
/// screen and lifts the failure of a safe return.
pub proof fn law_every_end_is_to_be_acknowledged(shell: ShellModel, event: EventModel)
    requires
        event is Returned || event is ForcedClose || event is Crash,
    ensures
        shell.after_event(event).session.pending_ack,
        shell.after_event(event).session.presentation.has_frame(),
        !shell.after_event(event).session.safe_return_failed,
{
}

/// A session that returns or is closed leaves the user where they launched it.
pub proof fn law_launch_focus_is_restored(shell: ShellModel, event: EventModel)
    requires
        event is Returned || event is ForcedClose,
    ensures
        shell.after_event(event).nav == (NavModel { focus: shell.nav.launch_focus, ..shell.nav }),
{
}

/// Sessions touch nothing but what the shell presents and where the focus is.
pub proof fn law_sessions_keep_the_rest(shell: ShellModel, event: EventModel)
    ensures
        shell.after_event(event) == (ShellModel {
            nav: NavModel { focus: shell.after_event(event).nav.focus, ..shell.nav },
            session: shell.after_event(event).session,
            ..shell
        }),
{
}

impl ShellCore {
    /// Takes in that the session service answers.
    pub fn authority_snapshot(&mut self, recovery_available: bool)
        requires
            old(self).wf(),
        ensures
            final(self)@ == old(self)@.bumped().with_session(
                SessionStateModel {
                    recovery_available,
                    presentation: if old(self)@.session.presentation == Presentation::Booting {
                        Presentation::Ready
                    } else {
                        old(self)@.session.presentation
                    },
                    ..old(self)@.session
                },
            ),
            final(self)@.session.presentation != Presentation::Booting,
            final(self)@.session.recovery_available == recovery_available,
            final(self).wf(),
    {
        self.bump_revision();
        let ghost bumped = self@;
        self.session.recovery_available = recovery_available;
        if self.session.presentation == Presentation::Booting {
            self.session.presentation = Presentation::Ready;
        }
        proof {
            bumped.lemma_session_ok(self@.session);
        }
    }

    /// The route that is shown.
    #[must_use]
    pub fn route(&self) -> (route: Route)
        ensures
            route == self@.nav.route,
    {
        self.nav.route
    }

    /// What the shell presents.
    #[must_use]
    pub fn presentation(&self) -> (presentation: &Presentation)
        ensures
            *presentation == self@.session.presentation,
    {
        &self.session.presentation
    }

    /// Where the focus stands.
    #[must_use]
    pub fn focus(&self) -> (focus: usize)
        ensures
            focus == self@.nav.focus,
    {
        self.nav.focus
    }

    /// The number of changes so far.
    #[must_use]
    pub fn revision(&self) -> (revision: u64)
        ensures
            revision == self@.revision,
    {
        self.revision
    }

    /// Whether a session could be recovered.
    #[must_use]
    pub fn recovery_available(&self) -> (available: bool)
        ensures
            available == self@.session.recovery_available,
    {
        self.session.recovery_available
    }

    /// Whether the session service is out of reach.
    #[must_use]
    pub fn authority_unavailable(&self) -> (unavailable: bool)
        ensures
            unavailable == (self@.session.authority_unavailable
                || self@.session.safe_return_failed),
    {
        self.session.authority_unavailable || self.session.safe_return_failed
    }

    /// What is said about the session.
    #[must_use]
    pub fn session_status(&self) -> (status: Option<&str>)
        ensures
            match status {
                Some(status) => self@.spoken_status() == Some(status@),
                None => self@.spoken_status() is None,
            },
    {
        if self.session.safe_return_failed {
            Some("The session service isn't reachable; Safe Return can retry")
        } else {
            match &self.session.session_status {
                Some(status) => Some(status.as_str()),
                None => None,
            }
        }
    }

    /// Whether a session starts or runs.
    #[must_use]
    pub fn session_active(&self) -> (active: bool)
        ensures
            active == (self@.session.presentation == Presentation::Starting
                || self@.session.presentation == Presentation::Running),
    {
        match self.session.presentation {
            Presentation::Starting | Presentation::Running => true,
            _ => false,
        }
    }

    /// Takes in that there was no session service when the shell started.
    pub fn session_backend_unavailable_at_boot(&mut self)
        requires
            old(self).wf(),
        ensures
            final(self)@ == old(self)@.bumped().with_session(
                SessionStateModel {
                    authority_unavailable: true,
                    session_status: None,
                    presentation: Presentation::Ready,
                    ..old(self)@.session
                },
            ),
            final(self)@.session.authority_unavailable,
            final(self)@.session.session_status is None,
            final(self)@.session.presentation == Presentation::Ready,
            final(self).wf(),
    {
        self.bump_revision();
        let ghost bumped = self@;
        self.session.authority_unavailable = true;
        self.session.session_status = None;
        self.session.presentation = Presentation::Ready;
        proof {
            bumped.lemma_session_ok(self@.session);
        }
    }

    /// Takes in that the session service is gone.
    pub fn session_backend_unavailable(&mut self)
        requires
            old(self).wf(),
        ensures
            final(self)@ == old(self)@.bumped().with_session(
                SessionStateModel {
                    authority_unavailable: true,
                    session_status: Some("The session service isn't reachable"@),
                    presentation: Presentation::Ready,
                    ..old(self)@.session
                },
            ),
            final(self)@.session.authority_unavailable,
            final(self)@.session.session_status == Some("The session service isn't reachable"@),
            final(self)@.session.presentation == Presentation::Ready,
            final(self).wf(),
    {
        self.bump_revision();
        let ghost bumped = self@;
        self.session.authority_unavailable = true;
        self.session.session_status = Some("The session service isn't reachable".to_owned());
        self.session.presentation = Presentation::Ready;
        proof {
            bumped.lemma_session_ok(self@.session);
        }
    }

    /// Takes in that the session service is gone while a session lasts. What is
    /// presented stays.
    pub fn active_session_backend_unavailable(&mut self)
        requires
            old(self).wf(),
        ensures
            final(self)@ == old(self)@.bumped().with_session(
                SessionStateModel {
                    authority_unavailable: true,
                    session_status: Some(retry_words()),
                    ..old(self)@.session
                },
            ),
            final(self)@.session.authority_unavailable,
            final(self)@.session.session_status == Some(
                "The session service isn't reachable; Safe Return can retry"@,
            ),
            final(self)@.session.presentation == old(self)@.session.presentation,
            final(self).wf(),
    {
        self.bump_revision();
        let ghost bumped = self@;
        self.session.authority_unavailable = true;
        self.session.session_status = Some(
            "The session service isn't reachable; Safe Return can retry".to_owned(),
        );
        proof {
            bumped.lemma_session_ok(self@.session);
        }
    }

    /// Takes in that a safe return failed.
    pub fn safe_return_failed(&mut self)
        requires
            old(self).wf(),
        ensures
            final(self)@ == old(self)@.bumped().with_session(
                SessionStateModel { safe_return_failed: true, ..old(self)@.session },
            ),
            final(self)@.spoken_status() == Some(
                "The session service isn't reachable; Safe Return can retry"@,
            ),
            final(self).wf(),
    {
        self.bump_revision();
        let ghost bumped = self@;
        self.session.safe_return_failed = true;
        proof {
            bumped.lemma_session_ok(self@.session);
        }
    }

    /// Takes in that a safe return worked. Where none had failed, nothing changes.
    pub fn safe_return_succeeded(&mut self)
        requires
            old(self).wf(),
        ensures
            final(self)@ == (if old(self)@.session.safe_return_failed {
                old(self)@.bumped().with_session(
                    SessionStateModel { safe_return_failed: false, ..old(self)@.session },
                )
            } else {
                old(self)@
            }),
            final(self)@.spoken_status() == old(self)@.session.session_status,
            final(self).wf(),
    {
        if self.session.safe_return_failed {
            self.bump_revision();
        }
        let ghost bumped = self@;
        self.session.safe_return_failed = false;
        proof {
            bumped.lemma_session_ok(self@.session);
        }
    }

    /// Takes in that the session service is there again. Where nothing was said
    /// about it, nothing changes.
    pub fn session_backend_reachable(&mut self)
        requires
            old(self).wf(),
        ensures
            final(self)@ == (if old(self)@.session.authority_unavailable
                || old(self)@.session.session_status is Some {
                old(self)@.bumped().with_session(
                    SessionStateModel {
                        authority_unavailable: false,
                        session_status: None,
                        ..old(self)@.session
                    },
                )
            } else {
                old(self)@
            }),
            !final(self)@.session.authority_unavailable,
            final(self)@.session.session_status is None,
            final(self)@.session.presentation == old(self)@.session.presentation,
            final(self).wf(),
    {
        if self.session.authority_unavailable || self.session.session_status.is_some() {
            self.bump_revision();
        }
        let ghost bumped = self@;
        self.session.authority_unavailable = false;
        self.session.session_status = None;
        proof {
            bumped.lemma_session_ok(self@.session);
        }
    }

    /// Whether the end of a session is still to be acknowledged.
    #[must_use]
    pub fn needs_presentation_ack(&self) -> (needed: bool)
        ensures
            needed == self@.session.pending_ack,
    {
        self.session.pending_ack
    }

    /// Acknowledges the end of a session. Tells whether there was one to
    /// acknowledge; a second time there is none.
    pub fn acknowledge_presentation(&mut self) -> (acknowledged: bool)
        requires
            old(self).wf(),
        ensures
            acknowledged == old(self)@.session.pending_ack,
            final(self)@ == old(self)@.with_session(
                SessionStateModel { pending_ack: false, ..old(self)@.session },
            ),
            !final(self)@.session.pending_ack,
            final(self)@.session.presentation == old(self)@.session.presentation,
            final(self).wf(),
    {
        let pending = self.session.pending_ack;
        self.session.pending_ack = false;
        proof {
            old(self)@.lemma_session_ok(self@.session);
        }
        pending
    }

    /// Takes in what became of a launch.
    pub fn launch_result(&mut self, result: &LaunchResult)
        requires
            old(self).wf(),
        ensures
            final(self)@ == old(self)@.bumped().answered(*result),
            final(self).wf(),
    {
        self.bump_revision();
        let ghost bumped = self@;
        self.session.presentation = match result {
            LaunchResult::Accepted => Presentation::Starting,
            _ => Presentation::Ready,
        };
        proof {
            bumped.lemma_session_ok(self@.session);
        }
    }

    /// Takes in an event of a session.
    pub fn session_event(&mut self, event: &SessionEvent)
        requires
            old(self).wf(),
        ensures
            final(self)@ == old(self)@.bumped().after_event(event@),
            final(self).wf(),
    {
        self.bump_revision();
        let ghost bumped = self@;
        match event {
            SessionEvent::Observed(ObservedSessionState::Starting) => {
                self.session.presentation = Presentation::Starting;
            },
            SessionEvent::Observed(ObservedSessionState::Running) => {
                self.session.presentation = Presentation::Running;
            },
            SessionEvent::Observed(_) => {},
            SessionEvent::Terminal(receipt) => {
                self.session.safe_return_failed = false;
                self.session.pending_ack = true;
                match receipt {
                    TerminalReceipt::Returned { .. } => {
                        self.session.presentation = Presentation::Returned;
                        self.session.just_returned = true;
                        self.nav.focus = self.nav.launch_focus;
                    },
                    TerminalReceipt::ForcedClose { .. } => {
                        self.session.presentation = Presentation::ForcedClose;
                        self.nav.focus = self.nav.launch_focus;
                    },
                    TerminalReceipt::Crash { session_id, summary } => {
                        self.session.presentation = Presentation::Crash;
                        self.session.crash_summary = summary.as_str().to_owned();
                        self.session.crash_receipt_id = session_id.as_str().to_owned();
                        self.session.crash_exit_detail = summary.as_str().to_owned();
                        self.nav.focus = 0;
                    },
                }
            },
            SessionEvent::RecoveryRequired { .. } => {
                self.session.presentation = Presentation::RecoveryRequired;
                self.session.pending_ack = false;
            },
        }
        proof {
            bumped.lemma_after_event_ok(event@);
        }
    }

    /// Takes in what the session service answered when it was asked for an
    /// event. Tells whether it is to be asked again: after every event, but not
    /// once a session needs recovery.
    pub fn drive_session(&mut self, poll: Result<SessionPoll, String>) -> (again: Result<
        bool,
        String,
    >)
        requires
            old(self).wf(),
        ensures
            match poll {
                Ok(SessionPoll::Event(event)) => {
                    &&& final(self)@ == old(self)@.bumped().after_event(event@)
                    &&& again == Ok::<bool, String>(
                        final(self)@.session.presentation != Presentation::RecoveryRequired,
                    )
                },
                Ok(SessionPoll::Idle) => final(self)@ == old(self)@ && again == Ok::<
                    bool,
                    String,
                >(false),
                Err(failure) => final(self)@ == old(self)@ && again == Err::<bool, String>(failure),
            },
            final(self).wf(),
    {
        match poll {
            Ok(SessionPoll::Event(event)) => {
                self.session_event(&event);
                Ok(self.session.presentation != Presentation::RecoveryRequired)
            },
            Ok(SessionPoll::Idle) => Ok(false),
            Err(failure) => Err(failure),
        }
    }

    /// Takes in what became of a screenshot.
    pub fn screenshot_result(&mut self, result: Result<&str, ()>)
        requires
            old(self).wf(),
        ensures
            final(self)@ == old(self)@.bumped().with_session(
                SessionStateModel {
                    session_status: Some(
                        match result {
                            Ok(file_name) => "Screenshot saved · "@ + file_name@,
                            Err(_) => "Screenshot could not be saved"@,
                        },
                    ),
                    ..old(self)@.session
                },
            ),
            final(self).wf(),
    {
        self.bump_revision();
        let ghost bumped = self@;
        self.session.session_status = Some(
            match result {
                Ok(file_name) => cat("Screenshot saved · ", file_name),
                Err(_) => "Screenshot could not be saved".to_owned(),
            },
        );
        proof {
            bumped.lemma_session_ok(self@.session);
        }
    }
}

} // verus!
