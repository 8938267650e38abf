//! One step of the watch loop: what a single notification does to the state,
//! and what the driver of the loop is to do about it.
//!
//! The driver blocks on the event source, reads the clock and calls
//! [`Watch::step`]; it then reports, announces and launches what the
//! [`Outcome`] names, and goes back to waiting. A step that reports an error
//! does not end the loop.

use vstd::prelude::*;
use crate::command::{parse_command, tokens};
use crate::debounce::{TriggerModel, TriggerState};
use crate::event::{
    classify, normalized, NormalizedEvent, NormalizedModel, RawEvent, RawEventModel, SourceError,
    SourceErrorModel,
};
use crate::filter::{is_relevant, relevant};
use crate::text::{option_text, option_texts, texts};

verus! {

/// What to watch for, and what to do about it.
#[derive(Clone, Debug, PartialEq, Eq)]
pub struct WatchConfig {
    /// The extensions that make a path relevant. Without a list every event
    /// is relevant.
    pub extensions: Option<Vec<String>>,
    /// The command line to run when changes are detected, if any.
    pub command: Option<String>,
}

/// What the event source hands over: an event, or a failure with its
/// diagnostic.
#[derive(Clone, Debug, PartialEq, Eq)]
pub enum Notification {
    Event(RawEvent),
    Error(String),
}

/// What the driver is to do after a step. Every part may be absent.
#[derive(Clone, Debug, PartialEq, Eq)]
pub struct Outcome {
    /// An error to report. The notification was skipped.
    pub error: Option<SourceError>,
    /// The first relevant change, to be announced.
    pub detected: Option<NormalizedEvent>,
    /// The arguments with which to launch the command.
    pub run: Option<Vec<String>>,
}

/// The state of one watch: its configuration and its trigger.
pub struct Watch {
    config: WatchConfig,
    trigger: TriggerState,
}

/// A configuration as a mathematical value.
pub struct WatchConfigModel {
    pub extensions: Option<Seq<Seq<char>>>,
    pub command: Option<Seq<char>>,
}

/// A notification as a mathematical value.
pub enum NotificationModel {
    Event(RawEventModel),
    Error(Seq<char>),
}

/// An outcome as a mathematical value.
pub struct OutcomeModel {
    pub error: Option<SourceErrorModel>,
    pub detected: Option<NormalizedModel>,
    pub run: Option<Seq<Seq<char>>>,
}

/// A watch as a mathematical value.
pub struct WatchModel {
    pub config: WatchConfigModel,
    pub trigger: TriggerModel,
}

impl View for WatchConfig {
    type V = WatchConfigModel;

    open spec fn view(&self) -> WatchConfigModel {
        WatchConfigModel {
            extensions: option_texts(self.extensions),
            command: option_text(self.command),
        }
    }
}

impl View for Notification {
    type V = NotificationModel;

    open spec fn view(&self) -> NotificationModel {
        match *self {
            Notification::Event(event) => NotificationModel::Event(event@),
            Notification::Error(diagnostic) => NotificationModel::Error(diagnostic@),
        }
    }
}

impl View for Outcome {
    type V = OutcomeModel;

    open spec fn view(&self) -> OutcomeModel {
        OutcomeModel {
            error: match self.error {
                Some(error) => Some(error@),
                None => None,
            },
            detected: match self.detected {
                Some(event) => Some(event@),
                None => None,
            },
            run: option_texts(self.run),
        }
    }
}

impl View for Watch {
    type V = WatchModel;

    closed spec fn view(&self) -> WatchModel {
        WatchModel { config: self.config@, trigger: self.trigger@ }
    }
}

impl OutcomeModel {
    /// The outcome that asks for nothing.
    pub open spec fn nothing() -> OutcomeModel {
        OutcomeModel { error: None, detected: None, run: None }
    }

    /// The outcome that only reports `error`.
    pub open spec fn report(error: SourceErrorModel) -> OutcomeModel {
        OutcomeModel { error: Some(error), detected: None, run: None }
    }
}

impl WatchModel {
    /// A watch created at time `now`.
    pub open spec fn initial(config: WatchConfigModel, now: int) -> WatchModel {
        WatchModel { config, trigger: TriggerModel::initial(now) }
    }

    /// Whether the watch takes `notification` for a change: it is an event,
    /// it passes the filter, and it names at least one path.
    pub open spec fn qualifies(self, notification: NotificationModel) -> bool {
        &&& notification matches NotificationModel::Event(event)
        &&& relevant(event.paths, self.config.extensions)
        &&& event.paths.len() > 0
    }

    /// Whether a change at time `now` launches the command: one is
    /// configured, and the trigger, with the change recorded, is due.
    pub open spec fn launches(self, now: int) -> bool {
        self.config.command is Some && self.trigger.fires_on(true, now)
    }

    /// The watch after a change at time `now`. The latch is set in any case;
    /// the firing condition is evaluated only if a command is configured.
    pub open spec fn after_change(self, now: int) -> WatchModel {
        WatchModel {
            config: self.config,
            trigger: if self.config.command is Some {
                self.trigger.after_event(true, now)
            } else {
                self.trigger.after_change()
            },
        }
    }

    /// The watch after `notification` at time `now`. Only a change touches
    /// it: errors, filtered events and events without a path leave it as it
    /// was.
    pub open spec fn after(self, notification: NotificationModel, now: int) -> WatchModel {
        if self.qualifies(notification) {
            self.after_change(now)
        } else {
            self
        }
    }

    /// What the driver is to do about `notification` at time `now`.
    ///
    /// A failure of the source is reported. An event that the filter refuses
    /// is passed over in silence. A relevant event without a path is
    /// reported as an error. Any other event is a change: the first one is
    /// announced in its normalized form, and each one launches the command
    /// with its arguments if the trigger is due.
    pub open spec fn outcome(self, notification: NotificationModel, now: int) -> OutcomeModel {
        match notification {
            NotificationModel::Error(diagnostic) => OutcomeModel::report(
                SourceErrorModel::Backend(diagnostic),
            ),
            NotificationModel::Event(event) => if !relevant(event.paths, self.config.extensions) {
                OutcomeModel::nothing()
            } else {
                match normalized(event) {
                    Err(error) => OutcomeModel::report(error),
                    Ok(change) => OutcomeModel {
                        error: None,
                        detected: if self.trigger.pending {
                            None
                        } else {
                            Some(change)
                        },
                        run: if self.launches(now) {
                            Some(tokens(self.config.command->0))
                        } else {
                            None
                        },
                    },
                }
            },
        }
    }
}

impl Outcome {
    /// The outcome that asks for nothing.
    pub fn nothing() -> (outcome: Outcome)
        ensures
            outcome@ == OutcomeModel::nothing(),
    {
        Outcome { error: None, detected: None, run: None }
    }

    /// The outcome that only reports `error`.
    pub fn report(error: SourceError) -> (outcome: Outcome)
        ensures
            outcome@ == OutcomeModel::report(error@),
    {
        Outcome { error: Some(error), detected: None, run: None }
    }
}

impl Watch {
    /// A watch with the given configuration, created at time `now`.
    pub fn new(config: WatchConfig, now: u64) -> (watch: Watch)
        ensures
            watch@ == WatchModel::initial(config@, now as int),
    {
        Watch { config, trigger: TriggerState::new(now) }
    }

    /// The configuration of the watch.
    pub fn config(&self) -> (config: &WatchConfig)
        ensures
            config@ == self@.config,
    {
        &self.config
    }

    /// The trigger of the watch.
    pub fn trigger(&self) -> (trigger: &TriggerState)
        ensures
            trigger@ == self@.trigger,
    {
        &self.trigger
    }

    /// Handles one notification that arrived at time `now`, and says what
    /// the driver is to do about it.
    pub fn step(&mut self, notification: &Notification, now: u64) -> (outcome: Outcome)
        ensures
            final(self)@ == old(self)@.after(notification@, now as int),
            outcome@ == old(self)@.outcome(notification@, now as int),
    {
        match notification {
            Notification::Error(diagnostic) => Outcome::report(
                SourceError::Backend(diagnostic.clone()),
            ),
            Notification::Event(event) => {
                if !is_relevant(&event.paths, &self.config.extensions) {
                    return Outcome::nothing();
                }
                match classify(event) {
                    Err(error) => Outcome::report(error),
                    Ok(change) => {
                        let first = self.trigger.record_change();
                        let detected = if first {
                            Some(change)
                        } else {
                            None
                        };
                        let run = match &self.config.command {
                            Some(command) => {
                                if self.trigger.fire_if_due(now) {
                                    Some(parse_command(command.as_str()))
                                } else {
                                    None
                                }
                            },
                            None => None,
                        };
                        Outcome { error: None, detected, run }
                    },
                }
            },
        }
    }
}

/// A notification that is no change leaves the watch as it was, announces
/// nothing and launches nothing: the failure of the source, the event that
/// the filter refuses and the relevant event without a path. The first and
/// the last are reported, the second is not.
pub proof fn lemma_skipped_notification(watch: WatchModel, notification: NotificationModel, now: int)
    requires
        !watch.qualifies(notification),
    ensures
        watch.after(notification, now) == watch,
        watch.outcome(notification, now).detected is None,
        watch.outcome(notification, now).run is None,
        watch.outcome(notification, now).error is Some <==> {
            ||| notification is Error
            ||| notification matches NotificationModel::Event(event) && relevant(
                event.paths,
                watch.config.extensions,
            )
        },
{
}

/// A change is never reported as an error. It is announced if and only if
/// it is the first of the watch, and from then on the latch stays set.
pub proof fn lemma_change_is_announced_once(
    watch: WatchModel,
    notification: NotificationModel,
    now: int,
)
    requires
        watch.qualifies(notification),
    ensures
        watch.outcome(notification, now).error is None,
        watch.outcome(notification, now).detected is Some <==> !watch.trigger.pending,
        watch.outcome(notification, now).detected matches Some(change) ==> normalized(
            notification->Event_0,
        ) == Ok::<NormalizedModel, SourceErrorModel>(change),
        watch.after(notification, now).trigger.pending,
{
}

/// Once the latch is set no notification clears it.
pub proof fn lemma_latch_stays_set(watch: WatchModel, notification: NotificationModel, now: int)
    requires
        watch.trigger.pending,
    ensures
        watch.after(notification, now).trigger.pending,
        watch.outcome(notification, now).detected is None,
{
}

/// Without a command nothing is launched, and the time of the last firing
/// never moves.
pub proof fn lemma_no_command_no_launch(
    watch: WatchModel,
    notification: NotificationModel,
    now: int,
)
    requires
        watch.config.command is None,
    ensures
        watch.outcome(notification, now).run is None,
        watch.after(notification, now).trigger.last_fire == watch.trigger.last_fire,
{
}

/// With a command, a change launches it exactly when the trigger fires on a
/// relevant event, with the arguments of the command line, and the trigger
/// moves as it does on such an event.
pub proof fn lemma_launch_follows_trigger(
    watch: WatchModel,
    notification: NotificationModel,
    now: int,
)
    requires
        watch.config.command is Some,
        watch.qualifies(notification),
    ensures
        watch.outcome(notification, now).run is Some <==> watch.trigger.fires_on(true, now),
        watch.outcome(notification, now).run matches Some(args) ==> args == tokens(
            watch.config.command->0,
        ),
        watch.after(notification, now).trigger == watch.trigger.after_event(true, now),
{
}

} // verus!
