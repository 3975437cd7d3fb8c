//! Following the desktop's color scheme and contrast settings through the
//! settings portal.
//!
//! The portal is reached by whoever runs the subscription; this module
//! decides what to do next from what the portal answered: connect again
//! after a growing delay when the connection fails, read both settings,
//! then forward every change until both change streams end.

use vstd::prelude::*;
use vstd::arithmetic::power2::{pow2, lemma_pow2_unfold, lemma_pow2_strictly_increases, lemma2_to64, lemma2_to64_rest};

verus! {

/// The color scheme that the desktop prefers.
#[derive(Debug, Clone, Copy, PartialEq, Eq, Structural)]
pub enum ColorScheme {
    NoPreference,
    PreferDark,
    PreferLight,
}

/// The contrast that the desktop asks for.
#[derive(Debug, Clone, Copy, PartialEq, Eq, Structural)]
pub enum Contrast {
    NoPreference,
    High,
}

/// A desktop setting forwarded to the application; `A` is an accent color.
#[derive(Debug, Clone, Copy, PartialEq, Eq)]
pub enum Desktop<A> {
    Accent(A),
    ColorScheme(ColorScheme),
    Contrast(Contrast),
}

/// The portal operation that the subscription waits for.
#[derive(Debug, Clone, Copy, PartialEq, Eq, Structural)]
pub enum Phase {
    /// Connecting to the settings portal.
    Connecting,
    /// Reading the color scheme.
    ReadingColorScheme,
    /// Reading the contrast.
    ReadingContrast,
    /// Subscribing to color scheme changes.
    SubscribingColorScheme,
    /// Subscribing to contrast changes.
    SubscribingContrast,
    /// Waiting for the next change on the open streams.
    Watching,
}

/// The state of the settings subscription.
#[derive(Debug, Clone, Copy, PartialEq, Eq, Structural)]
pub struct PortalState {
    pub phase: Phase,
    /// How many connections failed since the last change was received.
    pub attempts: u32,
    /// Whether the stream of color scheme changes is open.
    pub color_scheme_stream: bool,
    /// Whether the stream of contrast changes is open.
    pub contrast_stream: bool,
}

/// What the portal answered.
#[derive(Debug, Clone, Copy, PartialEq, Eq, Structural)]
pub enum PortalEvent {
    /// The connection to the portal failed.
    ConnectFailed,
    /// The connection to the portal was made.
    Connected,
    /// The color scheme was read, or could not be (`None`).
    ColorSchemeRead(Option<ColorScheme>),
    /// The contrast was read, or could not be (`None`).
    ContrastRead(Option<Contrast>),
    /// Whether the color scheme change stream could be opened.
    ColorSchemeSubscribed(bool),
    /// Whether the contrast change stream could be opened.
    ContrastSubscribed(bool),
    /// A color scheme change arrived, or the stream ended (`None`).
    ColorSchemeChanged(Option<ColorScheme>),
    /// A contrast change arrived, or the stream ended (`None`).
    ContrastChanged(Option<Contrast>),
}

/// The next portal operation to perform.
#[derive(Debug, Clone, Copy, PartialEq, Eq, Structural)]
pub enum PortalAction {
    /// Connect to the portal.
    Connect,
    /// Wait this many seconds, then connect to the portal.
    RetryAfter(u64),
    ReadColorScheme,
    ReadContrast,
    SubscribeColorScheme,
    SubscribeContrast,
    /// Wait for the next change on the streams that are open.
    AwaitChange { color_scheme: bool, contrast: bool },
}

/// What a step decides: the setting to send to the application, if any,
/// and the next operation.
#[derive(Debug, Clone, Copy, PartialEq, Eq)]
pub struct PortalStep<A> {
    pub send: Option<Desktop<A>>,
    pub action: PortalAction,
}

/// The state before the first connection.
pub fn initial_state() -> (r: (PortalState, PortalAction))
    ensures
        r.0 == (PortalState { phase: Phase::Connecting, attempts: 0, color_scheme_stream: false, contrast_stream: false }),
        r.1 == PortalAction::Connect,
{
    (PortalState { phase: Phase::Connecting, attempts: 0, color_scheme_stream: false, contrast_stream: false }, PortalAction::Connect)
}

/// The number of seconds to wait after the given number of failed
/// connections: two to that power.
pub fn retry_delay_secs(attempts: u32) -> (r: u64)
    requires
        attempts < 64,
    ensures
        r == pow2(attempts as nat),
{
    let mut v: u64 = 1;
    let mut i: u32 = 0;
    proof {
        lemma2_to64();
    }
    while i < attempts
        invariant
            i <= attempts < 64,
            v == pow2(i as nat),
        decreases attempts - i,
    {
        proof {
            lemma_pow2_unfold((i + 1) as nat);
            lemma_pow2_strictly_increases((i + 1) as nat, 64);
            lemma2_to64_rest();
        }
        v = v * 2;
        i = i + 1;
    }
    v
}

/// The operation that a phase waits for.
pub open spec fn phase_action(s: PortalState) -> PortalAction {
    match s.phase {
        Phase::Connecting => PortalAction::Connect,
        Phase::ReadingColorScheme => PortalAction::ReadColorScheme,
        Phase::ReadingContrast => PortalAction::ReadContrast,
        Phase::SubscribingColorScheme => PortalAction::SubscribeColorScheme,
        Phase::SubscribingContrast => PortalAction::SubscribeContrast,
        Phase::Watching => PortalAction::AwaitChange { color_scheme: s.color_scheme_stream, contrast: s.contrast_stream },
    }
}

/// After the streams were opened or one changed: connect anew when both
/// have ended, else wait for the next change.
pub open spec fn watch_or_reconnect(s: PortalState) -> (PortalState, PortalAction) {
    if !s.color_scheme_stream && !s.contrast_stream {
        (PortalState { phase: Phase::Connecting, ..s }, PortalAction::Connect)
    } else {
        (PortalState { phase: Phase::Watching, ..s }, PortalAction::AwaitChange { color_scheme: s.color_scheme_stream, contrast: s.contrast_stream })
    }
}

/// Whether a step on `event` may be taken from `s`: a failed connection is
/// retried after two to the power of the failures so far seconds, which
/// must fit in 64 bits.
pub open spec fn step_allowed(s: PortalState, event: PortalEvent) -> bool {
    (s.phase == Phase::Connecting && event == PortalEvent::ConnectFailed) ==> s.attempts < 64
}

/// The state, the setting to send, and the next operation after `event`
/// in state `s`. An event that the phase does not wait for changes nothing
/// and the phase's operation is asked for again.
pub open spec fn spec_step<A>(s: PortalState, event: PortalEvent) -> (PortalState, Option<Desktop<A>>, PortalAction) {
    match (s.phase, event) {
        (Phase::Connecting, PortalEvent::ConnectFailed) =>
            (PortalState { attempts: (s.attempts + 1) as u32, ..s }, None, PortalAction::RetryAfter(pow2(s.attempts as nat) as u64)),
        (Phase::Connecting, PortalEvent::Connected) =>
            (PortalState { phase: Phase::ReadingColorScheme, ..s }, None, PortalAction::ReadColorScheme),
        (Phase::ReadingColorScheme, PortalEvent::ColorSchemeRead(r)) =>
            (PortalState { phase: Phase::ReadingContrast, ..s },
             match r { Some(c) => Some(Desktop::ColorScheme(c)), None => None },
             PortalAction::ReadContrast),
        (Phase::ReadingContrast, PortalEvent::ContrastRead(r)) =>
            (PortalState { phase: Phase::SubscribingColorScheme, ..s },
             match r { Some(c) => Some(Desktop::Contrast(c)), None => None },
             PortalAction::SubscribeColorScheme),
        (Phase::SubscribingColorScheme, PortalEvent::ColorSchemeSubscribed(open)) =>
            (PortalState { phase: Phase::SubscribingContrast, color_scheme_stream: open, ..s }, None, PortalAction::SubscribeContrast),
        (Phase::SubscribingContrast, PortalEvent::ContrastSubscribed(open)) => {
            let w = watch_or_reconnect(PortalState { contrast_stream: open, ..s });
            (w.0, None, w.1)
        },
        (Phase::Watching, PortalEvent::ColorSchemeChanged(r)) => {
            let t = match r {
                Some(_) => PortalState { attempts: 0, ..s },
                None => PortalState { attempts: 0, color_scheme_stream: false, ..s },
            };
            let w = watch_or_reconnect(t);
            (w.0, match r { Some(c) => Some(Desktop::ColorScheme(c)), None => None }, w.1)
        },
        (Phase::Watching, PortalEvent::ContrastChanged(r)) => {
            let t = match r {
                Some(_) => PortalState { attempts: 0, ..s },
                None => PortalState { attempts: 0, contrast_stream: false, ..s },
            };
            let w = watch_or_reconnect(t);
            (w.0, match r { Some(c) => Some(Desktop::Contrast(c)), None => None }, w.1)
        },
        _ => (s, None, phase_action(s)),
    }
}

impl PortalState {
    /// Takes one step on what the portal answered: updates the state and
    /// returns the setting to send, if any, and the next operation.
    pub fn step<A>(&mut self, event: PortalEvent) -> (r: PortalStep<A>)
        requires
            step_allowed(*old(self), event),
        ensures
            *final(self) == spec_step::<A>(*old(self), event).0,
            r.send == spec_step::<A>(*old(self), event).1,
            r.action == spec_step::<A>(*old(self), event).2,
    {
        match (self.phase, event) {
            (Phase::Connecting, PortalEvent::ConnectFailed) => {
                let secs = retry_delay_secs(self.attempts);
                self.attempts = self.attempts + 1;
                PortalStep { send: None, action: PortalAction::RetryAfter(secs) }
            },
            (Phase::Connecting, PortalEvent::Connected) => {
                self.phase = Phase::ReadingColorScheme;
                PortalStep { send: None, action: PortalAction::ReadColorScheme }
            },
            (Phase::ReadingColorScheme, PortalEvent::ColorSchemeRead(r)) => {
                self.phase = Phase::ReadingContrast;
                let send = match r {
                    Some(c) => Some(Desktop::ColorScheme(c)),
                    None => None,
                };
                PortalStep { send, action: PortalAction::ReadContrast }
            },
            (Phase::ReadingContrast, PortalEvent::ContrastRead(r)) => {
                self.phase = Phase::SubscribingColorScheme;
                let send = match r {
                    Some(c) => Some(Desktop::Contrast(c)),
                    None => None,
                };
                PortalStep { send, action: PortalAction::SubscribeColorScheme }
            },
            (Phase::SubscribingColorScheme, PortalEvent::ColorSchemeSubscribed(open)) => {
                self.phase = Phase::SubscribingContrast;
                self.color_scheme_stream = open;
                PortalStep { send: None, action: PortalAction::SubscribeContrast }
            },
            (Phase::SubscribingContrast, PortalEvent::ContrastSubscribed(open)) => {
                self.contrast_stream = open;
                let action = self.watch_or_reconnect();
                PortalStep { send: None, action }
            },
            (Phase::Watching, PortalEvent::ColorSchemeChanged(r)) => {
                self.attempts = 0;
                let send = match r {
                    Some(c) => Some(Desktop::ColorScheme(c)),
                    None => {
                        self.color_scheme_stream = false;
                        None
                    },
                };
                let action = self.watch_or_reconnect();
                PortalStep { send, action }
            },
            (Phase::Watching, PortalEvent::ContrastChanged(r)) => {
                self.attempts = 0;
                let send = match r {
                    Some(c) => Some(Desktop::Contrast(c)),
                    None => {
                        self.contrast_stream = false;
                        None
                    },
                };
                let action = self.watch_or_reconnect();
                PortalStep { send, action }
            },
            _ => {
                let action = match self.phase {
                    Phase::Connecting => PortalAction::Connect,
                    Phase::ReadingColorScheme => PortalAction::ReadColorScheme,
                    Phase::ReadingContrast => PortalAction::ReadContrast,
                    Phase::SubscribingColorScheme => PortalAction::SubscribeColorScheme,
                    Phase::SubscribingContrast => PortalAction::SubscribeContrast,
                    Phase::Watching => PortalAction::AwaitChange {
                        color_scheme: self.color_scheme_stream,
                        contrast: self.contrast_stream,
                    },
                };
                PortalStep { send: None, action }
            },
        }
    }

    /// Moves to watching, or back to connecting when both streams ended.
    fn watch_or_reconnect(&mut self) -> (r: PortalAction)
        ensures
            (*final(self), r) == watch_or_reconnect(*old(self)),
    {
        if !self.color_scheme_stream && !self.contrast_stream {
            self.phase = Phase::Connecting;
            PortalAction::Connect
        } else {
            self.phase = Phase::Watching;
            PortalAction::AwaitChange { color_scheme: self.color_scheme_stream, contrast: self.contrast_stream }
        }
    }
}


/// Each further failed connection doubles the wait before the next try,
/// starting from one second.
pub proof fn lemma_retry_delay_doubles<A>(s: PortalState)
    requires
        s.phase == Phase::Connecting,
        s.attempts < 63,
    ensures
        ({
            let first = spec_step::<A>(s, PortalEvent::ConnectFailed);
            let second = spec_step::<A>(first.0, PortalEvent::ConnectFailed);
            match (first.2, second.2) {
                (PortalAction::RetryAfter(d1), PortalAction::RetryAfter(d2)) =>
                    d1 >= 1 && d2 == 2 * d1 && (s.attempts == 0 ==> d1 == 1),
                _ => false,
            }
        }),
{
    lemma_pow2_unfold((s.attempts + 1) as nat);
    lemma_pow2_strictly_increases((s.attempts + 1) as nat, 64);
    lemma_pow2_strictly_increases(s.attempts as nat, 64);
    lemma2_to64();
    lemma2_to64_rest();
    if s.attempts > 0 {
        lemma_pow2_strictly_increases(0, s.attempts as nat);
    }
}

/// A change that arrives, or the end of a change stream, clears the count
/// of failed connections; a change is sent on to the application.
pub proof fn lemma_change_resets_attempts<A>(s: PortalState, event: PortalEvent)
    requires
        s.phase == Phase::Watching,
        event is ColorSchemeChanged || event is ContrastChanged,
    ensures
        spec_step::<A>(s, event).0.attempts == 0,
        match event {
            PortalEvent::ColorSchemeChanged(Some(c)) => spec_step::<A>(s, event).1 == Some(Desktop::<A>::ColorScheme(c)),
            PortalEvent::ContrastChanged(Some(c)) => spec_step::<A>(s, event).1 == Some(Desktop::<A>::Contrast(c)),
            _ => spec_step::<A>(s, event).1 is None,
        },
{
}

/// Once both change streams have ended, the subscription connects to the
/// portal anew; while one is open, it waits on the open ones.
pub proof fn lemma_watch_until_streams_end<A>(s: PortalState, event: PortalEvent)
    requires
        (s.phase == Phase::Watching && (event is ColorSchemeChanged || event is ContrastChanged))
            || (s.phase == Phase::SubscribingContrast && event is ContrastSubscribed),
    ensures
        ({
            let next = spec_step::<A>(s, event);
            if !next.0.color_scheme_stream && !next.0.contrast_stream {
                next.0.phase == Phase::Connecting && next.2 == PortalAction::Connect
            } else {
                next.0.phase == Phase::Watching && next.2 == (PortalAction::AwaitChange {
                    color_scheme: next.0.color_scheme_stream,
                    contrast: next.0.contrast_stream,
                })
            }
        }),
{
}

/// Every setting sent to the application is one that the portal reported,
/// and no accent color is ever sent.
pub proof fn lemma_sent_setting_was_reported<A>(s: PortalState, event: PortalEvent)
    ensures
        match spec_step::<A>(s, event).1 {
            Some(Desktop::ColorScheme(c)) =>
                event == PortalEvent::ColorSchemeRead(Some(c)) || event == PortalEvent::ColorSchemeChanged(Some(c)),
            Some(Desktop::Contrast(c)) =>
                event == PortalEvent::ContrastRead(Some(c)) || event == PortalEvent::ContrastChanged(Some(c)),
            Some(Desktop::Accent(_)) => false,
            None => true,
        },
{
}

/// Every setting that the portal reports, on the first reading or as a
/// change, is sent on to the application unchanged.
pub proof fn lemma_reported_setting_is_sent<A>(s: PortalState, event: PortalEvent)
    ensures
        match event {
            PortalEvent::ColorSchemeRead(Some(c)) =>
                s.phase == Phase::ReadingColorScheme ==> spec_step::<A>(s, event).1 == Some(Desktop::<A>::ColorScheme(c)),
            PortalEvent::ContrastRead(Some(c)) =>
                s.phase == Phase::ReadingContrast ==> spec_step::<A>(s, event).1 == Some(Desktop::<A>::Contrast(c)),
            PortalEvent::ColorSchemeChanged(Some(c)) =>
                s.phase == Phase::Watching ==> spec_step::<A>(s, event).1 == Some(Desktop::<A>::ColorScheme(c)),
            PortalEvent::ContrastChanged(Some(c)) =>
                s.phase == Phase::Watching ==> spec_step::<A>(s, event).1 == Some(Desktop::<A>::Contrast(c)),
            _ => true,
        },
{
}

} // verus!
