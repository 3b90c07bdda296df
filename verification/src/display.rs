//! The display state machine: what is on the surface, and which hide timer,
//! if any, is counting down.
//!
//! The machine owns no timer and draws nothing. Every transition tells the
//! caller which timer to drop, the caller arms the next one with the
//! scheduler and reports its token back, and `Surface` says what to draw.

use crate::message::{classify, Message, MessageError, MessageView, OsdMessage, OsdMessageView};
use crate::text::opt_view;
use vstd::prelude::*;

verus! {

/// Seconds without a message after which the surface is hidden.
pub const HIDE_AFTER_SECS: u32 = 3;

/// The name by which the scheduler knows one armed timer.
#[derive(Debug, Clone, Copy, PartialEq, Eq, Structural)]
pub struct TimerToken(pub u64);

/// The picture shown beside a progress bar.
#[derive(Debug, Clone, Copy, PartialEq, Eq, Structural)]
pub enum Icon {
    VolumeMuted,
    VolumeLow,
    VolumeMedium,
    VolumeHigh,
    VolumeOveramplified,
    Brightness,
}

/// The icon for a volume level: muted wins, then the level decides, above
/// 100 overamplified, above 66 high, above 33 medium, else low.
pub open spec fn volume_icon(value: i32, muted: bool) -> Icon {
    if muted {
        Icon::VolumeMuted
    } else if value > 100 {
        Icon::VolumeOveramplified
    } else if value > 66 {
        Icon::VolumeHigh
    } else if value > 33 {
        Icon::VolumeMedium
    } else {
        Icon::VolumeLow
    }
}

/// Picks the icon for a volume level and mute state.
pub fn get_volume_icon(value: i32, muted: bool) -> (icon: Icon)
    ensures
        icon == volume_icon(value, muted),
{
    if muted {
        return Icon::VolumeMuted;
    }
    if value > 100 {
        Icon::VolumeOveramplified
    } else if value > 66 {
        Icon::VolumeHigh
    } else if value > 33 {
        Icon::VolumeMedium
    } else {
        Icon::VolumeLow
    }
}

/// What the surface presents: the kind of the last message and its payload.
#[derive(Debug, Clone, PartialEq, Eq)]
pub enum Content {
    Volume { value: i32, max: i32, muted: bool, device: Option<String> },
    Brightness { value: i32, max: i32 },
    Text { text: String },
}

/// The mathematical value of a `Content`.
pub enum ContentView {
    Volume { value: i32, max: i32, muted: bool, device: Option<Seq<char>> },
    Brightness { value: i32, max: i32 },
    Text { text: Seq<char> },
}

impl View for Content {
    type V = ContentView;

    open spec fn view(&self) -> ContentView {
        match self {
            Content::Volume { value, max, muted, device } => ContentView::Volume {
                value: *value,
                max: *max,
                muted: *muted,
                device: opt_view(*device),
            },
            Content::Brightness { value, max } => ContentView::Brightness {
                value: *value,
                max: *max,
            },
            Content::Text { text } => ContentView::Text { text: text@ },
        }
    }
}

/// What a message puts on the surface. A raw message is of no kind that the
/// surface knows, and puts nothing there.
pub open spec fn content_of(m: MessageView) -> Option<ContentView> {
    match m {
        MessageView::Volume { value, max, muted, device } => Some(
            ContentView::Volume { value, max, muted, device },
        ),
        MessageView::Brightness { value, max } => Some(ContentView::Brightness { value, max }),
        MessageView::Text { text } => Some(ContentView::Text { text }),
        MessageView::Raw { json } => None,
    }
}

/// A progress bar filled to `value` out of `max`.
#[derive(Debug, Clone, Copy, PartialEq, Eq, Structural)]
pub struct Progress {
    pub value: i32,
    pub max: i32,
}

/// What to draw for a content: which parts of the surface are visible, and
/// what each of them holds. An absent part is hidden.
#[derive(Debug, Clone, PartialEq, Eq)]
pub struct Surface {
    /// The progress bar.
    pub progress: Option<Progress>,
    /// The line that marks 100 on a bar whose maximum lies above 100; it
    /// holds that maximum.
    pub marker: Option<i32>,
    /// Whether the bar is drawn in the warning style.
    pub overamplified: bool,
    /// The icon beside the bar.
    pub icon: Option<Icon>,
    /// The device name under the bar.
    pub device: Option<String>,
    /// The line of text.
    pub label: Option<String>,
}

/// The mathematical value of a `Surface`.
pub struct SurfaceView {
    pub progress: Option<Progress>,
    pub marker: Option<i32>,
    pub overamplified: bool,
    pub icon: Option<Icon>,
    pub device: Option<Seq<char>>,
    pub label: Option<Seq<char>>,
}

impl View for Surface {
    type V = SurfaceView;

    open spec fn view(&self) -> SurfaceView {
        SurfaceView {
            progress: self.progress,
            marker: self.marker,
            overamplified: self.overamplified,
            icon: self.icon,
            device: opt_view(self.device),
            label: opt_view(self.label),
        }
    }
}

/// How a content is drawn.
///
/// Volume and brightness show a bar with an icon and no text. A volume above
/// 100 is drawn in the warning style, a volume maximum above 100 gets the
/// marker, and the device name is shown if there is one. Text shows the
/// label alone.
pub open spec fn rendered(c: ContentView) -> SurfaceView {
    match c {
        ContentView::Volume { value, max, muted, device } => SurfaceView {
            progress: Some(Progress { value, max }),
            marker: if max > 100 {
                Some(max)
            } else {
                None
            },
            overamplified: value > 100,
            icon: Some(volume_icon(value, muted)),
            device,
            label: None,
        },
        ContentView::Brightness { value, max } => SurfaceView {
            progress: Some(Progress { value, max }),
            marker: None,
            overamplified: false,
            icon: Some(Icon::Brightness),
            device: None,
            label: None,
        },
        ContentView::Text { text } => SurfaceView {
            progress: None,
            marker: None,
            overamplified: false,
            icon: None,
            device: None,
            label: Some(text),
        },
    }
}

impl Content {
    /// Says how this content is drawn.
    pub fn render(&self) -> (surface: Surface)
        ensures
            surface@ == rendered(self@),
    {
        match self {
            Content::Volume { value, max, muted, device } => Surface {
                progress: Some(Progress { value: *value, max: *max }),
                marker: if *max > 100 {
                    Some(*max)
                } else {
                    None
                },
                overamplified: *value > 100,
                icon: Some(get_volume_icon(*value, *muted)),
                device: match device {
                    Some(name) => Some(name.clone()),
                    None => None,
                },
                label: None,
            },
            Content::Brightness { value, max } => Surface {
                progress: Some(Progress { value: *value, max: *max }),
                marker: None,
                overamplified: false,
                icon: Some(Icon::Brightness),
                device: None,
                label: None,
            },
            Content::Text { text } => Surface {
                progress: None,
                marker: None,
                overamplified: false,
                icon: None,
                device: None,
                label: Some(text.clone()),
            },
        }
    }
}

/// The state of the surface.
#[derive(Debug, Clone, PartialEq, Eq)]
pub enum DisplayState {
    /// Nothing is shown and no timer is armed.
    Idle,
    /// `content` is shown. `timer` is the hide timer that counts down for
    /// it; it is absent only between a message and the arming of its timer.
    Visible { content: Content, timer: Option<TimerToken> },
}

/// The mathematical value of a `DisplayState`.
pub enum DisplayStateView {
    Idle,
    Visible { content: ContentView, timer: Option<TimerToken> },
}

impl View for DisplayState {
    type V = DisplayStateView;

    open spec fn view(&self) -> DisplayStateView {
        match self {
            DisplayState::Idle => DisplayStateView::Idle,
            DisplayState::Visible { content, timer } => DisplayStateView::Visible {
                content: content@,
                timer: *timer,
            },
        }
    }
}

impl DisplayStateView {
    /// The timer that this state holds, if any.
    pub open spec fn timer(self) -> Option<TimerToken> {
        match self {
            DisplayStateView::Idle => None,
            DisplayStateView::Visible { content, timer } => timer,
        }
    }

    /// The state after `content` was put on the surface: visible, with the
    /// timer yet to be armed.
    pub open spec fn shown(self, content: ContentView) -> DisplayStateView {
        DisplayStateView::Visible { content, timer: None }
    }

    /// The state after the scheduler armed `token` for the current content.
    /// An idle surface takes no timer.
    pub open spec fn armed(self, token: TimerToken) -> DisplayStateView {
        match self {
            DisplayStateView::Idle => DisplayStateView::Idle,
            DisplayStateView::Visible { content, timer } => DisplayStateView::Visible {
                content,
                timer: Some(token),
            },
        }
    }

    /// The timer to drop when `token` is reported as armed: the one it
    /// replaces, or `token` itself where the surface is idle.
    pub open spec fn displaced(self, token: TimerToken) -> Option<TimerToken> {
        match self {
            DisplayStateView::Idle => Some(token),
            DisplayStateView::Visible { content, timer } => timer,
        }
    }

    /// Whether the firing of `token` hides the surface: it does if and only
    /// if `token` is the timer that this state holds.
    pub open spec fn expires(self, token: TimerToken) -> bool {
        self.timer() == Some(token)
    }

    /// The state after `token` fired.
    pub open spec fn fired(self, token: TimerToken) -> DisplayStateView {
        if self.expires(token) {
            DisplayStateView::Idle
        } else {
            self
        }
    }
}

/// What the caller does after a message was put on the surface.
#[derive(Debug, Clone, PartialEq, Eq)]
pub struct Shown {
    /// The timer to drop, if one was counting down.
    pub cancel: Option<TimerToken>,
    /// What to draw.
    pub surface: Surface,
}

impl DisplayState {
    /// The state of a presenter that has shown nothing yet.
    pub fn new() -> (state: DisplayState)
        ensures
            state@ == DisplayStateView::Idle,
    {
        DisplayState::Idle
    }

    /// Whether the surface is shown.
    pub fn is_visible(&self) -> (visible: bool)
        ensures
            visible == (self@ is Visible),
    {
        match self {
            DisplayState::Idle => false,
            DisplayState::Visible { .. } => true,
        }
    }

    /// The hide timer that is counting down, if any.
    pub fn timer(&self) -> (timer: Option<TimerToken>)
        ensures
            timer == self@.timer(),
    {
        match self {
            DisplayState::Idle => None,
            DisplayState::Visible { timer, .. } => *timer,
        }
    }

    /// Puts a message on the surface.
    ///
    /// On success the surface is visible with the message's content and
    /// holds no timer; the result names the timer that was counting down,
    /// for the caller to drop, and says what to draw. The caller then arms a
    /// timer of `HIDE_AFTER_SECS` and reports it with `timer_armed`.
    /// A raw message is of no kind that the surface knows: the state stays
    /// as it was.
    pub fn show(&mut self, msg: Message) -> (r: Result<Shown, MessageError>)
        ensures
            match content_of(msg@) {
                Some(content) => {
                    &&& r is Ok
                    &&& r->Ok_0.cancel == old(self)@.timer()
                    &&& r->Ok_0.surface@ == rendered(content)
                    &&& final(self)@ == old(self)@.shown(content)
                },
                None => r == Err::<Shown, MessageError>(MessageError::UnknownKind) && final(self)@
                    == old(self)@,
            },
    {
        let content = match msg {
            Message::Volume { value, max, muted, device } => Content::Volume {
                value,
                max,
                muted,
                device,
            },
            Message::Brightness { value, max } => Content::Brightness { value, max },
            Message::Text { text } => Content::Text { text },
            Message::Raw { .. } => {
                return Err(MessageError::UnknownKind);
            },
        };
        let cancel = self.timer();
        let surface = content.render();
        *self = DisplayState::Visible { content, timer: None };
        Ok(Shown { cancel, surface })
    }

    /// Records the timer that the scheduler armed for the current content.
    ///
    /// The result is a timer for the caller to drop: the one that `token`
    /// replaces, if the state still held one, or `token` itself if the
    /// surface is idle and needs no timer. So the state never holds more
    /// than one timer.
    pub fn timer_armed(&mut self, token: TimerToken) -> (cancel: Option<TimerToken>)
        ensures
            cancel == old(self)@.displaced(token),
            final(self)@ == old(self)@.armed(token),
    {
        match self {
            DisplayState::Idle => Some(token),
            DisplayState::Visible { timer, .. } => {
                let prior = *timer;
                *timer = Some(token);
                prior
            },
        }
    }

    /// Reacts to the firing of a timer.
    ///
    /// If `token` is the timer that the state holds, the surface becomes
    /// idle and the result is `true`: the caller hides it. The firing of any
    /// other timer is stale and changes nothing.
    pub fn timer_fired(&mut self, token: TimerToken) -> (hide: bool)
        ensures
            hide == old(self)@.expires(token),
            final(self)@ == old(self)@.fired(token),
    {
        let current = match self.timer() {
            Some(current) => current.0 == token.0,
            None => false,
        };
        if current {
            *self = DisplayState::Idle;
        }
        current
    }
}

/// The state after the wire record `w` arrived: that of `show` where the
/// record is a message that the surface knows, the state as it was
/// otherwise.
pub open spec fn handled(s: DisplayStateView, w: OsdMessageView) -> DisplayStateView {
    match classify(w) {
        Ok(m) => match content_of(m) {
            Some(content) => s.shown(content),
            None => s,
        },
        Err(e) => s,
    }
}

/// Applies one wire record to the display state.
///
/// A record that is a message is shown as `DisplayState::show` says. A
/// malformed record and one of unknown kind are reported and change nothing.
pub fn handle_message(state: &mut DisplayState, msg: OsdMessage) -> (r: Result<
    Shown,
    MessageError,
>)
    ensures
        final(state)@ == handled(old(state)@, msg@),
        match classify(msg@) {
            Ok(m) => {
                &&& r is Ok
                &&& content_of(m) is Some
                &&& r->Ok_0.cancel == old(state)@.timer()
                &&& r->Ok_0.surface@ == rendered(content_of(m)->Some_0)
            },
            Err(e) => r == Err::<Shown, MessageError>(e),
        },
{
    match msg.into_message() {
        Ok(m) => state.show(m),
        Err(e) => Err(e),
    }
}

} // verus!
