//! The small player: album art, what is playing, and the controls, in a
//! window that floats over whatever else is on screen.
//!
//! Lengths are in points. A fraction is the bit pattern of its
//! single-precision number.

use vstd::prelude::*;

use crate::memory::{load, store, Memo};

verus! {

pub const PAD: u32 = 10;

pub const WIDTH: u32 = 250;

/// The strip along the top carrying the close button, the grip, and the way
/// into the settings.
pub const TOPBAR: u32 = 28;

/// The art is square and as wide as the window allows.
pub const ART: u32 = 230;

pub const TITLE: u32 = 17;

pub const SUBTITLE: u32 = 15;

pub const PROGRESS: u32 = 16;

pub const GAP: u32 = 8;

/// One row of what is coming next.
pub const QUEUE_ROW: u32 = 34;

pub const QUEUE_ROWS: usize = 3;

/// The window's own rounding, which it has to draw because it has no frame.
pub const CORNER: u32 = 12;

/// How far under the text the seek bar is drawn, and how tall it is.
pub const SEEK_GAP: u32 = 2;

pub const SEEK_BAR: u32 = 16;

/// What the settings ask the window to show.
#[derive(Clone, Copy, Debug, PartialEq, Eq)]
pub struct Settings {
    /// Whether the ground takes its colour from the art.
    pub mini_tinted: bool,
    /// Whether the next few songs are shown.
    pub mini_queue: bool,
    /// Whether the window stays on top of others.
    pub mini_on_top: bool,
}

/// The size of a window.
#[derive(Clone, Copy, Debug, PartialEq, Eq)]
pub struct Size {
    pub width: u32,
    pub height: u32,
}

/// What the player is to do.
#[derive(Debug)]
pub enum Action {
    VolumeBy(i8),
    PreviewVolume(u8),
    SetVolume(u8),
    ToggleMute,
    Previous,
    TogglePlay,
    Next,
    Seek(u32),
    ToggleSaved(String),
    SettingsChanged,
    ToggleMiniPlayer,
    ToggleMiniOnTop,
}

/// What is playing.
#[derive(Debug)]
pub struct NowPlaying {
    pub uri: String,
    pub title: String,
    pub subtitle: String,
    pub art_url: Option<String>,
    pub art_small: Option<String>,
    pub is_episode: bool,
    pub position_ms: u32,
    pub duration_ms: u32,
    pub volume_percent: u8,
    /// Whether it plays on this machine.
    pub local: bool,
}

/// What became of a slider: `amount` is what its position stands for.
#[derive(Debug, PartialEq, Eq)]
pub enum SliderEvent<A> {
    Untouched,
    Dragging { fraction: u32, amount: A },
    Committed { amount: A },
}

/// The volume change that so many notches of the wheel make.
pub open spec fn wheel_action(notches: int) -> Option<Action> {
    if notches == 0 {
        None
    } else {
        Some(Action::VolumeBy(crate::stream::between(notches * 5, -100, 100) as i8))
    }
}

/// What is drawn under the top bar and the art.
pub open spec fn sections_for(settings: Settings, settings_open: bool, lit: bool) -> Sections {
    Sections {
        panel: settings_open,
        transport: !settings_open && lit,
        details: !settings_open,
        queue: !settings_open && settings.mini_queue,
    }
}

/// What is being dragged to after an event of a slider.
pub open spec fn dragged_to<A>(preview: Option<u32>, event: SliderEvent<A>) -> Option<u32> {
    match event {
        SliderEvent::Dragging { fraction, .. } => Some(fraction),
        SliderEvent::Committed { .. } => None,
        SliderEvent::Untouched => preview,
    }
}

/// What an event of the volume's slider does.
pub open spec fn volume_actions(
    now: Option<&NowPlaying>,
    muted: bool,
    event: SliderEvent<u8>,
) -> Seq<Action> {
    (if muted {
        seq![Action::ToggleMute]
    } else {
        seq![]
    }) + (match event {
        SliderEvent::Dragging { amount, .. } => if plays_here(now) {
            seq![Action::PreviewVolume(amount)]
        } else {
            seq![]
        },
        SliderEvent::Committed { amount } => seq![Action::SetVolume(amount)],
        SliderEvent::Untouched => seq![],
    })
}

/// What an event of the seek bar does.
pub open spec fn seek_action(duration_ms: u32, event: SliderEvent<u32>) -> Option<Action> {
    match event {
        SliderEvent::Committed { amount } => if duration_ms > 0 {
            Some(Action::Seek(amount))
        } else {
            None
        },
        _ => None,
    }
}

/// The songs that are shown of a queue.
pub open spec fn first_few<T>(queue: Seq<T>) -> Seq<T> {
    queue.take(vstd::math::min(queue.len() as int, QUEUE_ROWS as int))
}

/// How tall the window is without the queue.
pub open spec fn plain_height() -> int {
    TOPBAR + ART + GAP + TITLE + SUBTITLE + PROGRESS + PAD
}

/// How much room the queue takes.
pub open spec fn queue_room() -> int {
    GAP + QUEUE_ROW * QUEUE_ROWS
}

/// The size that `settings` ask for.
pub open spec fn size_for(settings: Settings) -> Size {
    Size {
        width: WIDTH,
        height: (plain_height() + if settings.mini_queue { queue_room() } else { 0 }) as u32,
    }
}

/// How tall the window has to be for what the settings ask it to show.
pub fn window_size(settings: &Settings) -> (size: Size)
    ensures
        size == size_for(*settings),
{
    let queue: u32 = if settings.mini_queue {
        GAP + QUEUE_ROW * (QUEUE_ROWS as u32)
    } else {
        0
    };
    Size {
        width: WIDTH,
        height: TOPBAR + ART + GAP + TITLE + SUBTITLE + PROGRESS + queue + PAD,
    }
}

/// When the window was last asked for its size, where it was; `window` is the id
/// that is kept by.
pub open spec fn asked_of(
    memos: vstd::map::Map<egui::Id, crate::memory::MemoView>,
    window: egui::Id,
) -> Option<u64> {
    crate::memory::kept_for(memos, window).asked
}

/// `memos` once the window has been asked at `now`.
pub open spec fn with_asked(
    memos: vstd::map::Map<egui::Id, crate::memory::MemoView>,
    window: egui::Id,
    now: u64,
) -> vstd::map::Map<egui::Id, crate::memory::MemoView> {
    crate::memory::keeping(
        memos,
        window,
        crate::memory::MemoView { asked: Some(now), ..crate::memory::kept_for(memos, window) },
    )
}

/// Whether the window is due to be asked for its size: it has another, and was
/// not asked just now.
pub open spec fn due_to_ask(asked: Option<u64>, fits: bool, just_now: bool) -> bool {
    !fits && !(asked is Some && just_now)
}

/// When the window was last asked for its size, where it was.
pub fn asked_at(data: &egui::util::IdTypeMap, window: egui::Id) -> (asked: Option<u64>)
    ensures
        asked == asked_of(crate::memory::memos(*data), window),
{
    load(data, window).asked
}

/// Whether to ask for the size the player is drawn at, at the time `now`: the
/// window has another, and was not asked only just now. `just_now` says that
/// the last time of asking is less than a second ago, where there was one.
///
/// Window geometry is remembered between runs, and what is remembered is the
/// big window's, so opening this one restores that size over the one it was
/// asked for. Asking again from inside settles it. It is also how the window
/// grows when the queue is switched on.
pub fn fit_window(
    data: &mut egui::util::IdTypeMap,
    window: egui::Id,
    fits: bool,
    just_now: bool,
    now: u64,
) -> (ask: bool)
    ensures
        ({
            let memos = crate::memory::memos(*old(data));
            &&& ask == due_to_ask(asked_of(memos, window), fits, just_now)
            &&& crate::memory::memos(*final(data)) == if ask {
                with_asked(memos, window, now)
            } else {
                memos
            }
        }),
{
    if fits {
        return false;
    }
    let mut memo: Memo = load(data, window);
    if memo.asked.is_some() && just_now {
        return false;
    }
    memo.asked = Some(now);
    store(data, window, memo);
    true
}

/// Takes over where the window is, where the desktop tells; otherwise the last
/// place known is kept. A place is the bit patterns of its two coordinates.
pub fn last_pos(kept: &mut Option<(u32, u32)>, outer: Option<(u32, u32)>)
    ensures
        *final(kept) == if outer is Some {
            outer
        } else {
            *old(kept)
        },
{
    if outer.is_some() {
        *kept = outer;
    }
}

/// Whether the settings are open; `sheet` is the id they are kept by.
pub open spec fn sheet_open(
    memos: vstd::map::Map<egui::Id, crate::memory::MemoView>,
    sheet: egui::Id,
) -> bool {
    crate::memory::kept_for(memos, sheet).open
}

/// `memos` with the settings open or closed.
pub open spec fn with_sheet(
    memos: vstd::map::Map<egui::Id, crate::memory::MemoView>,
    sheet: egui::Id,
    open: bool,
) -> vstd::map::Map<egui::Id, crate::memory::MemoView> {
    crate::memory::keeping(
        memos,
        sheet,
        crate::memory::MemoView { open, ..crate::memory::kept_for(memos, sheet) },
    )
}

/// Whether the settings are open; `sheet` is the id they are kept by.
pub fn settings_open(data: &egui::util::IdTypeMap, sheet: egui::Id) -> (open: bool)
    ensures
        open == sheet_open(crate::memory::memos(*data), sheet),
{
    load(data, sheet).open
}

/// Opens or closes the settings.
pub fn set_settings_open(data: &mut egui::util::IdTypeMap, sheet: egui::Id, open: bool)
    ensures
        crate::memory::memos(*final(data)) == with_sheet(
            crate::memory::memos(*old(data)),
            sheet,
            open,
        ),
{
    let mut memo: Memo = load(data, sheet);
    memo.open = open;
    store(data, sheet, memo);
}

/// The picture to show: the large one, else the small one.
pub fn art_url(now: Option<&NowPlaying>) -> (url: Option<String>)
    ensures
        crate::device::name_view(url) == match now {
            Some(now) => crate::device::name_view(
                if now.art_url is Some { now.art_url } else { now.art_small },
            ),
            None => None,
        },
{
    match now {
        Some(now) => match &now.art_url {
            Some(url) => Some(url.clone()),
            None => match &now.art_small {
                Some(url) => Some(url.clone()),
                None => None,
            },
        },
        None => None,
    }
}

/// The colour to blend into the ground, where the settings ask for it and the
/// art has one.
pub fn ground_tint<C>(settings: &Settings, tint: Option<C>) -> (blend: Option<C>)
    ensures
        blend == if settings.mini_tinted {
            tint
        } else {
            None
        },
{
    if settings.mini_tinted {
        tint
    } else {
        None
    }
}

/// What turning the wheel does: each notch is five percent of the volume, and
/// no turn is more than all of it.
pub fn wheel(notches: i32) -> (action: Option<Action>)
    requires
        i32::MIN <= notches * 5 <= i32::MAX,
    ensures
        action == wheel_action(notches as int),
        action == if notches == 0 {
            None
        } else {
            Some(Action::VolumeBy(crate::stream::between(notches * 5, -100, 100) as i8))
        },
{
    if notches == 0 {
        return None;
    }
    let percent: i32 = notches * 5;
    if percent < -100 {
        Some(Action::VolumeBy(-100))
    } else if percent > 100 {
        Some(Action::VolumeBy(100))
    } else {
        Some(Action::VolumeBy(percent as i8))
    }
}

/// What is drawn under the top bar and the art.
#[derive(Clone, Copy, Debug, PartialEq, Eq)]
pub struct Sections {
    /// The settings, over the art.
    pub panel: bool,
    /// Previous, play, and next, over the art.
    pub transport: bool,
    /// What is playing, and how far it is.
    pub details: bool,
    /// The next few songs.
    pub queue: bool,
}

/// What to draw. Open settings hide everything else; the controls show only
/// while the pointer lights them.
pub fn show(settings: &Settings, settings_open: bool, lit: bool) -> (sections: Sections)
    ensures
        sections == sections_for(*settings, settings_open, lit),
        sections == (Sections {
            panel: settings_open,
            transport: !settings_open && lit,
            details: !settings_open,
            queue: !settings_open && settings.mini_queue,
        }),
{
    if settings_open {
        return Sections { panel: true, transport: false, details: false, queue: false };
    }
    Sections { panel: false, transport: lit, details: true, queue: settings.mini_queue }
}

/// What the top bar does.
pub fn top_bar(
    data: &mut egui::util::IdTypeMap,
    sheet: egui::Id,
    close_clicked: bool,
    gear_clicked: bool,
) -> (action: Option<Action>)
    ensures
        action == if close_clicked {
            Some(Action::ToggleMiniPlayer)
        } else {
            None
        },
        crate::memory::memos(*final(data)) == {
            let memos = crate::memory::memos(*old(data));
            if gear_clicked {
                with_sheet(memos, sheet, !sheet_open(memos, sheet))
            } else {
                memos
            }
        },
{
    if gear_clicked {
        let open: bool = settings_open(data, sheet);
        set_settings_open(data, sheet, !open);
    }
    if close_clicked {
        Some(Action::ToggleMiniPlayer)
    } else {
        None
    }
}

/// The column and the row of a dot of the grip, which says that the window
/// moves: two rows of three.
pub fn grip_dot(step: u32) -> (at: (u32, u32))
    ensures
        at == (step % 3, step / 3),
{
    (step % 3, step / 3)
}

/// The rows of the settings, from the top.
#[derive(Clone, Copy, Debug, PartialEq, Eq)]
pub enum PanelRow {
    Background,
    Queue,
    OnTop,
}

impl PanelRow {
    /// What the row is called.
    pub fn label(self) -> (label: &'static str)
        ensures
            label@ == match self {
                PanelRow::Background => "Background colour"@,
                PanelRow::Queue => "Queue"@,
                PanelRow::OnTop => "Stay on top"@,
            },
    {
        match self {
            PanelRow::Background => "Background colour",
            PanelRow::Queue => "Queue",
            PanelRow::OnTop => "Stay on top",
        }
    }

    /// Whether the row is switched on.
    pub fn is_on(self, settings: &Settings) -> (on: bool)
        ensures
            on == match self {
                PanelRow::Background => settings.mini_tinted,
                PanelRow::Queue => settings.mini_queue,
                PanelRow::OnTop => settings.mini_on_top,
            },
    {
        match self {
            PanelRow::Background => settings.mini_tinted,
            PanelRow::Queue => settings.mini_queue,
            PanelRow::OnTop => settings.mini_on_top,
        }
    }
}

/// Which row was picked, where the switches of these were changed. The last
/// of them counts.
pub fn picked_row(background: bool, queue: bool, on_top: bool) -> (picked: Option<PanelRow>)
    ensures
        picked == if on_top {
            Some(PanelRow::OnTop)
        } else if queue {
            Some(PanelRow::Queue)
        } else if background {
            Some(PanelRow::Background)
        } else {
            None
        },
{
    let mut picked: Option<PanelRow> = None;
    if background {
        picked = Some(PanelRow::Background);
    }
    if queue {
        picked = Some(PanelRow::Queue);
    }
    if on_top {
        picked = Some(PanelRow::OnTop);
    }
    picked
}

/// The settings once a row has been picked. Staying on top is switched by the
/// player, not here.
pub open spec fn picked_settings(settings: Settings, picked: Option<PanelRow>) -> Settings {
    match picked {
        Some(PanelRow::Background) => Settings { mini_tinted: !settings.mini_tinted, ..settings },
        Some(PanelRow::Queue) => Settings { mini_queue: !settings.mini_queue, ..settings },
        _ => settings,
    }
}

/// What picking a row of the settings does, and what leaving them does.
pub fn panel(
    settings: &mut Settings,
    data: &mut egui::util::IdTypeMap,
    sheet: egui::Id,
    picked: Option<PanelRow>,
    done: bool,
) -> (action: Option<Action>)
    ensures
        *final(settings) == picked_settings(*old(settings), picked),
        action == match picked {
            Some(PanelRow::Background) => Some(Action::SettingsChanged),
            Some(PanelRow::Queue) => Some(Action::SettingsChanged),
            Some(PanelRow::OnTop) => Some(Action::ToggleMiniOnTop),
            None => None,
        },
        crate::memory::memos(*final(data)) == if done {
            with_sheet(crate::memory::memos(*old(data)), sheet, false)
        } else {
            crate::memory::memos(*old(data))
        },
{
    if done {
        set_settings_open(data, sheet, false);
    }
    match picked {
        Some(PanelRow::Background) => {
            settings.mini_tinted = !settings.mini_tinted;
            Some(Action::SettingsChanged)
        }
        Some(PanelRow::Queue) => {
            settings.mini_queue = !settings.mini_queue;
            Some(Action::SettingsChanged)
        }
        Some(PanelRow::OnTop) => Some(Action::ToggleMiniOnTop),
        None => None,
    }
}

/// The buttons over the art, from the left.
#[derive(Clone, Copy, Debug, PartialEq, Eq)]
pub enum Button {
    Previous,
    Play,
    Next,
}

/// The icons of the buttons.
#[derive(Clone, Copy, Debug, PartialEq, Eq)]
pub enum Icon {
    SkipBack,
    Play,
    Pause,
    SkipForward,
    VolumeMuted,
    VolumeLow,
    VolumeMiddle,
    VolumeHigh,
}

/// Where a button goes: its middle, from the middle of the art, and its width.
#[derive(Clone, Copy, Debug, PartialEq, Eq)]
pub struct Slot {
    pub center: i32,
    pub width: i32,
}

pub const SKIP_WIDTH: i32 = 34;

pub const PLAY_WIDTH: i32 = 52;

pub const BUTTON_GAP: i32 = 14;

impl Button {
    pub open spec fn width(self) -> int {
        match self {
            Button::Play => PLAY_WIDTH as int,
            _ => SKIP_WIDTH as int,
        }
    }

    /// How far the left edge of the button is from that of the first.
    pub open spec fn offset(self) -> int {
        match self {
            Button::Previous => 0,
            Button::Play => SKIP_WIDTH + BUTTON_GAP,
            Button::Next => SKIP_WIDTH + PLAY_WIDTH + 2 * BUTTON_GAP,
        }
    }

    /// How wide the buttons are together.
    pub open spec fn total_width() -> int {
        2 * SKIP_WIDTH + PLAY_WIDTH + 2 * BUTTON_GAP
    }

    /// Where the button goes: the row of them is centred on the art.
    pub fn slot(self) -> (slot: Slot)
        ensures
            slot.width == self.width(),
            2 * slot.center == 2 * self.offset() + self.width() - Button::total_width(),
    {
        let total: i32 = 2 * SKIP_WIDTH + PLAY_WIDTH + 2 * BUTTON_GAP;
        let (left, width): (i32, i32) = match self {
            Button::Previous => (0, SKIP_WIDTH),
            Button::Play => (SKIP_WIDTH + BUTTON_GAP, PLAY_WIDTH),
            Button::Next => (SKIP_WIDTH + PLAY_WIDTH + 2 * BUTTON_GAP, SKIP_WIDTH),
        };
        Slot { center: left - total / 2 + width / 2, width }
    }

    /// What the button shows.
    pub fn icon(self, playing: bool) -> (icon: Icon)
        ensures
            icon == match self {
                Button::Previous => Icon::SkipBack,
                Button::Play => if playing { Icon::Pause } else { Icon::Play },
                Button::Next => Icon::SkipForward,
            },
    {
        match self {
            Button::Previous => Icon::SkipBack,
            Button::Play => {
                if playing {
                    Icon::Pause
                } else {
                    Icon::Play
                }
            }
            Button::Next => Icon::SkipForward,
        }
    }
}

/// What a click on a button does.
pub fn transport(clicked: Button) -> (action: Action)
    ensures
        action == match clicked {
            Button::Previous => Action::Previous,
            Button::Play => Action::TogglePlay,
            Button::Next => Action::Next,
        },
{
    match clicked {
        Button::Previous => Action::Previous,
        Button::Play => Action::TogglePlay,
        Button::Next => Action::Next,
    }
}

/// The volume to show, in percent.
pub open spec fn level_shown(preview: Option<u8>, now: Option<&NowPlaying>, own_percent: u8) -> u8 {
    match preview {
        Some(percent) => percent,
        None => match now {
            Some(now) => now.volume_percent,
            None => own_percent,
        },
    }
}

/// The icon of a volume.
pub open spec fn icon_for(percent: u8) -> Icon {
    if percent == 0 {
        Icon::VolumeMuted
    } else if percent <= 33 {
        Icon::VolumeLow
    } else if percent <= 66 {
        Icon::VolumeMiddle
    } else {
        Icon::VolumeHigh
    }
}

/// The volume to show, in percent: the one being dragged to, else that of what
/// is playing, else that of this machine.
pub fn volume_shown(preview: Option<u8>, now: Option<&NowPlaying>, own_percent: u8) -> (shown: u8)
    ensures
        shown == level_shown(preview, now, own_percent),
        shown == match preview {
            Some(percent) => percent,
            None => match now {
                Some(now) => now.volume_percent,
                None => own_percent,
            },
        },
{
    match preview {
        Some(percent) => percent,
        None => match now {
            Some(now) => now.volume_percent,
            None => own_percent,
        },
    }
}

/// The icon of a volume.
pub fn volume_icon(percent: u8) -> (icon: Icon)
    ensures
        icon == icon_for(percent),
        icon == if percent == 0 {
            Icon::VolumeMuted
        } else if percent <= 33 {
            Icon::VolumeLow
        } else if percent <= 66 {
            Icon::VolumeMiddle
        } else {
            Icon::VolumeHigh
        },
{
    match percent {
        0 => Icon::VolumeMuted,
        1..=33 => Icon::VolumeLow,
        34..=66 => Icon::VolumeMiddle,
        _ => Icon::VolumeHigh,
    }
}

/// Whether the volume is this machine's: it is while nothing plays elsewhere.
pub open spec fn plays_here(now: Option<&NowPlaying>) -> bool {
    match now {
        Some(now) => now.local,
        None => true,
    }
}

/// What the volume does: `preview` is the volume being dragged to, and the
/// event's amounts are percents. A drag is heard at once on this machine, and
/// sent elsewhere only when it is let go.
pub fn volume(
    preview: &mut Option<u32>,
    now: Option<&NowPlaying>,
    muted: bool,
    event: SliderEvent<u8>,
) -> (actions: Vec<Action>)
    ensures
        *final(preview) == dragged_to(*old(preview), event),
        actions@ == volume_actions(now, muted, event),
        *final(preview) == match event {
            SliderEvent::Dragging { fraction, .. } => Some(fraction),
            SliderEvent::Committed { .. } => None,
            SliderEvent::Untouched => *old(preview),
        },
        actions@ == (if muted {
            seq![Action::ToggleMute]
        } else {
            seq![]
        }) + (match event {
            SliderEvent::Dragging { amount, .. } => if plays_here(now) {
                seq![Action::PreviewVolume(amount)]
            } else {
                seq![]
            },
            SliderEvent::Committed { amount } => seq![Action::SetVolume(amount)],
            SliderEvent::Untouched => seq![],
        }),
{
    let mut actions: Vec<Action> = Vec::new();
    if muted {
        actions.push(Action::ToggleMute);
    }
    let here: bool = match now {
        Some(now) => now.local,
        None => true,
    };
    match event {
        SliderEvent::Dragging { fraction, amount } => {
            *preview = Some(fraction);
            if here {
                actions.push(Action::PreviewVolume(amount));
            }
        }
        SliderEvent::Committed { amount } => {
            *preview = None;
            actions.push(Action::SetVolume(amount));
        }
        SliderEvent::Untouched => {}
    }
    actions
}

/// The lines under the art.
#[derive(Debug)]
pub struct Details {
    pub title: String,
    pub subtitle: String,
    /// Whether there is a heart, and whether it is filled.
    pub likeable: bool,
    pub saved: bool,
}

/// Whether what plays can be liked: everything but an episode can.
pub open spec fn can_be_liked(now: Option<&NowPlaying>) -> bool {
    now matches Some(now) && !now.is_episode
}

/// The lines under the art; `saved` is what is known of the song.
pub fn details(now: Option<&NowPlaying>, saved: Option<bool>) -> (details: Details)
    ensures
        details.title@ == match now {
            Some(now) => now.title@,
            None => "Nothing playing"@,
        },
        details.subtitle@ == match now {
            Some(now) => now.subtitle@,
            None => Seq::<char>::empty(),
        },
        details.likeable == can_be_liked(now),
        details.saved == (now is Some && saved == Some(true)),
{
    match now {
        Some(now) => Details {
            title: now.title.clone(),
            subtitle: now.subtitle.clone(),
            likeable: !now.is_episode,
            saved: match saved {
                Some(saved) => saved,
                None => false,
            },
        },
        None => Details {
            title: "Nothing playing".to_owned(),
            subtitle: String::new(),
            likeable: false,
            saved: false,
        },
    }
}

/// What a click on the heart does.
pub fn like(now: Option<&NowPlaying>, clicked: bool) -> (action: Option<Action>)
    ensures
        match action {
            Some(action) => {
                &&& clicked
                &&& can_be_liked(now)
                &&& action matches Action::ToggleSaved(uri) && uri@ == now->0.uri@
            },
            None => !(clicked && can_be_liked(now)),
        },
{
    match now {
        Some(now) => {
            if clicked && !now.is_episode {
                Some(Action::ToggleSaved(now.uri.clone()))
            } else {
                None
            }
        }
        None => None,
    }
}

/// How far the song is and how long, in milliseconds.
pub fn position(now: Option<&NowPlaying>) -> (position: (u32, u32))
    ensures
        position == match now {
            Some(now) => (now.position_ms, now.duration_ms),
            None => (0u32, 0u32),
        },
{
    match now {
        Some(now) => (now.position_ms, now.duration_ms),
        None => (0, 0),
    }
}

/// What the seek bar does: `preview` is the place being dragged to, and the
/// event's amounts are milliseconds. Where the length is not known there is
/// nowhere to seek to.
pub fn progress(preview: &mut Option<u32>, duration_ms: u32, event: SliderEvent<u32>) -> (action:
    Option<Action>)
    ensures
        *final(preview) == dragged_to(*old(preview), event),
        action == seek_action(duration_ms, event),
        *final(preview) == match event {
            SliderEvent::Dragging { fraction, .. } => Some(fraction),
            SliderEvent::Committed { .. } => None,
            SliderEvent::Untouched => *old(preview),
        },
        action == match event {
            SliderEvent::Committed { amount } => if duration_ms > 0 {
                Some(Action::Seek(amount))
            } else {
                None
            },
            _ => None,
        },
{
    match event {
        SliderEvent::Dragging { fraction, .. } => {
            *preview = Some(fraction);
            None
        }
        SliderEvent::Committed { amount } => {
            *preview = None;
            if duration_ms > 0 {
                Some(Action::Seek(amount))
            } else {
                None
            }
        }
        SliderEvent::Untouched => None,
    }
}

/// The songs that are shown of a queue, which is `None` while it has not
/// arrived: the first few.
pub fn coming_up<T>(queue: Option<&Vec<T>>) -> (shown: Vec<&T>)
    ensures
        queue matches Some(queue) ==> shown@.len() == first_few(queue@).len() && forall|i: int|
            0 <= i < shown@.len() ==> *(#[trigger] shown@[i]) == first_few(queue@)[i],
        shown@ == match queue {
            Some(queue) => Seq::new(
                vstd::math::min(queue@.len() as int, QUEUE_ROWS as int) as nat,
                |i: int| &queue@[i],
            ),
            None => Seq::empty(),
        },
{
    let mut shown: Vec<&T> = Vec::new();
    if let Some(queue) = queue {
        let mut index: usize = 0;
        while index < queue.len() && index < QUEUE_ROWS
            invariant
                index <= queue@.len(),
                index <= QUEUE_ROWS,
                shown@ == Seq::new(index as nat, |i: int| &queue@[i]),
            decreases queue@.len() - index,
        {
            shown.push(&queue[index]);
            index = index + 1;
        }
    }
    shown
}

/// What stands in the place of the songs where none is shown.
pub fn queue_notice(shown: usize) -> (notice: Option<&'static str>)
    ensures
        match notice {
            Some(text) => shown == 0 && text@ == "Nothing queued"@,
            None => shown > 0,
        },
{
    if shown == 0 {
        Some("Nothing queued")
    } else {
        None
    }
}

/// How far over the bottom of the window a row of the queue begins.
pub open spec fn row_rise(row: int) -> int {
    PAD + QUEUE_ROW * (QUEUE_ROWS - row)
}

/// How far over the bottom of the window a row of the queue begins.
pub fn queue_row_rise(row: usize) -> (rise: u32)
    requires
        row < QUEUE_ROWS,
    ensures
        rise == row_rise(row as int),
{
    PAD + QUEUE_ROW * ((QUEUE_ROWS - row) as u32)
}

/// The window is tall enough for everything it draws: the bar, the art, the
/// text and the seek bar follow one another from the top, the rows of the
/// queue follow them, and the window ends a margin below the last.
pub proof fn law_window_holds_what_it_draws(settings: Settings, row: int)
    requires
        0 <= row < QUEUE_ROWS,
    ensures
        ({
            let height = size_for(settings).height as int;
            let seek_end = TOPBAR + ART + GAP + TITLE + SUBTITLE + SEEK_GAP + SEEK_BAR;
            &&& size_for(settings).width == WIDTH
            &&& ART == WIDTH - 2 * PAD
            &&& height > WIDTH
            &&& seek_end <= height
            &&& settings.mini_queue ==> {
                &&& seek_end <= height - row_rise(row)
                &&& height - row_rise(row) + QUEUE_ROW <= height - PAD
                &&& height - row_rise(row) + QUEUE_ROW == height - row_rise(row + 1)
            }
        }),
{
}

/// Asking for the queue makes room for it, and widens nothing.
pub proof fn law_queue_makes_room(settings: Settings)
    ensures
        ({
            let plain = size_for(Settings { mini_queue: false, ..settings });
            let with_queue = size_for(Settings { mini_queue: true, ..settings });
            &&& with_queue.width == plain.width
            &&& with_queue.height - plain.height == queue_room()
            &&& queue_room() >= QUEUE_ROW * QUEUE_ROWS
        }),
{
}

/// Having asked is remembered: until a second has passed no other request goes
/// out, and a window that fits is asked nothing at all.
pub proof fn law_asks_once_a_second(
    memos: vstd::map::Map<egui::Id, crate::memory::MemoView>,
    window: egui::Id,
    now: u64,
    fits: bool,
    just_now: bool,
)
    ensures
        ({
            let asked = asked_of(with_asked(memos, window, now), window);
            &&& asked == Some(now)
            &&& !due_to_ask(asked, fits, true)
            &&& !due_to_ask(asked, true, just_now)
            &&& due_to_ask(asked, false, false)
        }),
{
    crate::memory::law_reads_back_what_was_kept(
        memos,
        window,
        crate::memory::MemoView { asked: Some(now), ..crate::memory::kept_for(memos, window) },
        window,
    );
}

/// Picking a row twice changes the settings back.
pub proof fn law_picking_twice_changes_nothing(settings: Settings, picked: Option<PanelRow>)
    ensures
        picked_settings(picked_settings(settings, picked), picked) == settings,
{
}

/// The settings are open or closed as they were left, whatever else is kept.
pub proof fn law_settings_stay_as_they_were_left(
    memos: vstd::map::Map<egui::Id, crate::memory::MemoView>,
    sheet: egui::Id,
    open: bool,
)
    ensures
        sheet_open(with_sheet(memos, sheet, open), sheet) == open,
{
    crate::memory::law_reads_back_what_was_kept(
        memos,
        sheet,
        crate::memory::MemoView { open, ..crate::memory::kept_for(memos, sheet) },
        sheet,
    );
}

/// The buttons stand side by side with their gap between them, and the row of
/// them reaches as far to the left of the art's middle as to its right.
pub proof fn law_buttons_are_centred()
    ensures
        Button::Play.offset() == Button::Previous.offset() + Button::Previous.width() + BUTTON_GAP,
        Button::Next.offset() == Button::Play.offset() + Button::Play.width() + BUTTON_GAP,
        Button::Next.offset() + Button::Next.width() == Button::total_width(),
        2 * Button::Play.offset() + Button::Play.width() == Button::total_width(),
        Button::total_width() <= ART,
{
}

/// The window is two hundred and fifty points wide and as tall as its parts: the
/// queue adds a gap and three rows, and no other setting changes the size.
pub proof fn law_window_size_follows_the_queue(settings: Settings)
    ensures
        size_for(settings).width == 250,
        settings.mini_queue ==> size_for(settings).height == 28 + 230 + 8 + 17 + 15 + 16 + 10 + 8
            + 3 * 34,
        !settings.mini_queue ==> size_for(settings).height == 28 + 230 + 8 + 17 + 15 + 16 + 10,
        queue_room() == 8 + 3 * 34,
{
}

/// The rows of the queue are thirty-four points apart, and the last ends ten
/// points over the bottom.
pub proof fn law_rows_end_over_the_bottom(row: int)
    ensures
        row_rise(row) - row_rise(row + 1) == 34,
        row_rise(3) == 10,
{
}

/// A window that was never asked is asked as soon as it does not fit.
pub proof fn law_unasked_window_is_asked(just_now: bool)
    ensures
        due_to_ask(None, false, just_now),
        !due_to_ask(None, true, just_now),
{
}

/// Picking a row switches the setting it names and no other; staying on top is
/// left to the player, and no pick changes nothing.
pub proof fn law_pick_switches_one_setting(settings: Settings)
    ensures
        ({
            let tinted = picked_settings(settings, Some(PanelRow::Background));
            let queued = picked_settings(settings, Some(PanelRow::Queue));
            &&& tinted.mini_tinted == !settings.mini_tinted
            &&& tinted.mini_queue == settings.mini_queue
            &&& tinted.mini_on_top == settings.mini_on_top
            &&& queued.mini_queue == !settings.mini_queue
            &&& queued.mini_tinted == settings.mini_tinted
            &&& queued.mini_on_top == settings.mini_on_top
            &&& picked_settings(settings, Some(PanelRow::OnTop)) == settings
            &&& picked_settings(settings, None) == settings
        }),
{
}

/// The volume is this machine's unless something plays elsewhere, and a heart is
/// for whatever plays that is no episode.
pub proof fn law_here_and_likeable(now: &NowPlaying)
    ensures
        plays_here(None),
        plays_here(Some(now)) == now.local,
        !can_be_liked(None),
        can_be_liked(Some(now)) == !now.is_episode,
{
}

/// What the sheet and the window keep is kept for them alone, and each leaves
/// what the other keeps as it is.
pub proof fn law_sheet_and_window_keep_their_own(
    memos: vstd::map::Map<egui::Id, crate::memory::MemoView>,
    id: egui::Id,
    open: bool,
    now: u64,
    other: egui::Id,
)
    ensures
        asked_of(with_sheet(memos, id, open), id) == asked_of(memos, id),
        sheet_open(with_asked(memos, id, now), id) == sheet_open(memos, id),
        other != id ==> crate::memory::kept_for(with_sheet(memos, id, open), other)
            == crate::memory::kept_for(memos, other),
        other != id ==> crate::memory::kept_for(with_asked(memos, id, now), other)
            == crate::memory::kept_for(memos, other),
        !memos.contains_key(id) ==> !sheet_open(memos, id) && asked_of(memos, id) is None,
{
}

/// A turn of the wheel changes the volume by five percent a notch, in its own
/// direction, up to all of it; no turn, no change.
pub proof fn law_wheel_turns_the_volume(notches: i32)
    requires
        i32::MIN <= notches * 5 <= i32::MAX,
    ensures
        (wheel_action(notches as int) is None) == (notches == 0),
        notches != 0 && -20 <= notches <= 20 ==> (wheel_action(notches as int) matches Some(
            Action::VolumeBy(percent),
        ) && percent == 5 * notches),
        notches > 20 ==> (wheel_action(notches as int) matches Some(Action::VolumeBy(percent))
            && percent == 100),
        notches < -20 ==> (wheel_action(notches as int) matches Some(Action::VolumeBy(percent))
            && percent == -100),
{
}

/// Open settings are all there is over and under the art; closed, what plays is
/// always told, the buttons show while they are lit, and the queue where it is
/// asked for.
pub proof fn law_open_settings_hide_the_rest(settings: Settings, lit: bool)
    ensures
        ({
            let open = sections_for(settings, true, lit);
            let closed = sections_for(settings, false, lit);
            &&& open.panel && !open.transport && !open.details && !open.queue
            &&& !closed.panel && closed.details
            &&& closed.transport == lit
            &&& closed.queue == settings.mini_queue
        }),
{
}

/// A drag is remembered while it lasts and forgotten when it is let go. Letting
/// the volume go sets it, wherever it plays; dragging it is heard at once, but
/// only where it plays here. A slider that is left alone does nothing.
pub proof fn law_volume_drag_is_heard_here(
    preview: Option<u32>,
    now: Option<&NowPlaying>,
    muted: bool,
    fraction: u32,
    amount: u8,
)
    ensures
        ({
            let drag = SliderEvent::Dragging { fraction, amount };
            let release = SliderEvent::Committed { amount };
            let left_alone = SliderEvent::<u8>::Untouched;
            let before = if muted { 1int } else { 0 };
            let here = now is None || now->0.local;
            &&& dragged_to(preview, drag) == Some(fraction)
            &&& dragged_to(preview, release) is None
            &&& dragged_to(preview, left_alone) == preview
            &&& muted ==> volume_actions(now, muted, drag)[0] is ToggleMute
            &&& muted ==> volume_actions(now, muted, release)[0] is ToggleMute
            &&& muted ==> volume_actions(now, muted, left_alone)[0] is ToggleMute
            &&& volume_actions(now, muted, left_alone).len() == before
            &&& volume_actions(now, muted, release).len() == before + 1
            &&& volume_actions(now, muted, release).last() == Action::SetVolume(amount)
            &&& here ==> volume_actions(now, muted, drag).len() == before + 1 && volume_actions(
                now,
                muted,
                drag,
            ).last() == Action::PreviewVolume(amount)
            &&& !here ==> volume_actions(now, muted, drag).len() == before
        }),
{
}

/// A seek bar that is let go seeks to where it was let go, if the length of the
/// song is known; nothing else does.
pub proof fn law_seek_on_release(
    preview: Option<u32>,
    duration_ms: u32,
    fraction: u32,
    amount: u32,
)
    ensures
        ({
            let drag = SliderEvent::Dragging { fraction, amount };
            let release = SliderEvent::Committed { amount };
            &&& dragged_to(preview, drag) == Some(fraction)
            &&& dragged_to(preview, release) is None
            &&& dragged_to(preview, SliderEvent::<u32>::Untouched) == preview
            &&& duration_ms > 0 ==> seek_action(duration_ms, release) == Some(Action::Seek(amount))
            &&& duration_ms == 0 ==> seek_action(duration_ms, release) is None
            &&& seek_action(duration_ms, drag) is None
            &&& seek_action(duration_ms, SliderEvent::<u32>::Untouched) is None
        }),
{
}

/// The songs shown are the first of the queue in its order, all of them up to
/// three.
pub proof fn law_first_songs_are_shown<T>(queue: Seq<T>, i: int)
    ensures
        queue.len() <= 3 ==> first_few(queue).len() == queue.len(),
        queue.len() > 3 ==> first_few(queue).len() == 3,
        0 <= i < first_few(queue).len() ==> first_few(queue)[i] == queue[i],
{
}

/// A drag shows where it is dragged to, whatever plays; otherwise what plays
/// shows its own volume, and this machine's shows while nothing does. The icon is
/// mute just at zero, and has a wave more for each third of the range.
pub proof fn law_volume_shows_the_drag_first(
    dragged: u8,
    now: &NowPlaying,
    known: Option<&NowPlaying>,
    own_percent: u8,
    percent: u8,
)
    ensures
        level_shown(Some(dragged), known, own_percent) == dragged,
        level_shown(None, Some(now), own_percent) == now.volume_percent,
        level_shown(None, None, own_percent) == own_percent,
        (icon_for(percent) is VolumeMuted) == (percent == 0),
        (icon_for(percent) is VolumeLow) == (0 < percent && 3 * percent < 100),
        (icon_for(percent) is VolumeMiddle) == (3 * percent >= 100 && 3 * percent < 200),
        (icon_for(percent) is VolumeHigh) == (3 * percent >= 200),
{
}

} // verus!
