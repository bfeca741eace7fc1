use egui::util::IdTypeMap;
use egui::Id;
use fastpotify::links::{deliver, enqueue, install, ControlCommand, Delivery, Install, Links};
use fastpotify::mini::{
    art_url, asked_at, coming_up, details, fit_window, grip_dot, ground_tint, last_pos, like,
    panel, picked_row, position, progress, queue_notice, queue_row_rise, set_settings_open, settings_open, show, top_bar,
    transport, volume, volume_icon, volume_shown, wheel, window_size, Action, Button, Icon,
    NowPlaying, PanelRow, Settings, SliderEvent, ART, CORNER, GAP, PAD, PROGRESS, QUEUE_ROW,
    QUEUE_ROWS, SUBTITLE, TITLE, TOPBAR, WIDTH,
};
use fastpotify::skeleton::{
    actions, block, hero, lines, tones, track_rows, Block, CornerRadius,
};
use fastpotify::vibrancy::{active, installed, main_window, wanted, Vibrancy};

fn plain_settings() -> Settings {
    Settings {
        mini_tinted: false,
        mini_queue: false,
        mini_on_top: false,
    }
}

#[test]
fn the_window_is_tall_enough_for_everything_it_draws() {
    let size = window_size(&plain_settings());
    assert_eq!(size.width, WIDTH);
    assert_eq!(
        size.height,
        TOPBAR + ART + GAP + TITLE + SUBTITLE + PROGRESS + PAD
    );
    assert!(
        size.height > size.width,
        "the art is square, so the window has to be taller than it is wide"
    );
}

#[test]
fn the_art_is_most_of_the_window() {
    let size = window_size(&plain_settings());
    assert_eq!(ART, size.width - 2 * PAD);
    assert!(
        ART as f32 > size.width as f32 * 0.85,
        "the art stopped being most of the window, which is the whole point"
    );
}

#[test]
fn asking_for_the_queue_makes_room_for_it() {
    let plain = window_size(&plain_settings());
    let with_queue = window_size(&Settings {
        mini_queue: true,
        ..plain_settings()
    });
    assert_eq!(with_queue.width, plain.width, "the queue widened the window");
    let grew = with_queue.height - plain.height;
    assert!(
        grew >= QUEUE_ROW * QUEUE_ROWS as u32,
        "three rows were promised and {grew} points arrived"
    );
}

#[test]
fn the_window_has_its_size_in_points() {
    let size = window_size(&plain_settings());
    assert_eq!((size.width, size.height), (250, 324));
    let size = window_size(&Settings {
        mini_queue: true,
        ..plain_settings()
    });
    assert_eq!((size.width, size.height), (250, 434));
    assert_eq!(CORNER, 12);
    let rises: Vec<u32> = (0..QUEUE_ROWS).map(queue_row_rise).collect();
    assert_eq!(rises, vec![112, 78, 44]);
}

#[test]
fn a_size_is_asked_for_once_and_only_where_it_does_not_fit() {
    let mut data = IdTypeMap::default();
    let window = Id::new("mini-fit-asked");
    assert!(!fit_window(&mut data, window, true, false, 1));
    assert_eq!(asked_at(&data, window), None);
    assert!(fit_window(&mut data, window, false, true, 2));
    assert_eq!(asked_at(&data, window), Some(2));
    assert!(!fit_window(&mut data, window, false, true, 3));
    assert_eq!(asked_at(&data, window), Some(2));
    assert!(fit_window(&mut data, window, false, false, 4));
    assert_eq!(asked_at(&data, window), Some(4));
    assert!(!fit_window(&mut data, window, true, false, 5));
    assert_eq!(asked_at(&data, window), Some(4));
}

#[test]
fn the_last_place_is_kept_where_the_desktop_tells_none() {
    let mut kept = None;
    last_pos(&mut kept, None);
    assert_eq!(kept, None);
    last_pos(&mut kept, Some((1, 2)));
    assert_eq!(kept, Some((1, 2)));
    last_pos(&mut kept, None);
    assert_eq!(kept, Some((1, 2)));
    last_pos(&mut kept, Some((3, 4)));
    assert_eq!(kept, Some((3, 4)));
}

fn song() -> NowPlaying {
    NowPlaying {
        uri: "spotify:track:1".to_owned(),
        title: "Song".to_owned(),
        subtitle: "Band".to_owned(),
        art_url: Some("large".to_owned()),
        art_small: Some("small".to_owned()),
        is_episode: false,
        position_ms: 1_000,
        duration_ms: 4_000,
        volume_percent: 40,
        local: true,
    }
}

#[test]
fn the_large_picture_is_preferred() {
    let mut now = song();
    assert_eq!(art_url(Some(&now)).as_deref(), Some("large"));
    now.art_url = None;
    assert_eq!(art_url(Some(&now)).as_deref(), Some("small"));
    now.art_small = None;
    assert_eq!(art_url(Some(&now)), None);
    assert_eq!(art_url(None), None);
}

#[test]
fn the_ground_takes_its_colour_only_where_asked() {
    let tinted = Settings {
        mini_tinted: true,
        ..plain_settings()
    };
    assert_eq!(ground_tint(&tinted, Some(7)), Some(7));
    assert_eq!(ground_tint::<u8>(&tinted, None), None);
    assert_eq!(ground_tint(&plain_settings(), Some(7)), None);
}

#[test]
fn a_notch_of_the_wheel_is_five_percent() {
    assert!(wheel(0).is_none());
    assert!(matches!(wheel(1), Some(Action::VolumeBy(5))));
    assert!(matches!(wheel(-3), Some(Action::VolumeBy(-15))));
    assert!(matches!(wheel(20), Some(Action::VolumeBy(100))));
    assert!(matches!(wheel(21), Some(Action::VolumeBy(100))));
    assert!(matches!(wheel(-400), Some(Action::VolumeBy(-100))));
}

#[test]
fn open_settings_hide_everything_else() {
    let settings = Settings {
        mini_queue: true,
        ..plain_settings()
    };
    let open = show(&settings, true, true);
    assert!(open.panel && !open.transport && !open.details && !open.queue);
    let lit = show(&settings, false, true);
    assert!(!lit.panel && lit.transport && lit.details && lit.queue);
    let dark = show(&plain_settings(), false, false);
    assert!(!dark.panel && !dark.transport && dark.details && !dark.queue);
}

#[test]
fn the_gear_opens_and_closes_the_settings() {
    let mut data = IdTypeMap::default();
    let sheet = Id::new("mini-settings");
    assert!(!settings_open(&data, sheet));
    assert!(top_bar(&mut data, sheet, false, true).is_none());
    assert!(settings_open(&data, sheet));
    assert!(matches!(
        top_bar(&mut data, sheet, true, false),
        Some(Action::ToggleMiniPlayer)
    ));
    assert!(settings_open(&data, sheet));
    top_bar(&mut data, sheet, false, true);
    assert!(!settings_open(&data, sheet));
    set_settings_open(&mut data, sheet, true);
    assert!(settings_open(&data, sheet));
}

#[test]
fn the_grip_is_two_rows_of_three() {
    let dots: Vec<(u32, u32)> = (0..6).map(grip_dot).collect();
    assert_eq!(dots, vec![(0, 0), (1, 0), (2, 0), (0, 1), (1, 1), (2, 1)]);
}

#[test]
fn picking_a_row_switches_its_setting() {
    let mut data = IdTypeMap::default();
    let sheet = Id::new("mini-settings");
    set_settings_open(&mut data, sheet, true);
    let mut settings = plain_settings();
    let action = panel(
        &mut settings,
        &mut data,
        sheet,
        Some(PanelRow::Background),
        false,
    );
    assert!(matches!(action, Some(Action::SettingsChanged)));
    assert!(settings.mini_tinted);
    panel(&mut settings, &mut data, sheet, Some(PanelRow::Queue), false);
    assert!(settings.mini_queue);
    panel(&mut settings, &mut data, sheet, Some(PanelRow::Queue), false);
    assert!(!settings.mini_queue);
    let action = panel(&mut settings, &mut data, sheet, Some(PanelRow::OnTop), false);
    assert!(matches!(action, Some(Action::ToggleMiniOnTop)));
    assert!(!settings.mini_on_top, "the player switches that one");
    assert!(settings_open(&data, sheet));
    assert!(panel(&mut settings, &mut data, sheet, None, true).is_none());
    assert!(!settings_open(&data, sheet));
}

#[test]
fn the_last_row_that_changed_counts() {
    assert_eq!(picked_row(false, false, false), None);
    assert_eq!(picked_row(true, false, false), Some(PanelRow::Background));
    assert_eq!(picked_row(true, true, false), Some(PanelRow::Queue));
    assert_eq!(picked_row(true, true, true), Some(PanelRow::OnTop));
}

#[test]
fn the_rows_of_the_settings_say_what_they_switch() {
    let settings = Settings {
        mini_tinted: true,
        mini_queue: false,
        mini_on_top: true,
    };
    assert_eq!(PanelRow::Background.label(), "Background colour");
    assert_eq!(PanelRow::Queue.label(), "Queue");
    assert_eq!(PanelRow::OnTop.label(), "Stay on top");
    assert!(PanelRow::Background.is_on(&settings));
    assert!(!PanelRow::Queue.is_on(&settings));
    assert!(PanelRow::OnTop.is_on(&settings));
}

#[test]
fn the_buttons_are_centred_on_the_art() {
    let slots: Vec<(i32, i32)> = [Button::Previous, Button::Play, Button::Next]
        .iter()
        .map(|button| {
            let slot = button.slot();
            (slot.center, slot.width)
        })
        .collect();
    assert_eq!(slots, vec![(-57, 34), (0, 52), (57, 34)]);
    assert!(matches!(transport(Button::Previous), Action::Previous));
    assert!(matches!(transport(Button::Play), Action::TogglePlay));
    assert!(matches!(transport(Button::Next), Action::Next));
    assert_eq!(Button::Play.icon(true), Icon::Pause);
    assert_eq!(Button::Play.icon(false), Icon::Play);
    assert_eq!(Button::Previous.icon(true), Icon::SkipBack);
    assert_eq!(Button::Next.icon(false), Icon::SkipForward);
}

#[test]
fn the_volume_shows_what_is_dragged_to_first() {
    let now = song();
    assert_eq!(volume_shown(Some(12), Some(&now), 90), 12);
    assert_eq!(volume_shown(None, Some(&now), 90), 40);
    assert_eq!(volume_shown(None, None, 90), 90);
    assert_eq!(volume_icon(0), Icon::VolumeMuted);
    assert_eq!(volume_icon(1), Icon::VolumeLow);
    assert_eq!(volume_icon(33), Icon::VolumeLow);
    assert_eq!(volume_icon(34), Icon::VolumeMiddle);
    assert_eq!(volume_icon(66), Icon::VolumeMiddle);
    assert_eq!(volume_icon(67), Icon::VolumeHigh);
    assert_eq!(volume_icon(255), Icon::VolumeHigh);
}

#[test]
fn a_drag_is_heard_here_and_sent_elsewhere_when_let_go() {
    let here = song();
    let mut elsewhere = song();
    elsewhere.local = false;
    let drag = || SliderEvent::Dragging {
        fraction: 9,
        amount: 30,
    };
    let mut preview = None;
    let done = volume(&mut preview, Some(&here), false, drag());
    assert!(matches!(done[..], [Action::PreviewVolume(30)]));
    assert_eq!(preview, Some(9));
    assert!(volume(&mut preview, Some(&elsewhere), false, drag()).is_empty());
    assert_eq!(volume(&mut preview, None, false, drag()).len(), 1);
    let done = volume(&mut preview, None, true, SliderEvent::Untouched);
    assert!(matches!(done[..], [Action::ToggleMute]));
    assert_eq!(preview, Some(9));
    let done = volume(
        &mut preview,
        Some(&elsewhere),
        true,
        SliderEvent::Committed { amount: 31 },
    );
    assert!(matches!(
        done[..],
        [Action::ToggleMute, Action::SetVolume(31)]
    ));
    assert_eq!(preview, None);
}

#[test]
fn the_lines_under_the_art_tell_what_plays() {
    let mut now = song();
    let lines = details(Some(&now), Some(true));
    assert_eq!(lines.title, "Song");
    assert_eq!(lines.subtitle, "Band");
    assert!(lines.likeable && lines.saved);
    assert!(!details(Some(&now), None).saved);
    assert!(matches!(
        like(Some(&now), true),
        Some(Action::ToggleSaved(uri)) if uri == "spotify:track:1"
    ));
    assert!(like(Some(&now), false).is_none());
    now.is_episode = true;
    assert!(!details(Some(&now), Some(true)).likeable);
    assert!(like(Some(&now), true).is_none());
    let nothing = details(None, Some(true));
    assert_eq!(nothing.title, "Nothing playing");
    assert_eq!(nothing.subtitle, "");
    assert!(!nothing.likeable && !nothing.saved);
    assert!(like(None, true).is_none());
}

#[test]
fn a_seek_needs_somewhere_to_go() {
    assert_eq!(position(Some(&song())), (1_000, 4_000));
    assert_eq!(position(None), (0, 0));
    let mut preview = None;
    let drag = SliderEvent::Dragging {
        fraction: 5,
        amount: 100,
    };
    assert!(progress(&mut preview, 4_000, drag).is_none());
    assert_eq!(preview, Some(5));
    assert!(progress(&mut preview, 4_000, SliderEvent::Untouched).is_none());
    assert_eq!(preview, Some(5));
    let release = || SliderEvent::Committed { amount: 100 };
    assert!(matches!(
        progress(&mut preview, 4_000, release()),
        Some(Action::Seek(100))
    ));
    assert_eq!(preview, None);
    preview = Some(1);
    assert!(progress(&mut preview, 0, release()).is_none());
    assert_eq!(preview, None);
}

#[test]
fn the_queue_shows_its_first_few_songs() {
    let queue = vec!["a", "b", "c", "d"];
    assert_eq!(coming_up(Some(&queue)), vec![&"a", &"b", &"c"]);
    assert_eq!(coming_up(Some(&vec![1])), vec![&1]);
    assert!(coming_up::<u8>(None).is_empty());
    assert_eq!(queue_notice(0), Some("Nothing queued"));
    assert_eq!(queue_notice(1), None);
}

#[test]
fn a_placeholder_sits_on_one_side_of_the_page() {
    assert_eq!(tones(true, 1, 2), (1, 2));
    assert_eq!(tones(false, 1, 2), (2, 1));
}

#[test]
fn only_the_outermost_pieces_are_rounded() {
    assert!(matches!(block(false, Some(3), 4), Block::Hidden));
    match block(true, None, 9) {
        Block::Whole(rounding) => assert_eq!(
            rounding,
            CornerRadius {
                nw: 9,
                ne: 9,
                sw: 9,
                se: 9
            }
        ),
        _ => panic!("a circle came in pieces"),
    }
    let pieces = |count: usize| match block(true, Some(count), 4) {
        Block::Pieces(pieces) => pieces
            .iter()
            .map(|piece| (piece.nw, piece.sw, piece.ne, piece.se))
            .collect::<Vec<_>>(),
        _ => panic!("a bar came whole"),
    };
    assert_eq!(pieces(3), vec![(4, 4, 0, 0), (0, 0, 0, 0), (0, 0, 4, 4)]);
    assert_eq!(pieces(1), vec![(4, 4, 4, 4)]);
}

#[test]
fn the_lines_of_a_placeholder_differ_in_length() {
    let rows: Vec<(u32, u32)> = track_rows(6, false)
        .iter()
        .map(|row| (row.cover, row.stretch))
        .collect();
    assert_eq!(
        rows,
        vec![(40, 34), (40, 27), (40, 42), (40, 30), (40, 38), (40, 34)]
    );
    assert_eq!(lines(6), vec![62, 48, 71, 55, 40, 62]);
    assert!(lines(0).is_empty());
}

#[test]
fn covers_have_the_size_of_the_real_ones() {
    assert_eq!(track_rows(1, true)[0].cover, 36);
    let cover = |wide: bool, round: bool| {
        let cover = hero(wide, round);
        (cover.size, cover.radius)
    };
    assert_eq!(cover(true, true), (212, 106));
    assert_eq!(cover(true, false), (212, 6));
    assert_eq!(cover(false, true), (160, 80));
    assert_eq!(cover(false, false), (160, 6));
    let discs: Vec<(u32, u32)> = actions().iter().map(|d| (d.center, d.size)).collect();
    assert_eq!(discs, vec![(28, 56), (91, 26), (139, 26)]);
}

#[test]
fn the_desktop_shows_through_only_where_it_may() {
    assert!(wanted(Some(false)));
    assert!(!wanted(Some(true)));
    assert!(!wanted(None));
}

#[test]
fn the_layer_goes_under_each_window_once() {
    let mut vibrancy = Vibrancy::new();
    assert!(!active(&vibrancy));
    let due = |vibrancy: &Vibrancy, wanted: bool, window: Option<usize>| {
        fastpotify::vibrancy::install(vibrancy, wanted, window)
    };
    assert_eq!(due(&vibrancy, true, None), None);
    assert_eq!(due(&vibrancy, false, Some(8)), None);
    assert_eq!(due(&vibrancy, true, Some(8)), Some(8));
    assert!(!installed(&mut vibrancy, 8, true, false));
    assert!(!installed(&mut vibrancy, 8, false, true));
    assert!(!active(&vibrancy), "nothing was put under it");
    assert_eq!(due(&vibrancy, true, Some(8)), Some(8));
    assert!(installed(&mut vibrancy, 8, true, true));
    assert!(active(&vibrancy));
    assert_eq!(due(&vibrancy, true, Some(8)), None);
    assert_eq!(due(&vibrancy, true, Some(16)), Some(16), "it was rebuilt");
}

#[test]
fn the_main_window_is_the_systems_or_the_first_in_sight() {
    let windows = vec![(1, false), (2, true), (3, true)];
    assert_eq!(main_window(Some(9), &windows), Some(9));
    assert_eq!(main_window(None, &windows), Some(2));
    assert_eq!(main_window(None, &vec![(1, false)]), None);
}

#[test]
fn links_reach_the_queue_installed_last() {
    let mut links: Links<u8> = Links::new();
    assert!(matches!(
        deliver(&links, Some("spotify:track:1".to_owned())),
        Delivery::Dropped
    ));
    assert_eq!(install(&mut links, false, 1), Install::WrongThread);
    assert!(links.sink.is_none());
    assert_eq!(install(&mut links, true, 1), Install::Register);
    assert_eq!(install(&mut links, true, 2), Install::Replaced);
    assert_eq!(links.sink, Some(2));
    assert!(matches!(deliver(&links, None), Delivery::NotALink));
    let mut commands = Vec::new();
    assert!(!enqueue(&mut commands, Delivery::NotALink));
    assert!(!enqueue(&mut commands, Delivery::Dropped));
    assert!(commands.is_empty());
    let delivery = deliver(&links, Some("spotify:track:1".to_owned()));
    assert!(enqueue(&mut commands, delivery));
    assert!(matches!(
        &commands[..],
        [ControlCommand::OpenLink(uri)] if uri == "spotify:track:1"
    ));
}
