//! The desktop showing through the window's edges.
//!
//! One blurred layer sits underneath the whole surface that the interface is
//! drawn on. Windows are told apart by their addresses; no window is at zero.

use vstd::prelude::*;

verus! {

/// The window the layer was put under, or zero. A window rebuilt for the mini
/// player and back takes a new one; comparing the address notices that, where
/// a plain "done once" flag would leave the rebuilt window flat.
#[derive(Clone, Copy, Debug, PartialEq, Eq)]
pub struct Vibrancy {
    pub installed_under: usize,
}

impl Vibrancy {
    /// No layer yet.
    pub fn new() -> (vibrancy: Self)
        ensures
            vibrancy.installed_under == 0,
    {
        Self { installed_under: 0 }
    }
}

/// Whether the desktop is allowed to show through. Off while the person has
/// asked the system to reduce transparency, which is an accessibility setting
/// and not a preference to second-guess. `reduces` is the system's answer, and
/// `None` where it cannot be asked.
pub fn wanted(reduces: Option<bool>) -> (wanted: bool)
    ensures
        wanted == (reduces == Some(false)),
{
    match reduces {
        Some(reduces) => !reduces,
        None => false,
    }
}

/// The window that is due a layer: it is wanted, there is a window, and the
/// layer is not under it already.
pub open spec fn due(vibrancy: Vibrancy, wanted: bool, window: Option<usize>) -> Option<usize> {
    match window {
        Some(window) => if wanted && window != vibrancy.installed_under {
            Some(window)
        } else {
            None
        },
        None => None,
    }
}

/// What is remembered once the layer was to be put under a window.
pub open spec fn put_under(
    vibrancy: Vibrancy,
    under: usize,
    has_content: bool,
    has_frame: bool,
) -> Vibrancy {
    if has_content && has_frame {
        Vibrancy { installed_under: under }
    } else {
        vibrancy
    }
}

/// The window to put the layer under, where one is to be put: the layer is
/// wanted, there is a window, and it has none yet. Safe to ask every frame:
/// the window does not exist for the first of them.
pub fn install(vibrancy: &Vibrancy, wanted: bool, window: Option<usize>) -> (under: Option<usize>)
    ensures
        under == due(*vibrancy, wanted, window),
{
    if !wanted {
        return None;
    }
    match window {
        Some(window) => {
            if vibrancy.installed_under == window {
                None
            } else {
                Some(window)
            }
        }
        None => None,
    }
}

/// Remembers the window that the layer was put under. A window that has no
/// frame to put it in goes without, and is tried again.
pub fn installed(vibrancy: &mut Vibrancy, under: usize, has_content: bool, has_frame: bool) -> (put:
    bool)
    ensures
        put == (has_content && has_frame),
        *final(vibrancy) == put_under(*old(vibrancy), under, has_content, has_frame),
{
    if has_content && has_frame {
        vibrancy.installed_under = under;
        true
    } else {
        false
    }
}

/// Whether the desktop is showing through.
pub open spec fn shows_through(vibrancy: Vibrancy) -> bool {
    vibrancy.installed_under != 0
}

/// Whether the desktop is showing through right now, which is what decides
/// whether the interface paints its chrome translucent.
pub fn active(vibrancy: &Vibrancy) -> (active: bool)
    ensures
        active == shows_through(*vibrancy),
{
    vibrancy.installed_under != 0
}

/// The first window that can be seen.
pub open spec fn first_visible(windows: Seq<(usize, bool)>) -> Option<usize>
    decreases windows.len(),
{
    if windows.len() == 0 {
        None
    } else if windows.first().1 {
        Some(windows.first().0)
    } else {
        first_visible(windows.drop_first())
    }
}

/// The window that counts as the main one: the one that the system says, else
/// the first that can be seen. `windows` are the addresses of the windows and
/// whether each can be seen.
pub fn main_window(main: Option<usize>, windows: &Vec<(usize, bool)>) -> (found: Option<usize>)
    ensures
        main is None ==> found == first_visible(windows@),
        match main {
            Some(main) => found == Some(main),
            None => match found {
                Some(window) => exists|i: int|
                    {
                        &&& 0 <= i < windows@.len()
                        &&& #[trigger] windows@[i] == (window, true)
                        &&& forall|j: int| 0 <= j < i ==> !(#[trigger] windows@[j]).1
                    },
                None => forall|j: int|
                    0 <= j < windows@.len() ==> !(#[trigger] windows@[j]).1,
            },
        },
{
    if main.is_some() {
        return main;
    }
    let mut i: usize = 0;
    assert(windows@.skip(0) =~= windows@);
    while i < windows.len()
        invariant
            main is None,
            first_visible(windows@) == first_visible(windows@.skip(i as int)),
            i <= windows@.len(),
            forall|j: int| 0 <= j < i ==> !(#[trigger] windows@[j]).1,
        decreases windows@.len() - i,
    {
        assert(windows@.skip(i as int).first() == windows@[i as int]);
        assert(windows@.skip(i as int).drop_first() =~= windows@.skip(i + 1));
        let (window, visible): (usize, bool) = windows[i];
        if visible {
            assert(windows@[i as int] == (window, true));
            return Some(window);
        }
        i = i + 1;
    }
    None
}

/// One request to put the layer under the window: whether it is wanted, the
/// window there is, and what that window has.
pub struct Attempt {
    pub wanted: bool,
    pub window: Option<usize>,
    pub has_content: bool,
    pub has_frame: bool,
}

/// Whether an attempt finds everything that it needs to put a layer, where
/// none is under the window yet.
pub open spec fn puts_layer(vibrancy: Vibrancy, attempt: Attempt) -> bool {
    due(vibrancy, attempt.wanted, attempt.window) is Some && attempt.has_content
        && attempt.has_frame
}

/// What is remembered after an attempt.
pub open spec fn attempted(vibrancy: Vibrancy, attempt: Attempt) -> Vibrancy {
    match due(vibrancy, attempt.wanted, attempt.window) {
        Some(under) => put_under(vibrancy, under, attempt.has_content, attempt.has_frame),
        None => vibrancy,
    }
}

/// What is remembered after a run of attempts.
pub open spec fn after_attempts(vibrancy: Vibrancy, attempts: Seq<Attempt>) -> Vibrancy
    decreases attempts.len(),
{
    if attempts.len() == 0 {
        vibrancy
    } else {
        attempted(after_attempts(vibrancy, attempts.drop_last()), attempts.last())
    }
}

/// The desktop shows through right after a layer was put under a window, and an
/// attempt that puts none changes nothing. No window is at zero.
pub proof fn law_showing_follows_the_layer(vibrancy: Vibrancy, attempt: Attempt)
    requires
        attempt.window != Some(0usize),
    ensures
        puts_layer(vibrancy, attempt) ==> shows_through(attempted(vibrancy, attempt))
            && attempted(vibrancy, attempt).installed_under == attempt.window->0,
        !puts_layer(vibrancy, attempt) ==> attempted(vibrancy, attempt) == vibrancy,
        shows_through(vibrancy) ==> shows_through(attempted(vibrancy, attempt)),
{
}

/// Whether attempt `i` of a run from the start, where there is no layer, puts one.
pub open spec fn put_at(attempts: Seq<Attempt>, i: int) -> bool {
    let start = Vibrancy { installed_under: 0 };
    puts_layer(after_attempts(start, attempts.take(i)), attempts[i])
}

/// From the start, where there is no layer, the desktop shows through just when
/// one of the attempts so far has put one.
pub proof fn law_shows_through_once_a_layer_is_put(attempts: Seq<Attempt>)
    requires
        forall|i: int|
            0 <= i < attempts.len() ==> (#[trigger] attempts[i]).window != Some(0usize),
    ensures
        shows_through(after_attempts(Vibrancy { installed_under: 0 }, attempts)) == exists|i: int|
            0 <= i < attempts.len() && #[trigger] put_at(attempts, i),
    decreases attempts.len(),
{
    let start = Vibrancy { installed_under: 0 };
    if attempts.len() > 0 {
        let before = attempts.drop_last();
        let last = attempts.len() - 1;
        assert forall|i: int| 0 <= i < before.len() implies (#[trigger] before[i]).window != Some(
            0usize,
        ) by {
            assert(before[i] == attempts[i]);
        }
        law_shows_through_once_a_layer_is_put(before);
        law_showing_follows_the_layer(after_attempts(start, before), attempts[last]);
        assert forall|i: int| 0 <= i < last implies #[trigger] put_at(attempts, i) == put_at(
            before,
            i,
        ) by {
            assert(before.take(i) =~= attempts.take(i));
        }
        assert(attempts.take(last) =~= before);
        assert(put_at(attempts, last) == puts_layer(
            after_attempts(start, before),
            attempts[last],
        ));
        if shows_through(after_attempts(start, before)) {
            let i = choose|i: int| 0 <= i < before.len() && #[trigger] put_at(before, i);
            assert(put_at(attempts, i));
        }
    }
}

/// The layer is put under a window once, and a window that has been rebuilt
/// gets its own. One that could not take the layer is still due it.
pub proof fn law_layer_is_put_once(vibrancy: Vibrancy, window: usize, rebuilt: usize)
    requires
        rebuilt != window,
    ensures
        due(put_under(vibrancy, window, true, true), true, Some(window)) is None,
        due(put_under(vibrancy, window, true, true), true, Some(rebuilt)) == Some(rebuilt),
        due(put_under(vibrancy, window, true, false), true, Some(window)) == due(
            vibrancy,
            true,
            Some(window),
        ),
        due(put_under(vibrancy, window, false, true), true, Some(window)) == due(
            vibrancy,
            true,
            Some(window),
        ),
{
}

/// A window is due the layer just when the layer is wanted and is not under that
/// window yet, and it is always the window itself that is due it.
pub proof fn law_layer_is_due_where_wanted(vibrancy: Vibrancy, wanted: bool, window: usize)
    ensures
        due(vibrancy, wanted, None) is None,
        due(vibrancy, false, Some(window)) is None,
        vibrancy.installed_under == window ==> due(vibrancy, wanted, Some(window)) is None,
        wanted && vibrancy.installed_under != window ==> due(vibrancy, wanted, Some(window))
            == Some(window),
        shows_through(vibrancy) == (vibrancy.installed_under > 0),
{
}

/// The first window in sight is one that can be seen with none before it that
/// can; there is none just when no window can be seen.
pub proof fn law_first_window_in_sight(windows: Seq<(usize, bool)>, at: int)
    requires
        0 <= at <= windows.len(),
        forall|j: int| 0 <= j < at ==> !(#[trigger] windows[j]).1,
    ensures
        at < windows.len() && windows[at].1 ==> first_visible(windows) == Some(windows[at].0),
        at == windows.len() ==> first_visible(windows) is None,
    decreases windows.len(),
{
    if at > 0 {
        let rest = windows.drop_first();
        assert(!windows[0].1);
        assert forall|j: int| 0 <= j < at - 1 implies !(#[trigger] rest[j]).1 by {
            assert(rest[j] == windows[j + 1]);
        }
        law_first_window_in_sight(rest, at - 1);
    }
}

} // verus!
