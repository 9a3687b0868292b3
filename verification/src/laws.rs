//! Properties that hold across the library's operations.
use vstd::prelude::*;
use crate::badge::{spec_badge_text, spec_other_badge};
use crate::config::{with_position, with_size, AppConfig};
use crate::launch::{
    default_server_url, first_server_arg, hidden_flag, records_first_launch, server_flag,
    spec_after_startup, spec_server_url, spec_start_hidden, Platform,
};
use crate::presence::{
    runs_after, spec_presence_change, spec_worker_step, PresenceChange, WorkerAction,
    WorkerPhase,
};
use crate::text::{
    decimal, decimal_value, digit_char, is_digit, is_prefix, signed_decimal, strip_prefixes,
};
use crate::window::{
    maximised_after, spec_maximise_toggle, spec_restore_plan, spec_throttle_after,
    spec_config_after, spec_visibility_toggle, spec_window_action, visible_after, Extent, Position, RestorePlan,
    WindowAction, WindowEvent, SAVE_INTERVAL_NS,
};

verus! {

/// A position recorded after a move is put back at the next start exactly
/// when one of its coordinates is positive; the recorded size and maximised
/// flag are put back as before.
pub proof fn law_position_round_trip(c: AppConfig, x: i32, y: i32)
    ensures
        spec_restore_plan(with_position(c, x, y).window_state) == (RestorePlan {
            size: spec_restore_plan(c.window_state).size,
            position: if x > 0 || y > 0 {
                Some(Position { x, y })
            } else {
                None
            },
            maximise: c.window_state.is_maximised,
        }),
{
}

/// A size recorded after a resize is put back exactly at the next start when
/// both dimensions lie between 1 and `i32::MAX`; a dimension above `i32::MAX`
/// wraps to a negative value and the size is then not put back. The maximised
/// state recorded with it is put back as it was, and so is the position.
pub proof fn law_size_round_trip(c: AppConfig, width: u32, height: u32, maximised: bool)
    ensures
        0 < width <= i32::MAX && 0 < height <= i32::MAX ==> spec_restore_plan(
            with_size(c, width, height, maximised).window_state,
        ).size == Some(Extent { width: width as i32, height: height as i32 }) && width as i32
            == width && height as i32 == height,
        width > i32::MAX || height > i32::MAX ==> spec_restore_plan(
            with_size(c, width, height, maximised).window_state,
        ).size == None::<Extent>,
        spec_restore_plan(with_size(c, width, height, maximised).window_state).maximise
            == maximised,
        spec_restore_plan(with_size(c, width, height, maximised).window_state).position
            == spec_restore_plan(c.window_state).position,
{
    assert(width > 0x7fff_ffffu32 ==> (width as i32) < 0) by (bit_vector);
    assert(height > 0x7fff_ffffu32 ==> (height as i32) < 0) by (bit_vector);
    assert(width <= 0x7fff_ffffu32 ==> (width as i32) == width) by (bit_vector);
    assert(height <= 0x7fff_ffffu32 ==> (height as i32) == height) by (bit_vector);
}

/// Every resize leaves the configuration recording whether the window is
/// maximised, whether or not the throttle lets its size be saved; the next
/// start then maximises the window exactly when it was. (The configuration
/// given is the one whose maximised state the decision consulted.)
pub proof fn law_maximised_recorded(
    c: AppConfig,
    last_ns: u64,
    width: u32,
    height: u32,
    maximised: bool,
    now_ns: u64,
)
    ensures
        ({
            let a = spec_window_action(
                last_ns,
                c.minimise_to_tray,
                c.window_state.is_maximised,
                WindowEvent::Resized { width, height, maximised },
                now_ns,
            );
            &&& spec_config_after(c, a).window_state.is_maximised == maximised
            &&& spec_restore_plan(spec_config_after(c, a).window_state).maximise == maximised
        }),
{
}

/// Once a move or a resize has been saved at `t1`, neither a position nor a
/// size is saved again before `t1 + SAVE_INTERVAL_NS`; a resize in between
/// saves at most the maximised state.
pub proof fn law_saves_are_spaced(
    last_ns: u64,
    minimise_to_tray: bool,
    saved_maximised: bool,
    first: WindowEvent,
    t1: u64,
    later_saved_maximised: bool,
    second: WindowEvent,
    t2: u64,
)
    requires
        spec_window_action(last_ns, minimise_to_tray, saved_maximised, first, t1) is SavePosition
            || spec_window_action(last_ns, minimise_to_tray, saved_maximised, first, t1) is SaveSize,
        t1 <= t2 < t1 + SAVE_INTERVAL_NS,
    ensures
        ({
            let a = spec_window_action(
                spec_throttle_after(last_ns, first, t1),
                minimise_to_tray,
                later_saved_maximised,
                second,
                t2,
            );
            !(a is SavePosition) && !(a is SaveSize)
        }),
{
}

/// A move or a resize that comes at least `SAVE_INTERVAL_NS` after the last
/// allowed save is always saved.
pub proof fn law_late_events_are_saved(
    last_ns: u64,
    minimise_to_tray: bool,
    saved_maximised: bool,
    event: WindowEvent,
    now_ns: u64,
)
    requires
        now_ns >= last_ns + SAVE_INTERVAL_NS,
    ensures
        event is Moved ==> spec_window_action(
            last_ns,
            minimise_to_tray,
            saved_maximised,
            event,
            now_ns,
        ) is SavePosition,
        event is Resized ==> spec_window_action(
            last_ns,
            minimise_to_tray,
            saved_maximised,
            event,
            now_ns,
        ) is SaveSize,
{
}

/// A close request leaves the save throttle alone, and hides the window
/// instead of closing it exactly when minimising to the tray is on.
pub proof fn law_close_request(
    last_ns: u64,
    minimise_to_tray: bool,
    saved_maximised: bool,
    now_ns: u64,
)
    ensures
        spec_throttle_after(last_ns, WindowEvent::CloseRequested, now_ns) == last_ns,
        (spec_window_action(
            last_ns,
            minimise_to_tray,
            saved_maximised,
            WindowEvent::CloseRequested,
            now_ns,
        ) == WindowAction::HideInsteadOfClosing) == minimise_to_tray,
{
}

/// After a settings change the presence worker runs exactly when the new
/// setting is on, given that it ran exactly when the old one was on.
pub proof fn law_presence_follows_setting(was_enabled: bool, enabled: bool)
    ensures
        runs_after(was_enabled, spec_presence_change(was_enabled, enabled)) == enabled,
{
}

/// Once told to stop, the presence worker neither connects nor sleeps again,
/// and it has finished after at most two more decisions.
pub proof fn law_stopped_worker_finishes(phase: WorkerPhase, first_ok: bool, second_ok: bool)
    ensures
        spec_worker_step(phase, false, first_ok).1 != WorkerAction::Connect,
        !(spec_worker_step(phase, false, first_ok).1 is Sleep),
        spec_worker_step(spec_worker_step(phase, false, first_ok).0, false, second_ok) == (
            WorkerPhase::Done,
            WorkerAction::Finish,
        ),
{
}

/// While it should run, the presence worker never finishes: a failed
/// connection or refresh leads to a reconnect, not to the end.
pub proof fn law_running_worker_keeps_going(phase: WorkerPhase, succeeded: bool)
    requires
        phase != WorkerPhase::Done,
    ensures
        spec_worker_step(phase, true, succeeded).1 != WorkerAction::Finish,
        spec_worker_step(phase, true, succeeded).0 != WorkerPhase::Done,
{
}

/// On Windows and macOS the first launch ends with the first start: a second
/// start enables no autostart and saves nothing. Elsewhere it never ends, so
/// every start enables autostart again.
pub proof fn law_first_launch(c: AppConfig, platform: Platform)
    ensures
        records_first_launch(platform) ==> !spec_after_startup(c, platform).first_launch
            && spec_after_startup(spec_after_startup(c, platform), platform) == spec_after_startup(
            c,
            platform,
        ),
        !records_first_launch(platform) ==> spec_after_startup(c, platform) == c,
{
}

/// Toggling the window's visibility from a known state flips it, and toggling
/// twice brings it back.
pub proof fn law_visibility_toggle(visible: bool)
    ensures
        visible_after(spec_visibility_toggle(Some(visible))) == !visible,
        visible_after(
            spec_visibility_toggle(Some(visible_after(spec_visibility_toggle(Some(visible))))),
        ) == visible,
{
}

/// The maximise button flips the maximised state, and pressing it twice
/// brings the state back.
pub proof fn law_maximise_toggle(maximised: bool)
    ensures
        maximised_after(spec_maximise_toggle(Some(maximised))) == !maximised,
        maximised_after(
            spec_maximise_toggle(Some(maximised_after(spec_maximise_toggle(Some(maximised))))),
        ) == maximised,
{
}

/// The overlay shows "99+" exactly for counts above 99, and the text of a
/// non-negative count never takes more than three characters.
pub proof fn law_badge_text(count: i32)
    ensures
        (spec_badge_text(count) == "99+"@) == (count > 99),
        count >= 0 ==> spec_badge_text(count).len() <= 3,
{
    reveal_strlit("99+");
    if 0 <= count <= 99 {
        let n: nat = count as nat;
        if n >= 10 {
            assert(decimal(n / 10) == seq![crate::text::digit_char(n / 10)]);
        }
        assert(decimal(n).len() <= 2);
    } else if count < 0 {
        assert(signed_decimal(count as int)[0] == '-');
    }
}

/// Outside Windows and macOS the badge shows exactly the positive counts.
pub proof fn law_other_badge(count: i32)
    ensures
        (spec_other_badge(count) is Some) == (count > 0),
{
}

/// Removing the leading copies of a non-empty flag leaves a text that does not
/// begin with it.
pub proof fn law_flag_removed(s: Seq<char>, flag: Seq<char>)
    requires
        flag.len() > 0,
    ensures
        !is_prefix(flag, strip_prefixes(s, flag)),
    decreases s.len(),
{
    if is_prefix(flag, s) {
        law_flag_removed(s.skip(flag.len() as int), flag);
    }
}

/// Without an argument that begins with the server flag, the default server is
/// loaded.
pub proof fn law_default_server(args: Seq<String>)
    requires
        forall|i: int| 0 <= i < args.len() ==> !is_prefix(server_flag(), #[trigger] args[i]@),
    ensures
        spec_server_url(args) == default_server_url(),
    decreases args.len(),
{
    if args.len() > 0 {
        assert(!is_prefix(server_flag(), args[0]@));
        let rest = args.drop_first();
        assert forall|i: int| 0 <= i < rest.len() implies !is_prefix(
            server_flag(),
            #[trigger] rest[i]@,
        ) by {
            assert(rest[i] == args[i + 1]);
        }
        law_default_server(rest);
        assert(first_server_arg(args) == first_server_arg(rest));
    }
}

/// A saved move records exactly the position the window moved to, and a
/// saved resize exactly its size and maximised state; what the configuration
/// then holds is those values, with everything else as before.
pub proof fn law_saved_values_are_the_event_values(
    c: AppConfig,
    last_ns: u64,
    minimise_to_tray: bool,
    saved_maximised: bool,
    event: WindowEvent,
    now_ns: u64,
)
    ensures
        ({
            let a = spec_window_action(last_ns, minimise_to_tray, saved_maximised, event, now_ns);
            let after = spec_config_after(c, a);
            &&& match event {
                WindowEvent::Moved { x, y } => a is SavePosition ==> {
                    &&& a == (WindowAction::SavePosition { x, y })
                    &&& after.window_state.x == x
                    &&& after.window_state.y == y
                    &&& after.window_state.width == c.window_state.width
                    &&& after.window_state.height == c.window_state.height
                    &&& after.window_state.is_maximised == c.window_state.is_maximised
                },
                WindowEvent::Resized { width, height, maximised } => {
                    &&& a is SaveSize ==> {
                        &&& a == (WindowAction::SaveSize { width, height, maximised })
                        &&& after.window_state.width == width as i32
                        &&& after.window_state.height == height as i32
                        &&& after.window_state.is_maximised == maximised
                        &&& after.window_state.x == c.window_state.x
                        &&& after.window_state.y == c.window_state.y
                    }
                    &&& a is SaveMaximised ==> {
                        &&& a == (WindowAction::SaveMaximised { maximised })
                        &&& maximised != saved_maximised
                        &&& after.window_state == (crate::config::WindowState {
                            is_maximised: maximised,
                            ..c.window_state
                        })
                    }
                },
                _ => true,
            }
            &&& (AppConfig { window_state: after.window_state, ..c }) == after
        }),
{
}

/// A move or resize is answered with a save of its own kind, or with nothing
/// (or, for a resize, a save of the maximised state); it never hides or closes
/// the window. A move's position is saved exactly when at least
/// `SAVE_INTERVAL_NS` passed since the last save by the caller's clock.
pub proof fn law_geometry_events(
    last_ns: u64,
    minimise_to_tray: bool,
    saved_maximised: bool,
    x: i32,
    y: i32,
    now_ns: u64,
)
    ensures
        (spec_window_action(
            last_ns,
            minimise_to_tray,
            saved_maximised,
            WindowEvent::Moved { x, y },
            now_ns,
        ) is SavePosition) == (now_ns >= last_ns && now_ns - last_ns >= 300_000_000),
        !(spec_window_action(
            last_ns,
            minimise_to_tray,
            saved_maximised,
            WindowEvent::Moved { x, y },
            now_ns,
        ) is SavePosition) ==> spec_window_action(
            last_ns,
            minimise_to_tray,
            saved_maximised,
            WindowEvent::Moved { x, y },
            now_ns,
        ) == WindowAction::Nothing,
        spec_window_action(last_ns, minimise_to_tray, saved_maximised, WindowEvent::Other, now_ns)
            == WindowAction::Nothing,
{
}

/// The restore plan gives back the recorded values themselves: the size when
/// both dimensions are positive, the position when a coordinate is positive,
/// and the maximised flag.
pub proof fn law_restore_gives_recorded_values(ws: crate::config::WindowState)
    ensures
        (spec_restore_plan(ws).size is Some) == (ws.width > 0 && ws.height > 0),
        spec_restore_plan(ws).size is Some ==> spec_restore_plan(ws).size == Some(
            Extent { width: ws.width, height: ws.height },
        ),
        (spec_restore_plan(ws).position is Some) == (ws.x > 0 || ws.y > 0),
        spec_restore_plan(ws).position is Some ==> spec_restore_plan(ws).position == Some(
            Position { x: ws.x, y: ws.y },
        ),
        spec_restore_plan(ws).maximise == ws.is_maximised,
{
}

/// A hidden start is asked for exactly when some argument, at any position,
/// is "--hidden"; adding "--hidden" anywhere in the command line asks for it.
pub proof fn law_hidden_anywhere(args: Seq<String>, i: int, flag: String, at: int)
    requires
        flag@ == "--hidden"@,
        0 <= at <= args.len(),
    ensures
        0 <= i < args.len() && args[i]@ == "--hidden"@ ==> spec_start_hidden(args),
        (forall|j: int| 0 <= j < args.len() ==> #[trigger] args[j]@ != "--hidden"@)
            ==> !spec_start_hidden(args),
        spec_start_hidden(args.push(flag)),
        spec_start_hidden(args.insert(at, flag)),
{
    if 0 <= i < args.len() && args[i]@ == "--hidden"@ {
        assert(args[i]@ == hidden_flag());
    }
    assert(args.push(flag)[args.len() as int]@ == hidden_flag());
    assert(args.insert(at, flag)[at]@ == hidden_flag());
}

/// The server named by the first argument that begins with the flag is
/// loaded: when that argument is the flag followed by a text that does not
/// itself begin with the flag, the server is that text.
pub proof fn law_first_flag_names_the_server(args: Seq<String>, i: int, value: Seq<char>)
    requires
        0 <= i < args.len(),
        forall|j: int| 0 <= j < i ==> !is_prefix(server_flag(), #[trigger] args[j]@),
        args[i]@ == server_flag() + value,
        !is_prefix(server_flag(), value),
    ensures
        spec_server_url(args) == value,
    decreases i,
{
    reveal_strlit("--force-server=");
    let s = args[i]@;
    assert(s.take(server_flag().len() as int) =~= server_flag());
    assert(s.skip(server_flag().len() as int) =~= value);
    if i == 0 {
        assert(first_server_arg(args) == Some(args[0]));
        assert(strip_prefixes(value, server_flag()) == value);
    } else {
        let rest = args.drop_first();
        assert(!is_prefix(server_flag(), args[0]@));
        assert forall|j: int| 0 <= j < i - 1 implies !is_prefix(
            server_flag(),
            #[trigger] rest[j]@,
        ) by {
            assert(rest[j] == args[j + 1]);
        }
        assert(rest[i - 1] == args[i]);
        law_first_flag_names_the_server(rest, i - 1, value);
        assert(first_server_arg(args) == first_server_arg(rest));
    }
}

/// Start-up changes no setting but the first-launch flag, which it clears on
/// Windows and macOS only.
pub proof fn law_startup_changes_only_first_launch(c: AppConfig, platform: Platform)
    ensures
        spec_after_startup(c, platform) == (AppConfig {
            first_launch: c.first_launch && !records_first_launch(platform),
            ..c
        }),
        records_first_launch(platform) == (platform == Platform::Windows || platform
            == Platform::MacOs),
{
}

/// The outcome of the first send after connecting does not matter; a running
/// worker whose last step succeeded never backs off or ends; after a connected
/// send it waits `REFRESH_INTERVAL_SECS` (30 s) and refreshes; after a failure
/// it waits `RECONNECT_DELAY_SECS` (10 s) and reconnects.
pub proof fn law_worker_schedule(running: bool, phase: WorkerPhase)
    ensures
        spec_worker_step(WorkerPhase::Announcing, running, true) == spec_worker_step(
            WorkerPhase::Announcing,
            running,
            false,
        ),
        running && phase != WorkerPhase::Done ==> spec_worker_step(phase, true, true).0
            != WorkerPhase::BackingOff && spec_worker_step(phase, true, true).0 != WorkerPhase::Done,
        spec_worker_step(WorkerPhase::Announcing, true, true) == (
            WorkerPhase::Waiting,
            WorkerAction::Sleep { secs: 30 },
        ),
        spec_worker_step(WorkerPhase::Refreshing, true, true) == (
            WorkerPhase::Waiting,
            WorkerAction::Sleep { secs: 30 },
        ),
        spec_worker_step(WorkerPhase::Waiting, running, true) == (
            WorkerPhase::Refreshing,
            WorkerAction::SendActivity,
        ),
        spec_worker_step(WorkerPhase::Connecting, true, false) == (
            WorkerPhase::BackingOff,
            WorkerAction::Sleep { secs: 10 },
        ),
        spec_worker_step(WorkerPhase::Refreshing, true, false) == (
            WorkerPhase::BackingOff,
            WorkerAction::Sleep { secs: 10 },
        ),
        spec_worker_step(WorkerPhase::BackingOff, true, true) == (
            WorkerPhase::Connecting,
            WorkerAction::Connect,
        ),
        spec_worker_step(WorkerPhase::Starting, true, true) == (
            WorkerPhase::Connecting,
            WorkerAction::Connect,
        ),
        spec_worker_step(WorkerPhase::Connecting, running, true) == (
            WorkerPhase::Announcing,
            WorkerAction::SendActivity,
        ),
{
}

/// The setting decides the worker: it is started exactly when the setting is
/// turned on and stopped exactly when it is turned off.
pub proof fn law_presence_change_exact(was_enabled: bool, enabled: bool)
    ensures
        (spec_presence_change(was_enabled, enabled) == PresenceChange::Start) == (!was_enabled
            && enabled),
        (spec_presence_change(was_enabled, enabled) == PresenceChange::Stop) == (was_enabled
            && !enabled),
        (spec_presence_change(was_enabled, enabled) == PresenceChange::Unchanged) == (was_enabled
            == enabled),
{
}

/// Outside Windows and macOS a positive count is passed on unchanged, at any
/// size, and any other count removes the badge.
pub proof fn law_other_badge_value(count: i32)
    ensures
        count > 0 ==> spec_other_badge(count) == Some(count as i64),
        count > 0 ==> spec_other_badge(count).unwrap() == count,
        count <= 0 ==> spec_other_badge(count) == None::<i64>,
{
}

/// The decimal notation of `n` is made of digits only, has no leading zero,
/// and denotes `n`.
pub proof fn law_decimal_denotes(n: nat)
    ensures
        decimal_value(decimal(n)) == n,
        forall|i: int| 0 <= i < decimal(n).len() ==> is_digit(#[trigger] decimal(n)[i]),
        decimal(n).len() >= 1,
        decimal(n)[0] == '0' ==> n == 0,
    decreases n,
{
    let d = decimal(n);
    if n < 10 {
        assert(d.len() == 1);
        assert(d.drop_last() =~= Seq::<char>::empty());
        assert(decimal_value(d.drop_last()) == 0);
    } else {
        law_decimal_denotes(n / 10);
        let p = decimal(n / 10);
        assert(d == p.push(digit_char(n % 10)));
        assert(d.drop_last() =~= p);
        assert(d[0] == p[0]);
        assert forall|i: int| 0 <= i < d.len() implies is_digit(#[trigger] d[i]) by {
            if i < p.len() {
                assert(d[i] == p[i]);
            }
        }
    }
}

/// The overlay text of a count up to 99 is a decimal notation that denotes
/// the count (with a minus sign when it is negative); above 99 it is "99+",
/// written in the smaller font.
pub proof fn law_badge_text_denotes(count: i32)
    ensures
        0 <= count <= 99 ==> decimal_value(spec_badge_text(count)) == count,
        count < 0 ==> spec_badge_text(count)[0] == '-' && decimal_value(
            spec_badge_text(count).drop_first(),
        ) == -count,
        count > 99 ==> spec_badge_text(count) == "99+"@,
{
    if 0 <= count {
        law_decimal_denotes(count as nat);
    } else {
        law_decimal_denotes((-count) as nat);
        assert(spec_badge_text(count).drop_first() =~= decimal((-count) as nat));
    }
}

/// The decimal notation of any integer denotes it: a non-negative one as
/// digits alone, a negative one as a minus sign followed by the digits of its
/// magnitude.
pub proof fn law_signed_decimal_denotes(i: int)
    ensures
        i >= 0 ==> decimal_value(signed_decimal(i)) == i && signed_decimal(i)[0] != '-',
        i < 0 ==> signed_decimal(i)[0] == '-' && decimal_value(signed_decimal(i).drop_first())
            == -i,
        forall|k: int| 1 <= k < signed_decimal(i).len() ==> is_digit(#[trigger] signed_decimal(i)[k]),
{
    if i >= 0 {
        law_decimal_denotes(i as nat);
        assert(is_digit(decimal(i as nat)[0]));
    } else {
        law_decimal_denotes((-i) as nat);
        assert(signed_decimal(i).drop_first() =~= decimal((-i) as nat));
        assert forall|k: int| 1 <= k < signed_decimal(i).len() implies is_digit(
            #[trigger] signed_decimal(i)[k],
        ) by {
            assert(signed_decimal(i)[k] == decimal((-i) as nat)[k - 1]);
        }
    }
}

/// The configuration of a first run: every flag on except starting minimised
/// to the tray, and a 1280 by 720 window at the origin, not maximised.
pub proof fn law_default_config()
    ensures
        crate::config::default_config().first_launch,
        crate::config::default_config().custom_frame,
        crate::config::default_config().minimise_to_tray,
        !crate::config::default_config().start_minimised_to_tray,
        crate::config::default_config().spellchecker,
        crate::config::default_config().hardware_acceleration,
        crate::config::default_config().discord_rpc,
        crate::config::default_config().window_state == (crate::config::WindowState {
            x: 0,
            y: 0,
            width: 1280,
            height: 720,
            is_maximised: false,
        }),
{
}

/// The maximise button unmaximises exactly a window known to be maximised,
/// and the show/hide toggle hides exactly a window known to be visible.
pub proof fn law_toggles_exact(state: Option<bool>)
    ensures
        (spec_maximise_toggle(state) == crate::window::MaximiseCommand::Unmaximise) == (state
            == Some(true)),
        (spec_visibility_toggle(state) == crate::window::VisibilityCommand::Hide) == (state
            == Some(true)),
{
}

/// An update check answers with a message that names the installed version
/// and then the new one, or that the client is up to date; a failure is an
/// error that ends with its reason.
pub proof fn law_update_reply(check: crate::commands::UpdateCheck)
    ensures
        match check {
            crate::commands::UpdateCheck::Available { current_version, version } => {
                let r = crate::commands::spec_update_reply(check);
                &&& r is Ok
                &&& r->Ok_0.len() == 18 + current_version@.len() + 4 + version@.len()
                &&& r->Ok_0.subrange(18, 18 + current_version@.len() as int) == current_version@
                &&& r->Ok_0.skip(r->Ok_0.len() - version@.len()) == version@
            },
            crate::commands::UpdateCheck::UpToDate => crate::commands::spec_update_reply(check)
                is Ok,
            crate::commands::UpdateCheck::Failed { reason } => {
                let r = crate::commands::spec_update_reply(check);
                &&& r is Err
                &&& r->Err_0.skip(r->Err_0.len() - reason@.len()) == reason@
            },
            crate::commands::UpdateCheck::UpdaterUnavailable { reason } => {
                let r = crate::commands::spec_update_reply(check);
                &&& r is Err
                &&& r->Err_0.skip(r->Err_0.len() - reason@.len()) == reason@
            },
        },
{
    reveal_strlit("Update available: ");
    reveal_strlit(" -> ");
    match check {
        crate::commands::UpdateCheck::Available { current_version, version } => {
            let m = "Update available: "@ + current_version@ + " -> "@ + version@;
            assert(m.subrange(18, 18 + current_version@.len() as int) =~= current_version@);
            assert(m.skip(m.len() - version@.len()) =~= version@);
        },
        crate::commands::UpdateCheck::Failed { reason } => {
            let m = "Update check failed: "@ + reason@;
            assert(m.skip(m.len() - reason@.len()) =~= reason@);
        },
        crate::commands::UpdateCheck::UpdaterUnavailable { reason } => {
            let m = "Updater not available: "@ + reason@;
            assert(m.skip(m.len() - reason@.len()) =~= reason@);
        },
        _ => {},
    }
}

} // verus!
