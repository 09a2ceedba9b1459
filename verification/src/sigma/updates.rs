//! The Updates window: catalog configuration, focus between Check and Install,
//! and what the dashboard shows for each step of a check or an install.
//!
//! Face buttons on the Updates window: Previous/Next move focus between Check
//! and Install; Select runs the focused action; Back returns home.

use vstd::prelude::*;

use crate::text::{trim_end_char, trim_end_matching};
use crate::ui::{Dashboard, UpdateProps};

verus! {

/// Window index for Updates.
pub const WINDOW: i32 = 9;

pub const FOCUS_CHECK: i32 = 0;
pub const FOCUS_INSTALL: i32 = 1;
pub const FOCUS_COUNT: i32 = 2;

/// One catalog entry, as the catalog service reports it.
#[derive(Debug)]
pub struct ChannelRelease {
    pub channel: String,
    pub version: String,
    pub notes: String,
    pub install: String,
    pub bundle_url: String,
}

impl Clone for ChannelRelease {
    fn clone(&self) -> (r: Self)
        ensures
            r == *self,
    {
        ChannelRelease {
            channel: self.channel.clone(),
            version: self.version.clone(),
            notes: self.notes.clone(),
            install: self.install.clone(),
            bundle_url: self.bundle_url.clone(),
        }
    }
}

/// Where the catalog lives, which channel to follow and what is installed.
#[derive(Debug)]
pub struct UpdatesConfig {
    pub base_url: String,
    pub channel: String,
    pub current_version: String,
}

impl Clone for UpdatesConfig {
    fn clone(&self) -> (r: Self)
        ensures
            r == *self,
    {
        UpdatesConfig {
            base_url: self.base_url.clone(),
            channel: self.channel.clone(),
            current_version: self.current_version.clone(),
        }
    }
}

/// The value of a setting, or its default when it is unset.
pub open spec fn or_default(v: Option<Seq<char>>, default: Seq<char>) -> Seq<char> {
    match v {
        Some(s) => s,
        None => default,
    }
}

fn setting_or(v: Option<String>, default: &str) -> (r: String)
    ensures
        r@ == or_default(
            match v {
                Some(s) => Some(s@),
                None => None,
            },
            default@,
        ),
{
    match v {
        Some(s) => s,
        None => String::from_str(default),
    }
}

impl UpdatesConfig {
    /// The configuration for the given settings (catalog URL, channel and
    /// installed version, each `None` when unset): defaults fill the unset
    /// ones, and trailing slashes are stripped from the URL.
    pub fn from_settings(
        base_url: Option<String>,
        channel: Option<String>,
        current_version: Option<String>,
    ) -> (cfg: Self)
        ensures
            cfg.base_url@ == trim_end_char(
                or_default(
                    match base_url {
                        Some(s) => Some(s@),
                        None => None,
                    },
                    "http://updates.sigma.localtest.me:30080"@,
                ),
                '/',
            ),
            cfg.channel@ == or_default(
                match channel {
                    Some(s) => Some(s@),
                    None => None,
                },
                "dev"@,
            ),
            cfg.current_version@ == or_default(
                match current_version {
                    Some(s) => Some(s@),
                    None => None,
                },
                "0.0.0"@,
            ),
    {
        let url = setting_or(base_url, "http://updates.sigma.localtest.me:30080");
        UpdatesConfig {
            base_url: trim_end_matching(url.as_str(), '/'),
            channel: setting_or(channel, "dev"),
            current_version: setting_or(current_version, "0.0.0"),
        }
    }

    /// `<base_url>/v1/channel/<channel>/latest`.
    pub open spec fn latest_url_spec(&self) -> Seq<char> {
        self.base_url@ + "/v1/channel/"@ + self.channel@ + "/latest"@
    }

    pub fn latest_url(&self) -> (url: String)
        ensures
            url@ == self.latest_url_spec(),
    {
        String::from_str(self.base_url.as_str()).concat("/v1/channel/").concat(
            self.channel.as_str(),
        ).concat("/latest")
    }
}

/// Show the configuration with nothing found and the focus on Check.
pub fn apply_idle(ui: &mut Dashboard, cfg: &UpdatesConfig)
    ensures
        final(ui).updates.channel@ == cfg.channel@,
        final(ui).updates.current_version@ == cfg.current_version@,
        !final(ui).updates.available,
        final(ui).updates.available_version@ == Seq::<char>::empty(),
        final(ui).updates.notes@ == Seq::<char>::empty(),
        !final(ui).updates.busy,
        final(ui).updates.status@ == Seq::<char>::empty(),
        final(ui).updates.focus == FOCUS_CHECK,
        final(ui).current_window == old(ui).current_window,
        final(ui).camera_front == old(ui).camera_front,
        final(ui).conn == old(ui).conn,
        final(ui).speed == old(ui).speed,
{
    ui.updates.channel = cfg.channel.clone();
    ui.updates.current_version = cfg.current_version.clone();
    ui.updates.available = false;
    ui.updates.available_version = String::new();
    ui.updates.notes = String::new();
    ui.updates.busy = false;
    ui.updates.status = String::new();
    ui.updates.focus = FOCUS_CHECK;
}

/// Whether a catalog entry differs from the installed version.
pub open spec fn is_newer(cfg: UpdatesConfig, rel: ChannelRelease) -> bool {
    rel.version@ != cfg.current_version@
}

/// The status line after a catalog entry arrived.
pub open spec fn release_status(newer: bool) -> Seq<char> {
    if newer {
        "Update found — focus Install and press ↓ to apply."@
    } else {
        "Already on the latest catalog version."@
    }
}

/// What showing a catalog entry does to the Updates properties.
pub open spec fn shows_release(
    before: UpdateProps,
    after: UpdateProps,
    cfg: UpdatesConfig,
    rel: ChannelRelease,
) -> bool {
    &&& after.available == is_newer(cfg, rel)
    &&& after.available_version@ == rel.version@
    &&& after.notes@ == rel.notes@
    &&& after.status@ == release_status(is_newer(cfg, rel))
    &&& after.channel == before.channel
    &&& after.current_version == before.current_version
    &&& after.busy == before.busy
    &&& after.focus == before.focus
}

/// Show a catalog entry: whether it is newer, its version and notes.
pub fn apply_release(ui: &mut Dashboard, cfg: &UpdatesConfig, rel: &ChannelRelease)
    ensures
        shows_release(old(ui).updates, final(ui).updates, *cfg, *rel),
        final(ui).current_window == old(ui).current_window,
        final(ui).camera_front == old(ui).camera_front,
        final(ui).conn == old(ui).conn,
        final(ui).speed == old(ui).speed,
{
    let newer = rel.version != cfg.current_version;
    ui.updates.available = newer;
    ui.updates.available_version = rel.version.clone();
    ui.updates.notes = rel.notes.clone();
    ui.updates.status = if newer {
        String::from_str("Update found — focus Install and press ↓ to apply.")
    } else {
        String::from_str("Already on the latest catalog version.")
    };
}

/// Outcome of moving the Updates focus by `delta` from `cur`: the window delta
/// when leaving at an edge, and the new focus.
pub open spec fn focus_moved(cur: i32, delta: i32) -> (Option<i32>, i32) {
    if delta < 0 && cur <= FOCUS_CHECK {
        (Some(-1i32), cur)
    } else if delta > 0 && cur >= FOCUS_INSTALL {
        (Some(1i32), cur)
    } else {
        let next = cur + delta;
        (None, if next < FOCUS_CHECK {
            FOCUS_CHECK
        } else if next > FOCUS_INSTALL {
            FOCUS_INSTALL
        } else {
            next as i32
        })
    }
}

/// Move Updates focus; `Some(window_delta)` when leaving at an edge.
pub fn move_focus(ui: &mut Dashboard, delta: i32) -> (r: Option<i32>)
    ensures
        r == focus_moved(old(ui).updates.focus, delta).0,
        final(ui).updates.focus == focus_moved(old(ui).updates.focus, delta).1,
        final(ui).updates == (UpdateProps { focus: final(ui).updates.focus, ..old(ui).updates }),
        final(ui).current_window == old(ui).current_window,
        final(ui).camera_front == old(ui).camera_front,
        final(ui).conn == old(ui).conn,
        final(ui).speed == old(ui).speed,
{
    let cur = ui.updates.focus;
    if delta < 0 && cur <= FOCUS_CHECK {
        return Some(-1);
    }
    if delta > 0 && cur >= FOCUS_INSTALL {
        return Some(1);
    }
    let next = cur + delta;
    ui.updates.focus = if next < FOCUS_CHECK {
        FOCUS_CHECK
    } else if next > FOCUS_INSTALL {
        FOCUS_INSTALL
    } else {
        next
    };
    None
}

pub fn reset_focus(ui: &mut Dashboard)
    ensures
        final(ui).updates == (UpdateProps { focus: FOCUS_CHECK, ..old(ui).updates }),
        final(ui).current_window == old(ui).current_window,
        final(ui).camera_front == old(ui).camera_front,
        final(ui).conn == old(ui).conn,
        final(ui).speed == old(ui).speed,
{
    ui.updates.focus = FOCUS_CHECK;
}

/// The two actions of the Updates window.
#[derive(Debug, Clone, Copy, PartialEq, Eq, Structural)]
pub enum UpdatesRequest {
    Check,
    Install,
}

/// The action that Select runs: Install when it has the focus, Check otherwise.
pub open spec fn focused_request(focus: i32) -> UpdatesRequest {
    if focus == FOCUS_INSTALL {
        UpdatesRequest::Install
    } else {
        UpdatesRequest::Check
    }
}

/// Activate the focused Updates row (Check or Install): the request that the
/// dashboard then runs.
pub fn activate_focused(ui: &Dashboard) -> (r: UpdatesRequest)
    ensures
        r == focused_request(ui.updates.focus),
{
    if ui.updates.focus == FOCUS_INSTALL {
        UpdatesRequest::Install
    } else {
        UpdatesRequest::Check
    }
}

/// Start a catalog check. Returns `false`, changing nothing, while a check or
/// install is already running; otherwise marks the window busy and searching.
pub fn check_begin(ui: &mut Dashboard) -> (started: bool)
    ensures
        started == !old(ui).updates.busy,
        !started ==> *final(ui) == *old(ui),
        started ==> final(ui).updates == (UpdateProps {
            busy: true,
            status: final(ui).updates.status,
            ..old(ui).updates
        }),
        started ==> final(ui).updates.status@ == "Searching catalog…"@,
        final(ui).current_window == old(ui).current_window,
        final(ui).camera_front == old(ui).camera_front,
        final(ui).conn == old(ui).conn,
        final(ui).speed == old(ui).speed,
{
    if ui.updates.busy {
        return false;
    }
    ui.updates.busy = true;
    ui.updates.status = String::from_str("Searching catalog…");
    true
}

/// What finishing a check does to the Updates properties and the remembered entry.
pub open spec fn check_post(
    before: UpdateProps,
    after: UpdateProps,
    cfg: UpdatesConfig,
    last_before: Option<ChannelRelease>,
    last_after: Option<ChannelRelease>,
    fetched: Result<ChannelRelease, String>,
) -> bool {
    &&& !after.busy
    &&& match fetched {
        Ok(rel) => {
            &&& last_after == Some(rel)
            &&& shows_release(before, UpdateProps { busy: before.busy, focus: before.focus, ..after }, cfg, rel)
            &&& after.focus == if is_newer(cfg, rel) {
                FOCUS_INSTALL
            } else {
                before.focus
            }
        },
        Err(err) => {
            &&& last_after == last_before
            &&& after == (UpdateProps { status: err, available: false, busy: false, ..before })
        },
    }
}

/// Finish a catalog check with what the catalog answered. On success the
/// entry is remembered and shown, and the focus moves to Install when it is
/// newer; on failure the error is shown and nothing is offered. Either way
/// the window is no longer busy.
pub fn check_finish(
    ui: &mut Dashboard,
    cfg: &UpdatesConfig,
    last: &mut Option<ChannelRelease>,
    fetched: Result<ChannelRelease, String>,
)
    ensures
        check_post(old(ui).updates, final(ui).updates, *cfg, *old(last), *final(last), fetched),
        final(ui).current_window == old(ui).current_window,
        final(ui).camera_front == old(ui).camera_front,
        final(ui).conn == old(ui).conn,
        final(ui).speed == old(ui).speed,
{
    match fetched {
        Ok(rel) => {
            *last = Some(rel.clone());
            apply_release(ui, cfg, &rel);
            if rel.version != cfg.current_version {
                ui.updates.focus = FOCUS_INSTALL;
            }
        },
        Err(err) => {
            ui.updates.status = err;
            ui.updates.available = false;
        },
    }
    ui.updates.busy = false;
}

/// Record what a background poll of the catalog answered: a successful answer
/// is remembered and shown; a failed one changes nothing.
pub fn poll_finish(
    ui: &mut Dashboard,
    cfg: &UpdatesConfig,
    last: &mut Option<ChannelRelease>,
    fetched: Result<ChannelRelease, String>,
)
    ensures
        match fetched {
            Ok(rel) => {
                &&& *final(last) == Some(rel)
                &&& shows_release(old(ui).updates, final(ui).updates, *cfg, rel)
                &&& final(ui).current_window == old(ui).current_window
                &&& final(ui).camera_front == old(ui).camera_front
                &&& final(ui).conn == old(ui).conn
                &&& final(ui).speed == old(ui).speed
            },
            Err(_) => *final(last) == *old(last) && *final(ui) == *old(ui),
        },
{
    if let Ok(rel) = fetched {
        *last = Some(rel.clone());
        apply_release(ui, cfg, &rel);
    }
}

/// Where the bundle for an install comes from: the remembered entry's bundle
/// URL when it has one, else the channel's bundle path for `version`.
pub open spec fn bundle_for(
    cfg: UpdatesConfig,
    last: Option<ChannelRelease>,
    version: Seq<char>,
) -> Seq<char> {
    match last {
        Some(rel) if rel.bundle_url@.len() > 0 => rel.bundle_url@,
        _ => cfg.base_url@ + "/v1/channel/"@ + cfg.channel@ + "/bundle/"@ + version + ".raucb"@,
    }
}

/// What Install does to the Updates properties: only the status changes.
pub open spec fn install_post(
    before: UpdateProps,
    after: UpdateProps,
    cfg: UpdatesConfig,
    last: Option<ChannelRelease>,
) -> bool {
    &&& after == (UpdateProps { status: after.status, ..before })
    &&& after.status@ == if !before.available || before.busy {
        "No update to install — run Check for Updates first."@
    } else {
        "Applying "@ + before.available_version@ + " from "@ + bundle_for(cfg, last, before.available_version@)
            + " — RAUC install hooks next; reboot after apply."@
    }
}

/// Run Install. Without a newer entry, or while busy, the status asks for a
/// check first; otherwise it names the version and bundle being applied.
pub fn install_requested(ui: &mut Dashboard, cfg: &UpdatesConfig, last: &Option<ChannelRelease>)
    ensures
        install_post(old(ui).updates, final(ui).updates, *cfg, *last),
        final(ui).current_window == old(ui).current_window,
        final(ui).camera_front == old(ui).camera_front,
        final(ui).conn == old(ui).conn,
        final(ui).speed == old(ui).speed,
{
    if !ui.updates.available || ui.updates.busy {
        ui.updates.status = String::from_str(
            "No update to install — run Check for Updates first.",
        );
        return;
    }
    ui.updates.busy = true;
    let bundle = match last {
        Some(rel) if !rel.bundle_url.as_str().is_empty() => rel.bundle_url.clone(),
        _ => String::from_str(cfg.base_url.as_str()).concat("/v1/channel/").concat(
            cfg.channel.as_str(),
        ).concat("/bundle/").concat(ui.updates.available_version.as_str()).concat(".raucb"),
    };
    let version = ui.updates.available_version.clone();
    ui.updates.status = String::from_str("Applying ").concat(version.as_str()).concat(
        " from ",
    ).concat(bundle.as_str()).concat(" — RAUC install hooks next; reboot after apply.");
    ui.updates.busy = false;
}

/// Previous/Next that stay in the Updates window keep the focus on Check or
/// Install; at an edge they leave towards the adjacent window instead.
pub proof fn lemma_focus_stays_on_a_row(cur: i32, delta: i32)
    requires
        FOCUS_CHECK <= cur <= FOCUS_INSTALL,
        delta == 1 || delta == -1,
    ensures
        focus_moved(cur, delta).0 is None ==> FOCUS_CHECK <= focus_moved(cur, delta).1
            <= FOCUS_INSTALL,
        focus_moved(cur, delta).0 is None <==> (cur == FOCUS_CHECK && delta == 1) || (cur
            == FOCUS_INSTALL && delta == -1),
{
}

/// A check that finds a newer release leaves Install focused, and running
/// Install right after applies exactly that release.
pub proof fn lemma_found_update_installs(
    cfg: UpdatesConfig,
    rel: ChannelRelease,
    before: UpdateProps,
    found: UpdateProps,
    last_before: Option<ChannelRelease>,
    last: Option<ChannelRelease>,
    after: UpdateProps,
)
    requires
        is_newer(cfg, rel),
        check_post(before, found, cfg, last_before, last, Ok(rel)),
        install_post(found, after, cfg, last),
    ensures
        focused_request(found.focus) == UpdatesRequest::Install,
        after.status@ == "Applying "@ + rel.version@ + " from "@ + bundle_for(
            cfg,
            Some(rel),
            rel.version@,
        ) + " — RAUC install hooks next; reboot after apply."@,
{
}

/// Install applies a bundle that is never empty: the remembered entry's own
/// bundle URL when it has one, and otherwise — no entry, or an entry whose
/// bundle URL is empty — the channel's bundle path for the offered version.
pub proof fn lemma_install_names_a_bundle(
    before: UpdateProps,
    after: UpdateProps,
    cfg: UpdatesConfig,
    last: Option<ChannelRelease>,
)
    requires
        install_post(before, after, cfg, last),
        before.available,
        !before.busy,
    ensures
        ({
            let v = before.available_version@;
            let channel_bundle = cfg.base_url@ + "/v1/channel/"@ + cfg.channel@ + "/bundle/"@ + v
                + ".raucb"@;
            let tail = " — RAUC install hooks next; reboot after apply."@;
            &&& (last is None || last.unwrap().bundle_url@.len() == 0) ==> after.status@
                == "Applying "@ + v + " from "@ + channel_bundle + tail
            &&& (last is Some && last.unwrap().bundle_url@.len() > 0) ==> after.status@
                == "Applying "@ + v + " from "@ + last.unwrap().bundle_url@ + tail
            &&& bundle_for(cfg, last, v).len() > 0
        }),
{
    reveal_strlit("/v1/channel/");
}

} // verus!
