//! Display refresh rate management: the decisions behind detecting the display server,
//! finding the session user and picking a display mode.
use crate::text::{
    chars_eq, chars_of, contains, contains_chars, eq_lit, lines, lines_chars, push_all,
    push_str, remove_all, remove_all_chars, split_once, split_once_chars, starts_with,
    starts_with_chars, string_of, string_views, trim, trim_chars, trim_start, trim_start_chars,
    views, words, words_chars, lemma_string_views_push, lemma_map_push, lemma_parse_unsigned_range,
    parse_unsigned, parse_unsigned_chars, slice,
};
use vstd::prelude::*;

verus! {

/// Display refresh rate configuration
#[derive(Debug, Clone, Copy, PartialEq, Eq)]
pub struct RefreshRateConfig {
    pub enabled: bool,
    pub battery: u32,
    pub balanced: u32,
    pub performance: u32,
}

impl Default for RefreshRateConfig {
    fn default() -> (c: Self)
        ensures
            c == default_refresh_rate_config(),
    {
        Self { enabled: true, battery: 60, balanced: 60, performance: 165 }
    }
}

pub open spec fn default_refresh_rate_config() -> RefreshRateConfig {
    RefreshRateConfig { enabled: true, battery: 60, balanced: 60, performance: 165 }
}

/// Display mode specification - can be explicit mode string or resolution + refresh rate
#[derive(Debug, Clone)]
pub enum ModeSpec {
    /// Explicit mode string (e.g., "2560x1440@165.001+vrr")
    ModeString(String),
    /// Resolution and refresh rate (width, height, hz)
    ResolutionAndRate(u32, u32, u32),
}

/// What a `ModeSpec` holds, with the mode string as its characters.
pub enum ModeSpecView {
    ModeString(Seq<char>),
    ResolutionAndRate(u32, u32, u32),
}

impl View for ModeSpec {
    type V = ModeSpecView;

    open spec fn view(&self) -> ModeSpecView {
        match self {
            ModeSpec::ModeString(s) => ModeSpecView::ModeString(s@),
            ModeSpec::ResolutionAndRate(w, h, r) => ModeSpecView::ResolutionAndRate(*w, *h, *r),
        }
    }
}

impl ModeSpec {
    /// A copy of the specification.
    pub fn duplicate(&self) -> (m: Self)
        ensures
            m@ == self@,
    {
        match self {
            ModeSpec::ModeString(s) => ModeSpec::ModeString(s.clone()),
            ModeSpec::ResolutionAndRate(w, h, r) => ModeSpec::ResolutionAndRate(*w, *h, *r),
        }
    }
}

pub open spec fn mode_view(m: Option<ModeSpec>) -> Option<ModeSpecView> {
    match m {
        Some(s) => Some(s@),
        None => None,
    }
}

/// Display mode configuration for AC auto-switching
/// This allows changing both resolution and refresh rate when plugging/unplugging AC
#[derive(Debug, Clone)]
pub struct DisplayModeConfig {
    pub enabled: bool,
    pub ac_mode: Option<ModeSpec>,
    pub battery_mode: Option<ModeSpec>,
}

impl Default for DisplayModeConfig {
    fn default() -> (c: Self)
        ensures
            !c.enabled,
            c.ac_mode is None,
            c.battery_mode is None,
    {
        Self { enabled: false, ac_mode: None, battery_mode: None }
    }
}

/// Display server types
#[derive(Debug, Clone, Copy, PartialEq, Eq)]
pub enum DisplayServer {
    GnomeWayland,
    Wayland,
    X11,
    Unknown,
}

/// What went wrong controlling the display.
#[derive(Debug)]
pub enum DisplayError {
    /// Running a command or reading a file failed.
    Io(String),
    CommandFailed { command: String, stderr: String },
    ModeNotFound { display: String, spec: String },
    UnsupportedBackend(String),
    SessionNotFound,
}

/// The display server that session environment variables point to: GNOME on Wayland for
/// a Wayland session whose desktop mentions GNOME, else Wayland when a Wayland display is
/// set, else X11 when an X display is set.
pub open spec fn server_from(
    session_type: Option<Seq<char>>,
    current_desktop: Option<Seq<char>>,
    wayland_display: Option<Seq<char>>,
    x11_display: Option<Seq<char>>,
) -> Option<DisplayServer> {
    if session_type == Some("wayland"@) && (current_desktop matches Some(d) && contains(
        d,
        "GNOME"@,
    )) {
        Some(DisplayServer::GnomeWayland)
    } else if wayland_display is Some {
        Some(DisplayServer::Wayland)
    } else if x11_display is Some {
        Some(DisplayServer::X11)
    } else {
        None
    }
}

/// What the session tells of its display server: GNOME on Wayland exactly for a
/// `wayland` session whose desktop names GNOME; else a Wayland display socket means
/// Wayland, and an X display without one means X11; with none of these nothing is known.
pub proof fn lemma_server_from_markers(
    session_type: Option<Seq<char>>,
    current_desktop: Option<Seq<char>>,
    wayland_display: Option<Seq<char>>,
    x11_display: Option<Seq<char>>,
)
    ensures
        (server_from(session_type, current_desktop, wayland_display, x11_display) == Some(
            DisplayServer::GnomeWayland,
        )) <==> (session_type == Some("wayland"@) && (current_desktop matches Some(d) && contains(
            d,
            "GNOME"@,
        ))),
        (server_from(session_type, current_desktop, wayland_display, x11_display) == Some(
            DisplayServer::Wayland,
        )) ==> wayland_display is Some,
        (server_from(session_type, current_desktop, wayland_display, x11_display) == Some(
            DisplayServer::X11,
        )) <==> (x11_display is Some && wayland_display is None && server_from(
            session_type,
            current_desktop,
            wayland_display,
            x11_display,
        ) != Some(DisplayServer::GnomeWayland)),
        (server_from(session_type, current_desktop, wayland_display, x11_display) is None) <==> (
        wayland_display is None && x11_display is None && server_from(
            session_type,
            current_desktop,
            wayland_display,
            x11_display,
        ) != Some(DisplayServer::GnomeWayland)),
        server_from(session_type, current_desktop, wayland_display, x11_display) != Some(
            DisplayServer::Unknown,
        ),
{
}

pub open spec fn str_opt(s: Option<&str>) -> Option<Seq<char>> {
    match s {
        Some(v) => Some(v@),
        None => None,
    }
}

fn server_from_exec(
    session_type: Option<&Vec<char>>,
    current_desktop: Option<&Vec<char>>,
    wayland_display: bool,
    x11_display: bool,
) -> (r: Option<DisplayServer>)
    ensures
        r == server_from(
            match session_type {
                Some(v) => Some(v@),
                None => None,
            },
            match current_desktop {
                Some(v) => Some(v@),
                None => None,
            },
            if wayland_display {
                Some(Seq::empty())
            } else {
                None
            },
            if x11_display {
                Some(Seq::empty())
            } else {
                None
            },
        ),
{
    let wayland_session = match session_type {
        Some(t) => eq_lit(t, "wayland"),
        None => false,
    };
    let gnome = match current_desktop {
        Some(d) => contains_chars(d, &chars_of("GNOME")),
        None => false,
    };
    if wayland_session && gnome {
        Some(DisplayServer::GnomeWayland)
    } else if wayland_display {
        Some(DisplayServer::Wayland)
    } else if x11_display {
        Some(DisplayServer::X11)
    } else {
        None
    }
}

/// Detect display server from the environment variables of the current process.
pub fn detect_from_env(
    session_type: Option<&str>,
    current_desktop: Option<&str>,
    wayland_display: Option<&str>,
    x11_display: Option<&str>,
) -> (r: Option<DisplayServer>)
    ensures
        r == server_from(
            str_opt(session_type),
            str_opt(current_desktop),
            str_opt(wayland_display),
            str_opt(x11_display),
        ),
{
    let t = match session_type {
        Some(v) => Some(chars_of(v)),
        None => None,
    };
    let d = match current_desktop {
        Some(v) => Some(chars_of(v)),
        None => None,
    };
    server_from_exec(
        match &t {
            Some(v) => Some(v),
            None => None,
        },
        match &d {
            Some(v) => Some(v),
            None => None,
        },
        wayland_display.is_some(),
        x11_display.is_some(),
    )
}

/// The value the last entry for `key` gives it.
pub open spec fn env_value(env: Seq<(String, String)>, key: Seq<char>) -> Option<Seq<char>>
    decreases env.len(),
{
    if env.len() == 0 {
        None
    } else if env.last().0@ == key {
        Some(env.last().1@)
    } else {
        env_value(env.drop_last(), key)
    }
}

/// Setting a variable in an environment gives it that value, whatever came before, and
/// leaves every other variable as it was.
pub proof fn lemma_env_value_last_wins(env: Seq<(String, String)>, entry: (String, String), key: Seq<char>)
    ensures
        env_value(env.push(entry), entry.0@) == Some(entry.1@),
        key != entry.0@ ==> env_value(env.push(entry), key) == env_value(env, key),
{
    assert(env.push(entry).drop_last() =~= env);
}

fn env_lookup(env: &Vec<(String, String)>, key: &str) -> (r: Option<Vec<char>>)
    ensures
        match r {
            Some(v) => env_value(env@, key@) == Some(v@),
            None => env_value(env@, key@) is None,
        },
{
    let k = chars_of(key);
    let mut i = env.len();
    assert(env@.take(i as int) =~= env@);
    while i > 0
        invariant
            i <= env@.len(),
            k@ == key@,
            env_value(env@, key@) == env_value(env@.take(i as int), key@),
        decreases i,
    {
        let ghost t = env@.take(i as int);
        assert(t.drop_last() =~= env@.take(i - 1));
        assert(t.last() == env@[i - 1]);
        if chars_eq(&chars_of(env[i - 1].0.as_str()), &k) {
            return Some(chars_of(env[i - 1].1.as_str()));
        }
        i = i - 1;
    }
    None
}

/// Detect display server from environment variables, later entries overriding earlier
/// ones.
pub fn detect_server_from_env_vars(env_vars: &Vec<(String, String)>) -> (r: Option<DisplayServer>)
    ensures
        r == server_from(
            env_value(env_vars@, "XDG_SESSION_TYPE"@),
            env_value(env_vars@, "XDG_CURRENT_DESKTOP"@),
            env_value(env_vars@, "WAYLAND_DISPLAY"@),
            env_value(env_vars@, "DISPLAY"@),
        ),
{
    let t = env_lookup(env_vars, "XDG_SESSION_TYPE");
    let d = env_lookup(env_vars, "XDG_CURRENT_DESKTOP");
    let w = env_lookup(env_vars, "WAYLAND_DISPLAY");
    let x = env_lookup(env_vars, "DISPLAY");
    server_from_exec(
        match &t {
            Some(v) => Some(v),
            None => None,
        },
        match &d {
            Some(v) => Some(v),
            None => None,
        },
        w.is_some(),
        x.is_some(),
    )
}

/// Detect which display server is running: from the daemon's own environment when it
/// tells, else from the user session's, else unknown.
pub fn detect_display_server(
    from_env: Option<DisplayServer>,
    from_user_session: Option<DisplayServer>,
) -> (r: DisplayServer)
    ensures
        r == match from_env {
            Some(s) => s,
            None => match from_user_session {
                Some(s) => s,
                None => DisplayServer::Unknown,
            },
        },
{
    match from_env {
        Some(s) => s,
        None => match from_user_session {
            Some(s) => s,
            None => DisplayServer::Unknown,
        },
    }
}

/// Session information from loginctl
#[derive(Debug)]
pub struct SessionInfo {
    pub id: String,
    pub user: String,
    pub seat: String,
    pub session_type: Option<String>,
    pub state: Option<String>,
}

/// Session context containing user and environment variables
#[derive(Debug, Clone)]
pub struct SessionContext {
    pub user: String,
    pub env_vars: Vec<(String, String)>,
}

/// The properties that `loginctl show-session` printed, in `KEY=VALUE` lines; a later
/// line of a key wins.
pub struct SessionFields {
    pub session_type: Option<Seq<char>>,
    pub state: Option<Seq<char>>,
    pub seat: Seq<char>,
    pub user: Seq<char>,
}

pub open spec fn session_step(f: SessionFields, line: Seq<char>) -> SessionFields {
    match split_once(line, '=') {
        Some((key, value)) => if key == "Type"@ {
            SessionFields { session_type: Some(value), ..f }
        } else if key == "State"@ {
            SessionFields { state: Some(value), ..f }
        } else if key == "Seat"@ {
            SessionFields { seat: value, ..f }
        } else if key == "Name"@ {
            SessionFields { user: value, ..f }
        } else {
            f
        },
        None => f,
    }
}

pub open spec fn session_fold(ls: Seq<Seq<char>>, k: int) -> SessionFields
    decreases k,
{
    if k <= 0 {
        SessionFields { session_type: None, state: None, seat: "seat0"@, user: Seq::empty() }
    } else {
        session_step(session_fold(ls, k - 1), ls[k - 1])
    }
}

pub open spec fn opt_string_view(s: Option<String>) -> Option<Seq<char>> {
    match s {
        Some(v) => Some(v@),
        None => None,
    }
}

/// The details of session `session_id` from the output of `loginctl show-session`.
pub fn parse_session_details(session_id: &str, info: &str) -> (s: SessionInfo)
    ensures
        s.id@ == session_id@,
        ({
            let f = session_fold(lines(info@), lines(info@).len() as int);
            &&& opt_string_view(s.session_type) == f.session_type
            &&& opt_string_view(s.state) == f.state
            &&& s.seat@ == f.seat
            &&& s.user@ == f.user
        }),
{
    let ls = lines_chars(&chars_of(info));
    let ghost all = lines(info@);
    let mut session_type: Option<Vec<char>> = None;
    let mut state: Option<Vec<char>> = None;
    let mut seat = chars_of("seat0");
    let mut user: Vec<char> = Vec::new();
    let mut i: usize = 0;
    while i < ls.len()
        invariant
            i <= ls@.len(),
            views(ls@) == all,
            ({
                let f = session_fold(all, i as int);
                &&& f.session_type == match session_type {
                    Some(v) => Some(v@),
                    None => None,
                }
                &&& f.state == match state {
                    Some(v) => Some(v@),
                    None => None,
                }
                &&& f.seat == seat@
                &&& f.user == user@
            }),
        decreases ls@.len() - i,
    {
        assert(all[i as int] == ls@[i as int]@);
        match split_once_chars(&ls[i], '=') {
            Some((key, value)) => {
                if eq_lit(&key, "Type") {
                    session_type = Some(value);
                } else if eq_lit(&key, "State") {
                    state = Some(value);
                } else if eq_lit(&key, "Seat") {
                    seat = value;
                } else if eq_lit(&key, "Name") {
                    user = value;
                }
            },
            None => {},
        }
        i = i + 1;
    }
    SessionInfo {
        id: string_of(&chars_of(session_id)),
        user: string_of(&user),
        seat: string_of(&seat),
        session_type: match session_type {
            Some(v) => Some(string_of(&v)),
            None => None,
        },
        state: match state {
            Some(v) => Some(string_of(&v)),
            None => None,
        },
    }
}

pub open spec fn graphical(s: SessionInfo) -> bool {
    opt_string_view(s.session_type) == Some("wayland"@) || opt_string_view(s.session_type) == Some(
        "x11"@,
    )
}

pub open spec fn active(s: SessionInfo) -> bool {
    opt_string_view(s.state) == Some("active"@)
}

pub open spec fn primary_seat(s: SessionInfo) -> bool {
    s.seat@ == "seat0"@
}

/// Check if a session is a graphical session (Wayland or X11)
pub fn is_graphical_session(session: &SessionInfo) -> (b: bool)
    ensures
        b == graphical(*session),
{
    match &session.session_type {
        Some(t) => {
            let c = chars_of(t.as_str());
            eq_lit(&c, "wayland") || eq_lit(&c, "x11")
        },
        None => false,
    }
}

/// Check if a session is active
pub fn is_active_session(session: &SessionInfo) -> (b: bool)
    ensures
        b == active(*session),
{
    match &session.state {
        Some(s) => eq_lit(&chars_of(s.as_str()), "active"),
        None => false,
    }
}

/// Check if a session is on the primary graphics seat
pub fn is_primary_seat(session: &SessionInfo) -> (b: bool)
    ensures
        b == primary_seat(*session),
{
    eq_lit(&chars_of(session.seat.as_str()), "seat0")
}

/// The user `SUDO_USER` names, when it is set to a user other than root.
pub fn sudo_display_user(sudo_user: Option<&str>) -> (r: Option<String>)
    ensures
        match sudo_user {
            Some(u) => if u@.len() > 0 && u@ != "root"@ {
                r matches Some(v) && v@ == u@
            } else {
                r is None
            },
            None => r is None,
        },
{
    match sudo_user {
        Some(u) => {
            let c = chars_of(u);
            if c.len() > 0 && !eq_lit(&c, "root") {
                Some(string_of(&c))
            } else {
                None
            }
        },
        None => None,
    }
}

/// The sessions of `loginctl list-sessions` output that belong to a user other than
/// root: for each line with at least three words, its first word (the session) and its
/// third (the user).
pub open spec fn candidates_from(ls: Seq<Seq<char>>) -> Seq<(Seq<char>, Seq<char>)>
    decreases ls.len(),
{
    if ls.len() == 0 {
        Seq::empty()
    } else {
        let rest = candidates_from(ls.drop_last());
        let w = words(ls.last());
        if w.len() >= 3 && w[2] != "root"@ {
            rest.push((w[0], w[2]))
        } else {
            rest
        }
    }
}

/// Root is never a candidate for the display user, and each candidate comes from a line
/// of its own: there are no more candidates than lines.
pub proof fn lemma_candidates_not_root(ls: Seq<Seq<char>>)
    ensures
        forall|i: int| 0 <= i < candidates_from(ls).len() ==> (#[trigger] candidates_from(ls)[i]).1 != "root"@,
        candidates_from(ls).len() <= ls.len(),
    decreases ls.len(),
{
    if ls.len() > 0 {
        lemma_candidates_not_root(ls.drop_last());
        let rest = candidates_from(ls.drop_last());
        assert forall|i: int| 0 <= i < candidates_from(ls).len() implies (#[trigger] candidates_from(ls)[i]).1
            != "root"@ by {
            if i < rest.len() {
                assert(candidates_from(ls)[i] == rest[i]);
            }
        }
    }
}

pub open spec fn pair_views(v: Seq<(String, String)>) -> Seq<(Seq<char>, Seq<char>)> {
    v.map_values(|p: (String, String)| (p.0@, p.1@))
}

pub fn session_candidates(list_output: &str) -> (r: Vec<(String, String)>)
    ensures
        pair_views(r@) == candidates_from(lines(list_output@)),
{
    let ls = lines_chars(&chars_of(list_output));
    let ghost all = lines(list_output@);
    let mut r: Vec<(String, String)> = Vec::new();
    let mut i: usize = 0;
    while i < ls.len()
        invariant
            i <= ls@.len(),
            views(ls@) == all,
            pair_views(r@) == candidates_from(all.take(i as int)),
        decreases ls@.len() - i,
    {
        assert(all.take(i + 1).drop_last() =~= all.take(i as int));
        assert(all.take(i + 1).last() == ls@[i as int]@);
        let w = words_chars(&ls[i]);
        if w.len() >= 3 && !eq_lit(&w[2], "root") {
            r.push((string_of(&w[0]), string_of(&w[2])));
            assert(pair_views(r@) =~= candidates_from(all.take(i + 1)));
        } else {
            assert(pair_views(r@) =~= candidates_from(all.take(i + 1)));
        }
        i = i + 1;
    }
    assert(all.take(i as int) =~= all);
    r
}

pub open spec fn candidate_ok(d: Option<SessionInfo>, ideal: bool) -> bool {
    d matches Some(s) && graphical(s) && (!ideal || (active(s) && primary_seat(s)))
}

/// `i` is the first candidate whose session passes the test (`ideal`: also
/// active and on the primary seat).
pub open spec fn first_ok(details: Seq<Option<SessionInfo>>, i: int, ideal: bool) -> bool {
    &&& 0 <= i < details.len()
    &&& candidate_ok(details[i], ideal)
    &&& forall|j: int| 0 <= j < i ==> !candidate_ok(details[j], ideal)
}

/// No candidate's session passes the test.
pub open spec fn none_ok(details: Seq<Option<SessionInfo>>, ideal: bool) -> bool {
    forall|j: int| 0 <= j < details.len() ==> !candidate_ok(details[j], ideal)
}

/// The candidate that is chosen as the display user: the first ideal one, else the
/// first graphical one, else the first of all.
pub open spec fn chosen_candidate(details: Seq<Option<SessionInfo>>, i: int) -> bool {
    ||| first_ok(details, i, true)
    ||| none_ok(details, true) && first_ok(details, i, false)
    ||| none_ok(details, true) && none_ok(details, false) && i == 0 && details.len() > 0
}

fn first_candidate(cands: &Vec<(String, String)>, details: &Vec<Option<SessionInfo>>, ideal: bool) -> (r: Option<usize>)
    requires
        details@.len() == cands@.len(),
    ensures
        match r {
            Some(i) => i < cands@.len() && candidate_ok(details@[i as int], ideal) && forall|j: int|
                0 <= j < i ==> !candidate_ok(details@[j], ideal),
            None => forall|j: int| 0 <= j < cands@.len() ==> !candidate_ok(details@[j], ideal),
        },
{
    let mut i: usize = 0;
    while i < cands.len()
        invariant
            details@.len() == cands@.len(),
            i <= cands@.len(),
            forall|j: int| 0 <= j < i ==> !candidate_ok(details@[j], ideal),
        decreases cands@.len() - i,
    {
        let ok = match &details[i] {
            Some(d) => is_graphical_session(d) && (!ideal || (is_active_session(d) && is_primary_seat(d))),
            None => false,
        };
        if ok {
            return Some(i);
        }
        i = i + 1;
    }
    None
}

/// The user of the display: the first candidate whose session is graphical, active and
/// on the primary seat; else the first whose session is graphical; else the first
/// candidate; with no candidate, none is found. `details[i]` holds what was learned of
/// candidate `i`'s session, `None` when the query failed.
pub fn choose_display_user(cands: &Vec<(String, String)>, details: &Vec<Option<SessionInfo>>) -> (r: Result<
    String,
    DisplayError,
>)
    requires
        details@.len() == cands@.len(),
    ensures
        match r {
            Ok(u) => exists|i: int|
                0 <= i < cands@.len() && u@ == cands@[i].1@ && #[trigger] chosen_candidate(details@, i),
            Err(e) => cands@.len() == 0 && e is Io,
        },
{
    if let Some(i) = first_candidate(cands, details, true) {
        assert(chosen_candidate(details@, i as int));
        return Ok(cands[i].1.clone());
    }
    if let Some(i) = first_candidate(cands, details, false) {
        assert(chosen_candidate(details@, i as int));
        return Ok(cands[i].1.clone());
    }
    if cands.len() > 0 {
        assert(chosen_candidate(details@, 0));
        return Ok(cands[0].1.clone());
    }
    Err(DisplayError::Io(string_of(&chars_of("No display user found (no non-root sessions)"))))
}

/// Compositor processes to search for, in priority order
pub fn compositor_processes() -> (v: Vec<&'static str>)
    ensures
        v@.map_values(|s: &'static str| s@) == seq!["gnome-shell"@, "kwin_wayland"@, "kwin_x11"@, "plasmashell"@, "sway"@, "Hyprland"@, "wayfire"@, "labwc"@, "river"@, "dwl"@, "Xorg"@],
{
    let mut v: Vec<&'static str> = Vec::new();
    v.push("gnome-shell");
    v.push("kwin_wayland");
    v.push("kwin_x11");
    v.push("plasmashell");
    v.push("sway");
    v.push("Hyprland");
    v.push("wayfire");
    v.push("labwc");
    v.push("river");
    v.push("dwl");
    v.push("Xorg");
    assert(v@.map_values(|s: &'static str| s@) =~= seq!["gnome-shell"@, "kwin_wayland"@, "kwin_x11"@, "plasmashell"@, "sway"@, "Hyprland"@, "wayfire"@, "labwc"@, "river"@, "dwl"@, "Xorg"@]);
    v
}

/// The first process id `pgrep` printed: its first line, trimmed, when not empty.
pub fn first_pid(pgrep_output: &str) -> (r: Option<String>)
    ensures
        ({
            let first = if lines(pgrep_output@).len() > 0 {
                trim(lines(pgrep_output@)[0])
            } else {
                Seq::empty()
            };
            if first.len() > 0 {
                r matches Some(p) && p@ == first
            } else {
                r is None
            }
        }),
{
    let ls = lines_chars(&chars_of(pgrep_output));
    let first = if ls.len() > 0 {
        trim_chars(&ls[0])
    } else {
        Vec::new()
    };
    if first.len() > 0 {
        Some(string_of(&first))
    } else {
        None
    }
}

/// The sessions of `user`, in the order `loginctl list-sessions` printed them: lines with
/// at least three words whose third is the user.
pub open spec fn user_sessions_from(ls: Seq<Seq<char>>, user: Seq<char>) -> Seq<Seq<char>>
    decreases ls.len(),
{
    if ls.len() == 0 {
        Seq::empty()
    } else {
        let rest = user_sessions_from(ls.drop_last(), user);
        let w = words(ls.last());
        if w.len() >= 3 && w[2] == user {
            rest.push(w[0])
        } else {
            rest
        }
    }
}

pub fn sessions_of_user(list_output: &str, user: &str) -> (r: Vec<String>)
    ensures
        string_views(r@) == user_sessions_from(lines(list_output@), user@),
{
    let ls = lines_chars(&chars_of(list_output));
    let u = chars_of(user);
    let ghost all = lines(list_output@);
    let mut r: Vec<String> = Vec::new();
    let mut i: usize = 0;
    while i < ls.len()
        invariant
            i <= ls@.len(),
            views(ls@) == all,
            u@ == user@,
            string_views(r@) == user_sessions_from(all.take(i as int), user@),
        decreases ls@.len() - i,
    {
        assert(all.take(i + 1).drop_last() =~= all.take(i as int));
        assert(all.take(i + 1).last() == ls@[i as int]@);
        let w = words_chars(&ls[i]);
        if w.len() >= 3 && chars_eq(&w[2], &u) {
            r.push(string_of(&w[0]));
        }
        assert(string_views(r@) =~= user_sessions_from(all.take(i + 1), user@));
        i = i + 1;
    }
    assert(all.take(i as int) =~= all);
    r
}

/// The session environment variables the display tools need.
pub open spec fn session_env_var(key: Seq<char>) -> bool {
    ||| key == "DISPLAY"@
    ||| key == "WAYLAND_DISPLAY"@
    ||| key == "XDG_SESSION_TYPE"@
    ||| key == "XDG_CURRENT_DESKTOP"@
    ||| key == "XDG_RUNTIME_DIR"@
    ||| key == "DBUS_SESSION_BUS_ADDRESS"@
    ||| key == "WAYLAND_SOCKET"@
    ||| key == "QT_QPA_PLATFORM"@
}

fn is_session_env_var(key: &Vec<char>) -> (b: bool)
    ensures
        b == session_env_var(key@),
{
    eq_lit(key, "DISPLAY") || eq_lit(key, "WAYLAND_DISPLAY") || eq_lit(key, "XDG_SESSION_TYPE")
        || eq_lit(key, "XDG_CURRENT_DESKTOP") || eq_lit(key, "XDG_RUNTIME_DIR") || eq_lit(
        key,
        "DBUS_SESSION_BUS_ADDRESS",
    ) || eq_lit(key, "WAYLAND_SOCKET") || eq_lit(key, "QT_QPA_PLATFORM")
}

/// The session variables among environment entries `KEY=VALUE`, in order.
pub open spec fn env_entries_from(entries: Seq<Seq<char>>) -> Seq<(Seq<char>, Seq<char>)>
    decreases entries.len(),
{
    if entries.len() == 0 {
        Seq::empty()
    } else {
        let rest = env_entries_from(entries.drop_last());
        match split_once(entries.last(), '=') {
            Some((k, v)) => if session_env_var(k) {
                rest.push((k, v))
            } else {
                rest
            },
            None => rest,
        }
    }
}

/// The session variables among the entries of a process environment, each decoded as
/// UTF-8 (`None` for an entry that is not).
pub fn session_env_from_entries(entries: &Vec<Option<String>>) -> (r: Vec<(String, String)>)
    ensures
        pair_views(r@) == env_entries_from(
            entries@.filter(|e: Option<String>| e is Some).map_values(|e: Option<String>| e->0@),
        ),
{
    let ghost valid = entries@.filter(|e: Option<String>| e is Some).map_values(|e: Option<String>| e->0@);
    let mut r: Vec<(String, String)> = Vec::new();
    let mut i: usize = 0;
    while i < entries.len()
        invariant
            i <= entries@.len(),
            pair_views(r@) == env_entries_from(
                entries@.take(i as int).filter(|e: Option<String>| e is Some).map_values(
                    |e: Option<String>| e->0@,
                ),
            ),
        decreases entries@.len() - i,
    {
        let ghost before = entries@.take(i as int);
        let ghost after = entries@.take(i + 1);
        assert(after.drop_last() =~= before);
        match &entries[i] {
            Some(e) => {
                assert(after.filter(|e: Option<String>| e is Some) =~= before.filter(
                    |e: Option<String>| e is Some,
                ).push(entries@[i as int])) by {
                    reveal_with_fuel(Seq::filter, 1);
                    assert(after.last() == entries@[i as int]);
                }
                let c = chars_of(e.as_str());
                let ghost fb = before.filter(|e: Option<String>| e is Some).map_values(|e: Option<String>| e->0@);
                let ghost fa = after.filter(|e: Option<String>| e is Some).map_values(|e: Option<String>| e->0@);
                assert(fa =~= fb.push(e@));
                assert(fa.drop_last() =~= fb);
                match split_once_chars(&c, '=') {
                    Some((k, v)) => {
                        if is_session_env_var(&k) {
                            r.push((string_of(&k), string_of(&v)));
                            assert(pair_views(r@) =~= env_entries_from(fa));
                        } else {
                            assert(pair_views(r@) =~= env_entries_from(fa));
                        }
                    },
                    None => {
                        assert(pair_views(r@) =~= env_entries_from(fa));
                    },
                }
            },
            None => {
                assert(after.filter(|e: Option<String>| e is Some) =~= before.filter(
                    |e: Option<String>| e is Some,
                )) by {
                    reveal_with_fuel(Seq::filter, 1);
                    assert(after.last() == entries@[i as int]);
                }
            },
        }
        i = i + 1;
    }
    assert(entries@.take(i as int) =~= entries@);
    r
}

/// The arguments of `sudo` that run `program` with `args` as the session user with the
/// session environment: `-u USER env KEY=VALUE... PROGRAM ARGS...`.
pub open spec fn sudo_args(ctx: SessionContext, program: Seq<char>, args: Seq<Seq<char>>) -> Seq<Seq<char>> {
    seq!["-u"@, ctx.user@, "env"@] + ctx.env_vars@.map_values(
        |p: (String, String)| p.0@ + "="@ + p.1@,
    ) + seq![program] + args
}

pub fn run_as_user_args(ctx: &SessionContext, program: &str, args: &Vec<&str>) -> (r: Vec<String>)
    ensures
        string_views(r@) == sudo_args(*ctx, program@, args@.map_values(|a: &str| a@)),
{
    let mut r: Vec<String> = Vec::new();
    r.push(string_of(&chars_of("-u")));
    r.push(ctx.user.clone());
    r.push(string_of(&chars_of("env")));
    let mut i: usize = 0;
    while i < ctx.env_vars.len()
        invariant
            i <= ctx.env_vars@.len(),
            string_views(r@) == seq!["-u"@, ctx.user@, "env"@] + ctx.env_vars@.take(i as int).map_values(
                |p: (String, String)| p.0@ + "="@ + p.1@,
            ),
        decreases ctx.env_vars@.len() - i,
    {
        let mut kv = chars_of(ctx.env_vars[i].0.as_str());
        push_str(&mut kv, "=");
        push_str(&mut kv, ctx.env_vars[i].1.as_str());
        let ghost old_r = r@;
        let s = string_of(&kv);
        r.push(s);
        proof {
            lemma_string_views_push(old_r, s);
            assert(ctx.env_vars@.take(i + 1) =~= ctx.env_vars@.take(i as int).push(ctx.env_vars@[i as int]));
            let f = |p: (String, String)| p.0@ + "="@ + p.1@;
            lemma_map_push(ctx.env_vars@.take(i as int), ctx.env_vars@[i as int], f);
            assert(s@ == f(ctx.env_vars@[i as int]));
            assert(string_views(r@) =~= seq!["-u"@, ctx.user@, "env"@] + ctx.env_vars@.take(i + 1).map_values(f));
        }
        i = i + 1;
    }
    assert(ctx.env_vars@.take(i as int) =~= ctx.env_vars@);
    r.push(string_of(&chars_of(program)));
    let mut j: usize = 0;
    let ghost base = string_views(r@);
    while j < args.len()
        invariant
            j <= args@.len(),
            string_views(r@) == base + args@.take(j as int).map_values(|a: &str| a@),
        decreases args@.len() - j,
    {
        let ghost old_r = r@;
        let s = string_of(&chars_of(args[j]));
        r.push(s);
        proof {
            lemma_string_views_push(old_r, s);
            assert(args@.take(j + 1) =~= args@.take(j as int).push(args@[j as int]));
            let f = |a: &str| a@;
            lemma_map_push(args@.take(j as int), args@[j as int], f);
            assert(string_views(r@) =~= base + args@.take(j + 1).map_values(f));
        }
        j = j + 1;
    }
    assert(args@.take(j as int) =~= args@);
    assert(string_views(r@) =~= sudo_args(*ctx, program@, args@.map_values(|a: &str| a@)));
    r
}

/// The tool that controls the display of a display server.
#[derive(Debug, Clone, Copy, PartialEq, Eq)]
pub enum DisplayBackend {
    /// `gnome-randr`
    Gnome,
    /// `xrandr`
    X11,
}

/// The tool for the display server of the session: the server the session environment
/// tells of, else the one the daemon's environment tells of, else unknown. Only GNOME on
/// Wayland and X11 can be controlled.
pub fn create_manager(ctx: &SessionContext, from_env: Option<DisplayServer>) -> (r: Result<DisplayBackend, DisplayError>)
    ensures
        ({
            let server = match detect_server_from_env_vars_spec(ctx.env_vars@) {
                Some(s) => s,
                None => match from_env {
                    Some(s) => s,
                    None => DisplayServer::Unknown,
                },
            };
            match server {
                DisplayServer::GnomeWayland => r == Ok::<DisplayBackend, DisplayError>(DisplayBackend::Gnome),
                DisplayServer::X11 => r == Ok::<DisplayBackend, DisplayError>(DisplayBackend::X11),
                DisplayServer::Wayland => r matches Err(DisplayError::UnsupportedBackend(w)) && w@ == "Wayland"@,
                DisplayServer::Unknown => r matches Err(DisplayError::SessionNotFound),
            }
        }),
{
    let server = match detect_server_from_env_vars(&ctx.env_vars) {
        Some(s) => s,
        None => match from_env {
            Some(s) => s,
            None => DisplayServer::Unknown,
        },
    };
    match server {
        DisplayServer::GnomeWayland => Ok(DisplayBackend::Gnome),
        DisplayServer::X11 => Ok(DisplayBackend::X11),
        DisplayServer::Wayland => Err(DisplayError::UnsupportedBackend(string_of(&chars_of("Wayland")))),
        DisplayServer::Unknown => Err(DisplayError::SessionNotFound),
    }
}

pub open spec fn detect_server_from_env_vars_spec(env: Seq<(String, String)>) -> Option<DisplayServer> {
    server_from(
        env_value(env, "XDG_SESSION_TYPE"@),
        env_value(env, "XDG_CURRENT_DESKTOP"@),
        env_value(env, "WAYLAND_DISPLAY"@),
        env_value(env, "DISPLAY"@),
    )
}

/// The name used for the built-in display when none is found.
pub open spec fn default_display_name() -> Seq<char> {
    "eDP-1"@
}

/// The built-in display `gnome-randr query` shows: the first word of the first line that,
/// trimmed, starts with `eDP` and does not say `disconnected`.
pub open spec fn gnome_display_from(ls: Seq<Seq<char>>) -> Seq<char>
    decreases ls.len(),
{
    if ls.len() == 0 {
        default_display_name()
    } else {
        let t = trim(ls[0]);
        if starts_with(t, "eDP"@) && !contains(t, "disconnected"@) && words(t).len() > 0 {
            words(t)[0]
        } else {
            gnome_display_from(ls.drop_first())
        }
    }
}

pub fn gnome_display_name(output: &str) -> (name: String)
    ensures
        name@ == gnome_display_from(lines(output@)),
{
    let ls = lines_chars(&chars_of(output));
    let ghost all = lines(output@);
    let mut i: usize = 0;
    assert(all.skip(0) =~= all);
    while i < ls.len()
        invariant
            i <= ls@.len(),
            views(ls@) == all,
            all == lines(output@),
            gnome_display_from(all) == gnome_display_from(all.skip(i as int)),
        decreases ls@.len() - i,
    {
        assert(all.skip(i as int)[0] == ls@[i as int]@);
        assert(all.skip(i as int).drop_first() =~= all.skip(i + 1));
        let t = trim_chars(&ls[i]);
        if starts_with_chars(&t, &chars_of("eDP")) && !contains_chars(&t, &chars_of("disconnected")) {
            let w = words_chars(&t);
            if w.len() > 0 {
                return string_of(&w[0]);
            }
        }
        i = i + 1;
    }
    assert(all.skip(i as int).len() == 0);
    string_of(&chars_of("eDP-1"))
}

/// The built-in display `xrandr --query` shows: the first word of the first line that
/// says `connected` and starts with `eDP` or `LVDS`.
pub open spec fn x11_display_from(ls: Seq<Seq<char>>) -> Seq<char>
    decreases ls.len(),
{
    if ls.len() == 0 {
        default_display_name()
    } else {
        let l = ls[0];
        if contains(l, "connected"@) && (starts_with(l, "eDP"@) || starts_with(l, "LVDS"@))
            && words(l).len() > 0 {
            words(l)[0]
        } else {
            x11_display_from(ls.drop_first())
        }
    }
}

pub fn x11_display_name(output: &str) -> (name: String)
    ensures
        name@ == x11_display_from(lines(output@)),
{
    let ls = lines_chars(&chars_of(output));
    let ghost all = lines(output@);
    let mut i: usize = 0;
    assert(all.skip(0) =~= all);
    while i < ls.len()
        invariant
            i <= ls@.len(),
            views(ls@) == all,
            all == lines(output@),
            x11_display_from(all) == x11_display_from(all.skip(i as int)),
        decreases ls@.len() - i,
    {
        assert(all.skip(i as int)[0] == ls@[i as int]@);
        assert(all.skip(i as int).drop_first() =~= all.skip(i + 1));
        let l = &ls[i];
        if contains_chars(l, &chars_of("connected")) && (starts_with_chars(l, &chars_of("eDP"))
            || starts_with_chars(l, &chars_of("LVDS"))) {
            let w = words_chars(l);
            if w.len() > 0 {
                return string_of(&w[0]);
            }
        }
        i = i + 1;
    }
    assert(all.skip(i as int).len() == 0);
    string_of(&chars_of("eDP-1"))
}

/// A line that does not start with a space or a tab.
pub open spec fn unindented(l: Seq<char>) -> bool {
    !starts_with(l, " "@) && !starts_with(l, "\t"@)
}

/// The mode lines of display `name` in `gnome-randr query` output: once an unindented line
/// starting with the name opens its section, the indented lines holding `@`, up to the
/// next unindented line.
pub open spec fn gnome_mode_lines_from(ls: Seq<Seq<char>>, name: Seq<char>, in_section: bool) -> Seq<Seq<char>>
    decreases ls.len(),
{
    if ls.len() == 0 {
        Seq::empty()
    } else {
        let l = ls[0];
        if unindented(l) && starts_with(l, name) {
            gnome_mode_lines_from(ls.drop_first(), name, true)
        } else if unindented(l) && in_section {
            Seq::empty()
        } else if in_section && trim_start(l).len() < l.len() && trim_start(l).contains('@') {
            seq![l] + gnome_mode_lines_from(ls.drop_first(), name, in_section)
        } else {
            gnome_mode_lines_from(ls.drop_first(), name, in_section)
        }
    }
}

fn unindented_exec(l: &Vec<char>) -> (b: bool)
    ensures
        b == unindented(l@),
{
    !starts_with_chars(l, &chars_of(" ")) && !starts_with_chars(l, &chars_of("\t"))
}

pub fn gnome_mode_lines(output: &str, name: &str) -> (r: Vec<String>)
    ensures
        string_views(r@) == gnome_mode_lines_from(lines(output@), name@, false),
{
    let ls = lines_chars(&chars_of(output));
    let n = chars_of(name);
    let ghost all = lines(output@);
    let mut r: Vec<String> = Vec::new();
    let mut in_section = false;
    let mut i: usize = 0;
    assert(all.skip(0) =~= all);
    while i < ls.len()
        invariant
            i <= ls@.len(),
            views(ls@) == all,
            all == lines(output@),
            n@ == name@,
            string_views(r@) + gnome_mode_lines_from(all.skip(i as int), name@, in_section)
                == gnome_mode_lines_from(all, name@, false),
        decreases ls@.len() - i,
    {
        let ghost rest = all.skip(i as int);
        assert(rest[0] == ls@[i as int]@);
        assert(rest.drop_first() =~= all.skip(i + 1));
        let l = &ls[i];
        let flat = unindented_exec(l);
        if flat && starts_with_chars(l, &n) {
            in_section = true;
        } else if flat && in_section {
            assert(string_views(r@) + Seq::<Seq<char>>::empty() =~= string_views(r@));
            return r;
        } else {
            let t = trim_start_chars(l);
            if in_section && t.len() < l.len() && crate::text::has_char(&t, '@') {
                let ghost old_r = string_views(r@);
                r.push(string_of(l));
                assert(string_views(r@) + gnome_mode_lines_from(all.skip(i + 1), name@, in_section)
                    =~= old_r + gnome_mode_lines_from(rest, name@, in_section));
            }
        }
        i = i + 1;
    }
    assert(all.skip(i as int).len() == 0);
    assert(string_views(r@) + Seq::<Seq<char>>::empty() =~= string_views(r@));
    r
}

/// The mode lines of display `name` in `xrandr --query` output: once a line starting with
/// the name and saying `connected` opens its section, the indented lines whose first word
/// holds an `x`, up to the next unindented line.
pub open spec fn x11_mode_lines_from(ls: Seq<Seq<char>>, name: Seq<char>, in_section: bool) -> Seq<Seq<char>>
    decreases ls.len(),
{
    if ls.len() == 0 {
        Seq::empty()
    } else {
        let l = ls[0];
        let t = trim_start(l);
        if starts_with(l, name) && contains(l, "connected"@) {
            x11_mode_lines_from(ls.drop_first(), name, true)
        } else if in_section && unindented(l) {
            Seq::empty()
        } else if in_section && t.len() < l.len() && t.contains('x') && words(t).len() > 0
            && words(t)[0].contains('x') {
            seq![l] + x11_mode_lines_from(ls.drop_first(), name, in_section)
        } else {
            x11_mode_lines_from(ls.drop_first(), name, in_section)
        }
    }
}

pub fn x11_mode_lines(output: &str, name: &str) -> (r: Vec<String>)
    ensures
        string_views(r@) == x11_mode_lines_from(lines(output@), name@, false),
{
    let ls = lines_chars(&chars_of(output));
    let n = chars_of(name);
    let ghost all = lines(output@);
    let mut r: Vec<String> = Vec::new();
    let mut in_section = false;
    let mut i: usize = 0;
    assert(all.skip(0) =~= all);
    while i < ls.len()
        invariant
            i <= ls@.len(),
            views(ls@) == all,
            all == lines(output@),
            n@ == name@,
            string_views(r@) + x11_mode_lines_from(all.skip(i as int), name@, in_section)
                == x11_mode_lines_from(all, name@, false),
        decreases ls@.len() - i,
    {
        let ghost rest = all.skip(i as int);
        assert(rest[0] == ls@[i as int]@);
        assert(rest.drop_first() =~= all.skip(i + 1));
        let l = &ls[i];
        if starts_with_chars(l, &n) && contains_chars(l, &chars_of("connected")) {
            in_section = true;
        } else if in_section && unindented_exec(l) {
            assert(string_views(r@) + Seq::<Seq<char>>::empty() =~= string_views(r@));
            return r;
        } else {
            let t = trim_start_chars(l);
            if in_section && t.len() < l.len() && crate::text::has_char(&t, 'x') {
                let w = words_chars(&t);
                if w.len() > 0 && crate::text::has_char(&w[0], 'x') {
                    let ghost old_r = string_views(r@);
                    r.push(string_of(l));
                    assert(string_views(r@) + x11_mode_lines_from(all.skip(i + 1), name@, in_section)
                        =~= old_r + x11_mode_lines_from(rest, name@, in_section));
                }
            }
        }
        i = i + 1;
    }
    assert(all.skip(i as int).len() == 0);
    assert(string_views(r@) + Seq::<Seq<char>>::empty() =~= string_views(r@));
    r
}

/// The mode whose string is `wanted`, else the first whose string equals it once `+vrr`
/// is removed from both.
pub open spec fn mode_string_match(modes: Seq<Seq<char>>, wanted: Seq<char>) -> Option<int> {
    if exists|i: int| 0 <= i < modes.len() && modes[i] == wanted {
        Some(choose|i: int| 0 <= i < modes.len() && modes[i] == wanted && forall|j: int| 0 <= j < i ==> modes[j] != wanted)
    } else if exists|i: int| 0 <= i < modes.len() && remove_all(modes[i], "+vrr"@) == remove_all(wanted, "+vrr"@) {
        Some(choose|i: int| 0 <= i < modes.len() && remove_all(modes[i], "+vrr"@) == remove_all(wanted, "+vrr"@)
            && forall|j: int| 0 <= j < i ==> remove_all(modes[j], "+vrr"@) != remove_all(wanted, "+vrr"@))
    } else {
        None
    }
}

/// The mode, by index, with mode string `wanted`: an exact match first, else a match that
/// ignores `+vrr`; each the first in order.
pub fn find_mode_by_string(modes: &Vec<String>, wanted: &str) -> (r: Option<usize>)
    ensures
        match r {
            Some(i) => i < modes@.len() && ({
                ||| modes@[i as int]@ == wanted@ && forall|j: int| 0 <= j < i ==> modes@[j]@ != wanted@
                ||| (forall|j: int| 0 <= j < modes@.len() ==> modes@[j]@ != wanted@) && remove_all(
                    modes@[i as int]@,
                    "+vrr"@,
                ) == remove_all(wanted@, "+vrr"@) && forall|j: int|
                    0 <= j < i ==> remove_all(modes@[j]@, "+vrr"@) != remove_all(wanted@, "+vrr"@)
            }),
            None => forall|j: int|
                0 <= j < modes@.len() ==> modes@[j]@ != wanted@ && remove_all(modes@[j]@, "+vrr"@)
                    != remove_all(wanted@, "+vrr"@),
        },
{
    let w = chars_of(wanted);
    let mut i: usize = 0;
    while i < modes.len()
        invariant
            i <= modes@.len(),
            w@ == wanted@,
            forall|j: int| 0 <= j < i ==> modes@[j]@ != wanted@,
        decreases modes@.len() - i,
    {
        if chars_eq(&chars_of(modes[i].as_str()), &w) {
            return Some(i);
        }
        i = i + 1;
    }
    let vrr = chars_of("+vrr");
    let wn = remove_all_chars(&w, &vrr);
    let mut k: usize = 0;
    while k < modes.len()
        invariant
            k <= modes@.len(),
            vrr@ == "+vrr"@,
            wn@ == remove_all(wanted@, "+vrr"@),
            forall|j: int| 0 <= j < modes@.len() ==> modes@[j]@ != wanted@,
            forall|j: int| 0 <= j < k ==> remove_all(modes@[j]@, "+vrr"@) != remove_all(wanted@, "+vrr"@),
        decreases modes@.len() - k,
    {
        if chars_eq(&remove_all_chars(&chars_of(modes[k].as_str()), &vrr), &wn) {
            return Some(k);
        }
        k = k + 1;
    }
    None
}

/// The modes, by index, of resolution `width` x `height`, in order.
pub fn modes_with_resolution(resolutions: &Vec<(u32, u32)>, width: u32, height: u32) -> (r: Vec<usize>)
    ensures
        forall|k: int| 0 <= k < r@.len() ==> r@[k] < resolutions@.len() && resolutions@[r@[k] as int] == (width, height),
        forall|i: int| 0 <= i < resolutions@.len() && resolutions@[i] == (width, height) ==> r@.contains(i as usize),
        forall|a: int, b: int| 0 <= a < b < r@.len() ==> r@[a] < r@[b],
{
    let mut r: Vec<usize> = Vec::new();
    let mut i: usize = 0;
    while i < resolutions.len()
        invariant
            i <= resolutions@.len(),
            forall|k: int| 0 <= k < r@.len() ==> r@[k] < i && resolutions@[r@[k] as int] == (width, height),
            forall|j: int| 0 <= j < i && resolutions@[j] == (width, height) ==> r@.contains(j as usize),
            forall|a: int, b: int| 0 <= a < b < r@.len() ==> r@[a] < r@[b],
        decreases resolutions@.len() - i,
    {
        let ghost old_r = r@;
        if resolutions[i].0 == width && resolutions[i].1 == height {
            r.push(i);
        }
        assert forall|j: int| 0 <= j <= i && resolutions@[j] == (width, height) implies r@.contains(j as usize) by {
            if j < i {
                let k = choose|k: int| 0 <= k < old_r.len() && old_r[k] == j as usize;
                assert(r@[k] == old_r[k]);
            } else {
                assert(r@[r@.len() - 1] == i);
            }
        }
        i = i + 1;
    }
    r
}

/// Among modes, by index, those with VRR when VRR is preferred and any mode has it, else
/// all of them.
pub fn vrr_candidates(has_vrr: &Vec<bool>, prefer_vrr: bool) -> (r: Vec<usize>)
    ensures
        (prefer_vrr && has_vrr@.contains(true)) ==> (forall|k: int| 0 <= k < r@.len() ==> r@[k] < has_vrr@.len() && has_vrr@[r@[k] as int])
            && (forall|i: int| 0 <= i < has_vrr@.len() && has_vrr@[i] ==> r@.contains(i as usize))
            && (forall|a: int, b: int| 0 <= a < b < r@.len() ==> r@[a] < r@[b]),
        !(prefer_vrr && has_vrr@.contains(true)) ==> r@.len() == has_vrr@.len() && forall|k: int| 0 <= k < r@.len() ==> r@[k] == k,
{
    let mut any = false;
    let mut i: usize = 0;
    while i < has_vrr.len()
        invariant
            i <= has_vrr@.len(),
            any == exists|j: int| 0 <= j < i && has_vrr@[j],
        decreases has_vrr@.len() - i,
    {
        if has_vrr[i] {
            any = true;
        }
        i = i + 1;
    }
    let mut r: Vec<usize> = Vec::new();
    let mut k: usize = 0;
    if prefer_vrr && any {
        while k < has_vrr.len()
            invariant
                k <= has_vrr@.len(),
                forall|m: int| 0 <= m < r@.len() ==> r@[m] < k && has_vrr@[r@[m] as int],
                forall|j: int| 0 <= j < k && has_vrr@[j] ==> r@.contains(j as usize),
                forall|a: int, b: int| 0 <= a < b < r@.len() ==> r@[a] < r@[b],
            decreases has_vrr@.len() - k,
        {
            let ghost old_r = r@;
            if has_vrr[k] {
                r.push(k);
            }
            assert forall|j: int| 0 <= j <= k && has_vrr@[j] implies r@.contains(j as usize) by {
                if j < k {
                    let m = choose|m: int| 0 <= m < old_r.len() && old_r[m] == j as usize;
                    assert(r@[m] == old_r[m]);
                } else {
                    assert(r@[r@.len() - 1] == k);
                }
            }
            k = k + 1;
        }
        assert(has_vrr@.contains(true)) by {
            let j = choose|j: int| 0 <= j < has_vrr@.len() && has_vrr@[j];
            assert(has_vrr@[j] == true);
        }
    } else {
        while k < has_vrr.len()
            invariant
                k <= has_vrr@.len(),
                r@.len() == k,
                forall|m: int| 0 <= m < r@.len() ==> r@[m] == m,
            decreases has_vrr@.len() - k,
        {
            r.push(k);
            k = k + 1;
        }
        assert(!(prefer_vrr && has_vrr@.contains(true))) by {
            if prefer_vrr && has_vrr@.contains(true) {
                let j = choose|j: int| 0 <= j < has_vrr@.len() && has_vrr@[j] == true;
                assert(any);
            }
        }
    }
    r
}

/// A number of a resolution: decimal, as `u32` reads it.
pub open spec fn resolution_number(s: Seq<char>) -> Option<u32> {
    match parse_unsigned(s, 10, u32::MAX as int) {
        Some(v) => Some(v as u32),
        None => None,
    }
}

fn resolution_number_of(s: &Vec<char>) -> (r: Option<u32>)
    ensures
        r == resolution_number(s@),
{
    match parse_unsigned_chars(s, 10, u32::MAX as u64) {
        Some(v) => {
            proof {
                lemma_parse_unsigned_range(s@, 10, u32::MAX as int);
            }
            Some(v as u32)
        },
        None => None,
    }
}

/// A resolution `WIDTHxHEIGHT`, split at its first `x`.
pub open spec fn resolution_of(res: Seq<char>) -> Option<(u32, u32)> {
    match split_once(res, 'x') {
        Some((w, h)) => match (resolution_number(w), resolution_number(h)) {
            (Some(wv), Some(hv)) => Some((wv, hv)),
            _ => None,
        },
        None => None,
    }
}

fn parse_resolution(res: &Vec<char>) -> (r: Option<(u32, u32)>)
    ensures
        r == resolution_of(res@),
{
    match split_once_chars(res, 'x') {
        Some((w, h)) => match (resolution_number_of(&w), resolution_number_of(&h)) {
            (Some(wv), Some(hv)) => Some((wv, hv)),
            _ => None,
        },
        None => None,
    }
}

/// What a mode line of `gnome-randr query` tells besides the value of its refresh rate.
#[derive(Debug, Clone)]
pub struct GnomeModeFields {
    /// The mode string, its first word, as given.
    pub mode_string: String,
    pub width: u32,
    pub height: u32,
    /// The mode string holds `+vrr`.
    pub has_vrr: bool,
    /// The text of the refresh rate: what follows `@` once `+vrr` is taken out.
    pub rate: String,
}

/// The fields of a `gnome-randr` mode line: the first word is `WIDTHxHEIGHT@RATE`, with
/// `+vrr` anywhere for a VRR mode.
pub open spec fn gnome_fields_of(line: Seq<char>) -> Option<(Seq<char>, u32, u32, bool, Seq<char>)> {
    let w = words(line);
    if w.len() == 0 {
        None
    } else {
        let mode = w[0];
        match split_once(remove_all(mode, "+vrr"@), '@') {
            Some((res, rate)) => match resolution_of(res) {
                Some((wd, ht)) => Some((mode, wd, ht, contains(mode, "+vrr"@), rate)),
                None => None,
            },
            None => None,
        }
    }
}

/// Reads a mode line of `gnome-randr query`; the rate is left as text.
pub fn gnome_mode_fields(line: &str) -> (r: Option<GnomeModeFields>)
    ensures
        match r {
            Some(f) => gnome_fields_of(line@) == Some((f.mode_string@, f.width, f.height, f.has_vrr, f.rate@)),
            None => gnome_fields_of(line@) is None,
        },
{
    let w = words_chars(&chars_of(line));
    if w.len() == 0 {
        return None;
    }
    let mode = &w[0];
    let vrr = chars_of("+vrr");
    proof {
        reveal_strlit("+vrr");
    }
    let clean = remove_all_chars(mode, &vrr);
    match split_once_chars(&clean, '@') {
        Some((res, rate)) => match parse_resolution(&res) {
            Some((wd, ht)) => Some(
                GnomeModeFields {
                    mode_string: string_of(mode),
                    width: wd,
                    height: ht,
                    has_vrr: contains_chars(mode, &vrr),
                    rate: string_of(&rate),
                },
            ),
            None => None,
        },
        None => None,
    }
}

/// `s` with every trailing `c` dropped: `str::trim_end_matches(c)`.
pub open spec fn strip_trailing(s: Seq<char>, c: char) -> Seq<char>
    decreases s.len(),
{
    if s.len() > 0 && s.last() == c {
        strip_trailing(s.drop_last(), c)
    } else {
        s
    }
}

fn strip_trailing_chars(s: &Vec<char>, c: char) -> (r: Vec<char>)
    ensures
        r@ == strip_trailing(s@, c),
{
    let mut j = s.len();
    assert(s@.take(j as int) =~= s@);
    while j > 0 && s[j - 1] == c
        invariant
            j <= s@.len(),
            strip_trailing(s@, c) == strip_trailing(s@.take(j as int), c),
        decreases j,
    {
        assert(s@.take(j as int).drop_last() =~= s@.take(j - 1));
        j = j - 1;
    }
    slice(s, 0, j)
}

/// A refresh rate of an `xrandr` mode line, with its marks of the current (`*`) and
/// preferred (`+`) mode dropped.
pub open spec fn rate_text(word: Seq<char>) -> Seq<char> {
    strip_trailing(strip_trailing(word, '+'), '*')
}

/// What a mode line of `xrandr --query` tells besides the values of its refresh rates.
#[derive(Debug, Clone)]
pub struct XrandrModeFields {
    /// The resolution, the line's first word.
    pub resolution: String,
    pub width: u32,
    pub height: u32,
    /// The texts of the refresh rates, in order.
    pub rates: Vec<String>,
}

/// The fields of an `xrandr` mode line: the resolution `WIDTHxHEIGHT` first, then the
/// refresh rates, and no fields where the resolution does not read.
pub open spec fn xrandr_fields_of(line: Seq<char>) -> Option<(Seq<char>, u32, u32, Seq<Seq<char>>)> {
    let w = words(line);
    if w.len() == 0 {
        None
    } else {
        match resolution_of(w[0]) {
            Some((wd, ht)) => Some((w[0], wd, ht, w.drop_first().map_values(|x: Seq<char>| rate_text(x)))),
            None => None,
        }
    }
}

/// Reads a mode line of `xrandr --query`; the rates are left as text.
pub fn xrandr_mode_fields(line: &str) -> (r: Option<XrandrModeFields>)
    ensures
        match r {
            Some(f) => xrandr_fields_of(line@) == Some((f.resolution@, f.width, f.height, string_views(f.rates@))),
            None => xrandr_fields_of(line@) is None,
        },
{
    let w = words_chars(&chars_of(line));
    if w.len() == 0 {
        return None;
    }
    match parse_resolution(&w[0]) {
        Some((wd, ht)) => {
            let ghost all = views(w@);
            let mut rates: Vec<String> = Vec::new();
            let mut i: usize = 1;
            while i < w.len()
                invariant
                    1 <= i <= w@.len(),
                    all == views(w@),
                    string_views(rates@) == all.subrange(1, i as int).map_values(|x: Seq<char>| rate_text(x)),
                decreases w@.len() - i,
            {
                let ghost before = rates@;
                let t = strip_trailing_chars(&strip_trailing_chars(&w[i], '+'), '*');
                let s = string_of(&t);
                rates.push(s);
                proof {
                    lemma_string_views_push(before, s);
                    assert(all[i as int] == w@[i as int]@);
                    assert(all.subrange(1, i + 1).map_values(|x: Seq<char>| rate_text(x)) =~= all.subrange(
                        1,
                        i as int,
                    ).map_values(|x: Seq<char>| rate_text(x)).push(rate_text(all[i as int])));
                }
                i = i + 1;
            }
            assert(all.subrange(1, i as int) =~= all.drop_first());
            Some(XrandrModeFields { resolution: string_of(&w[0]), width: wd, height: ht, rates })
        },
        None => None,
    }
}

/// Where a session's environment is looked for: the compositor's process, then the
/// session leader's.
#[derive(Debug, Clone, Copy, PartialEq, Eq)]
pub enum EnvSource {
    Compositor,
    Leader,
}

/// What comes after reading the session variables of a process.
#[derive(Debug)]
pub enum SessionEnvNext {
    /// Read those of the session leader.
    AskLeader,
    /// The environment, or why none was found.
    Done(Result<Vec<(String, String)>, DisplayError>),
}

/// The message for a user whose session shows no display variables.
pub open spec fn no_env_message(user: Seq<char>) -> Seq<char> {
    "no display environment variables found for user "@ + user
}

/// The step after the session variables `found` were read from `source` for `user`: the
/// compositor's are taken when there are any, else the leader's are read; the leader's
/// are taken when there are any, else there is no environment.
pub fn session_env_step(user: &str, source: EnvSource, found: Vec<(String, String)>) -> (n: SessionEnvNext)
    ensures
        found@.len() > 0 ==> (n matches SessionEnvNext::Done(Ok(v)) && v@ == found@),
        found@.len() == 0 && source == EnvSource::Compositor ==> n is AskLeader,
        found@.len() == 0 && source == EnvSource::Leader ==> (n matches SessionEnvNext::Done(
            Err(DisplayError::Io(m)),
        ) && m@ == no_env_message(user@)),
{
    if found.len() > 0 {
        SessionEnvNext::Done(Ok(found))
    } else {
        match source {
            EnvSource::Compositor => SessionEnvNext::AskLeader,
            EnvSource::Leader => {
                let mut m = chars_of("no display environment variables found for user ");
                push_str(&mut m, user);
                SessionEnvNext::Done(Err(DisplayError::Io(string_of(&m))))
            },
        }
    }
}

} // verus!
