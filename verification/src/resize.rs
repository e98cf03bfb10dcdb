//! The widths of the two side panels.

use vstd::prelude::*;

use crate::command::ExecutorCommand;
use crate::copies::SettingsView;
use crate::model::AppSettings;
use crate::state::AppState;
use crate::text::{cat5, decimal, decimal_text, parts_are_found, same_text, within};

verus! {

/// Which side panel a handle resizes.
#[derive(Debug, Clone, Copy, PartialEq, Eq, Structural)]
pub enum Panel {
    Sidebar,
    Detail,
}

/// A panel's geometry.
pub struct PanelSpec {
    /// The handle's tag.
    pub key: &'static str,
    /// The CSS property that carries the live width.
    pub var: &'static str,
    /// The selector of the element being resized.
    pub selector: &'static str,
    pub min: u32,
    pub max: u32,
    pub default: u32,
    /// The share of the window the panel may never exceed, as a script reads it.
    pub viewport_cap: &'static str,
    pub label: &'static str,
}

pub open spec fn least(p: Panel) -> u32 {
    match p {
        Panel::Sidebar => 160,
        Panel::Detail => 300,
    }
}

pub open spec fn most(p: Panel) -> u32 {
    match p {
        Panel::Sidebar => 420,
        Panel::Detail => 800,
    }
}

pub open spec fn initial(p: Panel) -> u32 {
    match p {
        Panel::Sidebar => 200,
        Panel::Detail => 380,
    }
}

/// A width within the panel's bounds.
pub open spec fn clamped(p: Panel, width: int) -> u32 {
    if width < least(p) {
        least(p)
    } else if width > most(p) {
        most(p)
    } else {
        width as u32
    }
}

impl Panel {
    pub fn spec(self) -> (r: PanelSpec)
        ensures
            r.min == least(self),
            r.max == most(self),
            r.default == initial(self),
            r.key@ == (match self {
                Panel::Sidebar => "sidebar"@,
                Panel::Detail => "detail"@,
            }),
            r.var@ == (match self {
                Panel::Sidebar => "--sidebar-w"@,
                Panel::Detail => "--detail-w"@,
            }),
            r.selector@ == (match self {
                Panel::Sidebar => ".sidebar"@,
                Panel::Detail => ".detail"@,
            }),
            r.viewport_cap@ == (match self {
                Panel::Sidebar => "0.33"@,
                Panel::Detail => "0.5"@,
            }),
            r.label@ == (match self {
                Panel::Sidebar => "Resize the projects sidebar"@,
                Panel::Detail => "Resize the detail panel"@,
            }),
    {
        match self {
            Panel::Sidebar => PanelSpec {
                key: "sidebar",
                var: "--sidebar-w",
                selector: ".sidebar",
                min: 160,
                max: 420,
                default: 200,
                viewport_cap: "0.33",
                label: "Resize the projects sidebar",
            },
            Panel::Detail => PanelSpec {
                key: "detail",
                var: "--detail-w",
                selector: ".detail",
                min: 300,
                max: 800,
                default: 380,
                viewport_cap: "0.5",
                label: "Resize the detail panel",
            },
        }
    }
}

/// Clamp to the panel's bounds. The window's size plays no part: it must not
/// leak into the stored width.
pub fn clamp(panel: Panel, width: u32) -> (r: u32)
    ensures
        r == clamped(panel, width as int),
        least(panel) <= r <= most(panel),
{
    let spec = panel.spec();
    if width < spec.min {
        spec.min
    } else if width > spec.max {
        spec.max
    } else {
        width
    }
}

/// The width the settings hold for a panel.
pub open spec fn stored(s: AppSettings, p: Panel) -> u32 {
    match p {
        Panel::Sidebar => s.sidebar_width,
        Panel::Detail => s.detail_width,
    }
}

/// The settings with another width for a panel.
pub open spec fn resized(s: AppSettings, p: Panel, width: u32) -> AppSettings {
    match p {
        Panel::Sidebar => AppSettings { sidebar_width: width, ..s },
        Panel::Detail => AppSettings { detail_width: width, ..s },
    }
}

/// Store a width for a panel, clamped, and give the stored one.
pub fn apply(settings: &mut AppSettings, panel: Panel, width: u32) -> (r: u32)
    ensures
        r == clamped(panel, width as int),
        *final(settings) == resized(*old(settings), panel, r),
{
    let width: u32 = clamp(panel, width);
    match panel {
        Panel::Sidebar => settings.sidebar_width = width,
        Panel::Detail => settings.detail_width = width,
    }
    width
}

/// The width a panel is drawn with.
pub fn current(settings: &AppSettings, panel: Panel) -> (r: u32)
    ensures
        r == clamped(panel, stored(*settings, panel) as int),
{
    match panel {
        Panel::Sidebar => clamp(panel, settings.sidebar_width),
        Panel::Detail => clamp(panel, settings.detail_width),
    }
}

/// A key pressed on a handle.
#[derive(Debug, Clone, Copy, PartialEq, Eq, Structural)]
pub enum ResizeKey {
    Left,
    Right,
    Home,
    Other,
}

/// The width a key asks for. The arrows move the panel's inner edge, in big
/// steps with Shift; Home goes back to the initial width.
pub open spec fn nudged(p: Panel, from: u32, key: ResizeKey, shift: bool) -> Option<int> {
    let step: int = if shift {
        64
    } else {
        16
    };
    let outward: int = if p == Panel::Sidebar {
        step
    } else {
        -step
    };
    match key {
        ResizeKey::Left => Some(if from - outward > 0 {
            from - outward
        } else {
            0
        }),
        ResizeKey::Right => Some(if from + outward > 0 {
            from + outward
        } else {
            0
        }),
        ResizeKey::Home => Some(initial(p) as int),
        ResizeKey::Other => None,
    }
}

/// Resize by keyboard: whether the key was taken.
pub fn nudge(settings: &mut AppSettings, panel: Panel, key: ResizeKey, shift: bool) -> (taken: bool)
    ensures
        ({
            let from = clamped(panel, stored(*old(settings), panel) as int);
            match nudged(panel, from, key, shift) {
                Some(width) => taken && *final(settings) == resized(
                    *old(settings),
                    panel,
                    clamped(panel, width),
                ),
                None => !taken && *final(settings) == *old(settings),
            }
        }),
{
    let from: i64 = current(settings, panel) as i64;
    let step: i64 = if shift {
        64
    } else {
        16
    };
    let outward: i64 = match panel {
        Panel::Sidebar => step,
        Panel::Detail => -step,
    };
    let width: i64 = match key {
        ResizeKey::Left => from - outward,
        ResizeKey::Right => from + outward,
        ResizeKey::Home => panel.spec().default as i64,
        ResizeKey::Other => return false,
    };
    let width: u32 = if width > 0 {
        width as u32
    } else {
        0
    };
    apply(settings, panel, width);
    true
}

/// The settings with another width for a panel, as a mathematical value.
pub open spec fn rewidthed(s: SettingsView, p: Panel, width: u32) -> SettingsView {
    match p {
        Panel::Sidebar => SettingsView { sidebar_width: width, ..s },
        Panel::Detail => SettingsView { detail_width: width, ..s },
    }
}

impl AppState {
    /// Have a panel's width saved, clamped: what is sent.
    pub fn save_width(&self, panel: Panel, width: u32) -> (r: ExecutorCommand)
        ensures
            r matches ExecutorCommand::SaveSettings { settings } && settings@ == rewidthed(
                self@.settings@,
                panel,
                clamped(panel, width as int),
            ),
    {
        let mut settings = self.settings.clone();
        apply(&mut settings, panel, width);
        self.save_settings(settings)
    }

    /// Resize a panel by keyboard, if the key was taken: what is sent, and the
    /// width to show at once.
    pub fn nudge_panel(&self, panel: Panel, key: ResizeKey, shift: bool) -> (r: Option<
        (ExecutorCommand, u32),
    >)
        ensures
            match nudged(
                panel,
                clamped(panel, stored(self@.settings, panel) as int),
                key,
                shift,
            ) {
                Some(width) => r matches Some((ExecutorCommand::SaveSettings { settings }, live))
                    && live == clamped(panel, width) && settings@ == rewidthed(
                    self@.settings@,
                    panel,
                    live,
                ),
                None => r is None,
            },
    {
        let mut settings = self.settings.clone();
        assert(settings@.sidebar_width == self.settings.sidebar_width);
        assert(settings@.detail_width == self.settings.detail_width);
        if nudge(&mut settings, panel, key, shift) {
            let width = current(&settings, panel);
            Some((self.save_settings(settings), width))
        } else {
            None
        }
    }
}

/// Which panel a drag's message is about.
pub fn dragged_panel(key: &str) -> (r: Panel)
    ensures
        r == (if key@ == "sidebar"@ {
            Panel::Sidebar
        } else {
            Panel::Detail
        }),
{
    if same_text(key, "sidebar") {
        Panel::Sidebar
    } else {
        Panel::Detail
    }
}

/// The style sheet that carries the persisted widths.
pub open spec fn width_sheet(s: AppSettings) -> Seq<char> {
    ":root{--sidebar-w:"@ + decimal(
        clamped(Panel::Sidebar, s.sidebar_width as int) as nat,
    ) + "px;--detail-w:"@ + decimal(clamped(Panel::Detail, s.detail_width as int) as nat)
        + "px;}"@
}

pub fn root_style(settings: &AppSettings) -> (r: String)
    ensures
        r@ == width_sheet(*settings),
{
    let sw = decimal_text(current(settings, Panel::Sidebar) as u64);
    let dw = decimal_text(current(settings, Panel::Detail) as u64);
    cat5(":root{--sidebar-w:", sw.as_str(), "px;--detail-w:", dw.as_str(), "px;}")
}

/// Clamping twice is clamping once, and what is drawn after a resize is what
/// was stored.
pub proof fn resized_width_is_drawn(s: AppSettings, p: Panel, width: int)
    ensures
        clamped(p, clamped(p, width) as int) == clamped(p, width),
        clamped(p, stored(resized(s, p, clamped(p, width)), p) as int) == clamped(p, width),
        least(p) <= clamped(p, width) <= most(p),
{
}

/// Resizing one panel leaves the other's width alone.
pub proof fn resizing_spares_the_other(s: AppSettings, p: Panel, q: Panel, width: u32)
    requires
        p != q,
    ensures
        stored(resized(s, p, width), q) == stored(s, q),
{
}

/// The right arrow widens the sidebar and narrows the detail panel, which stands at the
/// other edge; the left arrow does the reverse; shift takes a step four times as long.
/// A step and the step back end where they began.
pub proof fn arrows_move_the_edge(p: Panel, from: u32, shift: bool)
    requires
        64 < from < u32::MAX - 64,
    ensures
        ({
            let right = nudged(p, from, ResizeKey::Right, shift);
            let left = nudged(p, from, ResizeKey::Left, shift);
            &&& right is Some && left is Some
            &&& p == Panel::Sidebar ==> right->0 > from && left->0 < from
            &&& p == Panel::Detail ==> right->0 < from && left->0 > from
            &&& right->0 - from == from - left->0
            &&& nudged(p, right->0 as u32, ResizeKey::Left, shift) == Some(from as int)
            &&& nudged(p, left->0 as u32, ResizeKey::Right, shift) == Some(from as int)
        }),
        nudged(p, from, ResizeKey::Right, true)->0 - from == 4 * (nudged(
            p,
            from,
            ResizeKey::Right,
            false,
        )->0 - from),
        nudged(p, from, ResizeKey::Home, shift) == Some(initial(p) as int),
        nudged(p, from, ResizeKey::Other, shift) is None,
{
}

/// A width that fits is kept; one that does not goes to the nearer bound. A panel opens
/// within its bounds.
pub proof fn widths_go_to_the_nearer_bound(p: Panel, width: int, wider: int)
    requires
        width <= wider,
    ensures
        least(p) <= width <= most(p) ==> clamped(p, width) == width,
        width <= least(p) ==> clamped(p, width) == least(p),
        width >= most(p) ==> clamped(p, width) == most(p),
        clamped(p, width) <= clamped(p, wider),
        least(p) < initial(p) < most(p),
{
}

/// A width is stored for its own panel, and nothing else of the settings changes.
pub proof fn a_width_is_stored_for_its_panel(s: AppSettings, v: SettingsView, p: Panel, width: u32)
    ensures
        stored(resized(s, p, width), p) == width,
        resized(s, p, width) == (AppSettings {
            sidebar_width: resized(s, p, width).sidebar_width,
            detail_width: resized(s, p, width).detail_width,
            ..s
        }),
        p == Panel::Sidebar ==> rewidthed(v, p, width).sidebar_width == width && rewidthed(
            v,
            p,
            width,
        ).detail_width == v.detail_width,
        p == Panel::Detail ==> rewidthed(v, p, width).detail_width == width && rewidthed(
            v,
            p,
            width,
        ).sidebar_width == v.sidebar_width,
        rewidthed(v, p, width) == (SettingsView {
            sidebar_width: rewidthed(v, p, width).sidebar_width,
            detail_width: rewidthed(v, p, width).detail_width,
            ..v
        }),
{
}

/// A drag reports its panel by the panel's key, and each panel has its own.
pub proof fn a_drag_names_its_panel(p: Panel, spec: PanelSpec, dragged: Panel)
    requires
        call_ensures(Panel::spec, (p,), spec),
        call_ensures(dragged_panel, (spec.key,), dragged),
    ensures
        dragged == p,
        spec.min == least(p) && spec.max == most(p) && spec.default == initial(p),
{
    reveal_strlit("sidebar");
    reveal_strlit("detail");
    assert("sidebar"@.len() == 7 && "detail"@.len() == 6);
}

/// The sheet sets both widths, as they are drawn.
pub proof fn the_sheet_sets_both_widths(s: AppSettings)
    ensures
        within(
            width_sheet(s),
            "--sidebar-w:"@ + decimal(clamped(Panel::Sidebar, s.sidebar_width as int) as nat)
                + "px;"@,
        ),
        within(
            width_sheet(s),
            "--detail-w:"@ + decimal(clamped(Panel::Detail, s.detail_width as int) as nat)
                + "px;"@,
        ),
{
    let a = decimal(clamped(Panel::Sidebar, s.sidebar_width as int) as nat);
    let b = decimal(clamped(Panel::Detail, s.detail_width as int) as nat);
    reveal_strlit(":root{--sidebar-w:");
    reveal_strlit("--sidebar-w:");
    reveal_strlit("px;--detail-w:");
    reveal_strlit("--detail-w:");
    reveal_strlit("px;");
    reveal_strlit("px;}");
    let w = width_sheet(s);
    let root = seq![':', 'r', 'o', 'o', 't', '{'];
    let end = seq!['}'];
    assert(":root{--sidebar-w:"@ =~= root + "--sidebar-w:"@);
    assert("px;--detail-w:"@ =~= "px;"@ + "--detail-w:"@);
    assert("px;}"@ =~= "px;"@ + end);
    let one = "--sidebar-w:"@ + a + "px;"@;
    let two = "--detail-w:"@ + b + "px;"@;
    assert(w =~= root + one + (two + end));
    parts_are_found(root, one, two + end);
    assert(w =~= root + one + two + end);
    parts_are_found(root + one, two, end);
}

/// A step that would go below nothing stops there.
pub proof fn arrows_stop_at_nothing(p: Panel, from: u32, key: ResizeKey, shift: bool, wide: u32)
    requires
        wide > from + 64,
        key is Left || key is Right,
    ensures
        ({
            let far = nudged(p, wide, key, shift)->0 - wide;
            let r = nudged(p, from, key, shift)->0;
            r == (if from + far > 0 {
                from + far
            } else {
                0
            })
        }),
{
}

} // verus!
