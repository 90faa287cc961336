//! Choosing the way to make a session.
//!
//! Which ways work has to be tried on the desktop. The selector is asked again with what is
//! known by then, until it has chosen.

use crate::gui::state::{DeploymentContext, ServiceLevel};
use crate::session::strategies::portal_token::PortalTokenStrategy;
use crate::session::strategy::CursorMode;
use crate::text::{chars_of, find_from, first_at, has_char, has_prefix, lemma_first_at, same_text,
    starts_with, text_of, texts, trim, trimmed};
use vstd::prelude::*;

verus! {

/// What is known of the desktop's services.
#[derive(Debug)]
pub struct ServiceRegistry {
    pub deployment: DeploymentContext,
    /// The compositor's own interface.
    pub direct_compositor_api: ServiceLevel,
    /// The input protocols of a wlroots compositor.
    pub wlr_direct_input: ServiceLevel,
    /// Emulated input through the portal.
    pub libei_input: ServiceLevel,
    /// The strategy that the services suggest.
    pub recommended_strategy: String,
    /// Whether the desktop keeps sessions.
    pub session_persistence: bool,
    /// The ways in which the portal can show the pointer.
    pub cursor_modes: Vec<CursorMode>,
}

impl ServiceLevel {
    /// The service can be relied on at least where it happens to work.
    pub open spec fn usable(self) -> bool {
        self == ServiceLevel::Guaranteed || self == ServiceLevel::BestEffort
    }

    fn is_usable(&self) -> (r: bool)
        ensures
            r == self.usable(),
    {
        match self {
            ServiceLevel::Guaranteed => true,
            ServiceLevel::BestEffort => true,
            ServiceLevel::Degraded => false,
            ServiceLevel::Unavailable => false,
        }
    }
}

/// Something to try on the desktop.
#[derive(Debug, Clone, Copy, PartialEq, Eq, Structural)]
pub enum Probe {
    /// The portal's remote desktop names its device types.
    RemoteDesktop,
    /// The portal can capture the screen.
    ScreenCast,
    /// The compositor's own interface answers.
    MutterDirect,
    /// The embedded portal backend finds its protocols.
    PortalGeneric,
    /// The wlroots protocols are there.
    WlrDirect,
    /// Emulated input can be had from the portal.
    Libei,
}

/// What was tried so far, and how it went.
#[derive(Debug, Clone, Copy, PartialEq, Eq, Structural)]
pub struct Probes {
    pub remote_desktop: Option<bool>,
    pub screen_cast: Option<bool>,
    pub mutter_direct: Option<bool>,
    pub portal_generic: Option<bool>,
    pub wlr_direct: Option<bool>,
    pub libei: Option<bool>,
}

impl Probes {
    /// How a probe went, where it was made.
    pub open spec fn answer(self, probe: Probe) -> Option<bool> {
        match probe {
            Probe::RemoteDesktop => self.remote_desktop,
            Probe::ScreenCast => self.screen_cast,
            Probe::MutterDirect => self.mutter_direct,
            Probe::PortalGeneric => self.portal_generic,
            Probe::WlrDirect => self.wlr_direct,
            Probe::Libei => self.libei,
        }
    }

    /// Nothing was tried yet.
    pub fn new() -> (r: Self)
        ensures
            forall|p: Probe| #[trigger] r.answer(p) is None,
    {
        Probes {
            remote_desktop: None,
            screen_cast: None,
            mutter_direct: None,
            portal_generic: None,
            wlr_direct: None,
            libei: None,
        }
    }

    /// Takes how a probe went.
    pub fn record(&mut self, probe: Probe, works: bool)
        ensures
            final(self).answer(probe) == Some(works),
            forall|p: Probe| p != probe ==> #[trigger] final(self).answer(p) == old(self).answer(p),
    {
        match probe {
            Probe::RemoteDesktop => {
                self.remote_desktop = Some(works);
            },
            Probe::ScreenCast => {
                self.screen_cast = Some(works);
            },
            Probe::MutterDirect => {
                self.mutter_direct = Some(works);
            },
            Probe::PortalGeneric => {
                self.portal_generic = Some(works);
            },
            Probe::WlrDirect => {
                self.wlr_direct = Some(works);
            },
            Probe::Libei => {
                self.libei = Some(works);
            },
        }
    }
}

/// A way to make a session.
#[derive(Debug, Clone, Copy, PartialEq, Eq, Structural)]
pub enum StrategyKind {
    PortalToken,
    MutterDirect,
    PortalGeneric,
    WlrDirect,
    Libei,
    ScreenCastOnly,
}

/// A way to make a session, with what it is made from.
#[derive(Debug)]
pub enum StrategyPlan {
    PortalToken(PortalTokenStrategy),
    /// The connector of the monitor to capture; a virtual monitor where there is none.
    MutterDirect { monitor: Option<String> },
    PortalGeneric,
    WlrDirect { keyboard_layout: String },
    Libei,
    ScreenCastOnly { cursor_modes: Vec<CursorMode> },
}

/// What the selector says.
#[derive(Debug, Clone, Copy, PartialEq, Eq, Structural)]
pub enum Selection {
    /// Try this, then ask again.
    Ask(Probe),
    /// Make the session this way.
    Use(StrategyKind),
    /// No way is left in the sandbox.
    UnavailableInFlatpak,
    /// No way is left.
    Unavailable,
}

impl Selection {
    /// The reason why no session can be made.
    pub open spec fn text(self) -> Option<Seq<char>> {
        match self {
            Selection::UnavailableInFlatpak => Some(
                "No portal strategy available in Flatpak: RemoteDesktop and ScreenCast both unavailable"@,
            ),
            Selection::Unavailable => Some(
                "No session strategy available: all input methods and ScreenCast unavailable"@,
            ),
            _ => None,
        }
    }

    /// The reason why no session can be made.
    pub fn failure(&self) -> (r: Option<String>)
        ensures
            match r {
                Some(t) => self.text() == Some(t@),
                None => self.text() is None,
            },
    {
        match self {
            Selection::UnavailableInFlatpak => Some(
                "No portal strategy available in Flatpak: RemoteDesktop and ScreenCast both unavailable".to_owned(),
            ),
            Selection::Unavailable => Some(
                "No session strategy available: all input methods and ScreenCast unavailable".to_owned(),
            ),
            _ => None,
        }
    }
}

/// Chooses the way to make a session.
#[derive(Debug)]
pub struct SessionStrategySelector {
    pub service_registry: ServiceRegistry,
    pub keyboard_layout: String,
    pub prefers_libei: bool,
}

/// Tries one way, and else goes on: the way is used where it works, tried where that is not
/// known, and passed over where it does not.
pub open spec fn try_then(
    wanted: bool,
    answer: Option<bool>,
    probe: Probe,
    kind: StrategyKind,
    otherwise: Selection,
) -> Selection {
    if !wanted {
        otherwise
    } else {
        match answer {
            None => Selection::Ask(probe),
            Some(true) => Selection::Use(kind),
            Some(false) => otherwise,
        }
    }
}

impl SessionStrategySelector {
    /// A selector that prefers emulated input.
    pub fn new(service_registry: ServiceRegistry) -> (r: Self)
        ensures
            r.service_registry == service_registry,
            r.keyboard_layout@ == "auto"@,
            r.prefers_libei,
    {
        Self::with_keyboard_layout(service_registry, "auto".to_owned())
    }

    /// A selector for a given keyboard layout.
    pub fn with_keyboard_layout(service_registry: ServiceRegistry, keyboard_layout: String) -> (r:
        Self)
        ensures
            r.service_registry == service_registry,
            r.keyboard_layout == keyboard_layout,
            r.prefers_libei,
    {
        SessionStrategySelector { service_registry, keyboard_layout, prefers_libei: true }
    }

    /// The selector with another preference for emulated input.
    pub fn with_input_protocol(self, prefers_libei: bool) -> (r: Self)
        ensures
            r == (SessionStrategySelector { prefers_libei, ..self }),
    {
        SessionStrategySelector {
            service_registry: self.service_registry,
            keyboard_layout: self.keyboard_layout,
            prefers_libei,
        }
    }

    /// What to do in the sandbox: the portal with input, or else without.
    pub open spec fn in_flatpak(known: Probes) -> Selection {
        try_then(
            true,
            known.remote_desktop,
            Probe::RemoteDesktop,
            StrategyKind::PortalToken,
            try_then(
                true,
                known.screen_cast,
                Probe::ScreenCast,
                StrategyKind::ScreenCastOnly,
                Selection::UnavailableInFlatpak,
            ),
        )
    }

    /// What to do on a desktop without restrictions: first the compositor's own interface,
    /// then the wlroots protocols where there are any, then emulated input and the portal
    /// where those are preferred, and at last video without input.
    pub open spec fn unrestricted(self, known: Probes) -> Selection {
        let services = self.service_registry;
        let last = try_then(
            true,
            known.screen_cast,
            Probe::ScreenCast,
            StrategyKind::ScreenCastOnly,
            Selection::Unavailable,
        );
        let portal = match known.remote_desktop {
            None => Selection::Ask(Probe::RemoteDesktop),
            Some(works) => if self.prefers_libei && works {
                Selection::Use(StrategyKind::PortalToken)
            } else {
                last
            },
        };
        let libei = try_then(
            self.prefers_libei && services.libei_input.usable(),
            known.libei,
            Probe::Libei,
            StrategyKind::Libei,
            portal,
        );
        let wlr = try_then(
            services.wlr_direct_input.usable(),
            known.wlr_direct,
            Probe::WlrDirect,
            StrategyKind::WlrDirect,
            libei,
        );
        let generic = try_then(
            services.wlr_direct_input.usable(),
            known.portal_generic,
            Probe::PortalGeneric,
            StrategyKind::PortalGeneric,
            wlr,
        );
        try_then(
            services.direct_compositor_api.usable(),
            known.mutter_direct,
            Probe::MutterDirect,
            StrategyKind::MutterDirect,
            generic,
        )
    }

    /// What to do, given what is known. A service of the init system always goes through the
    /// portal.
    pub open spec fn selection(self, known: Probes) -> Selection {
        match self.service_registry.deployment {
            DeploymentContext::Flatpak => Self::in_flatpak(known),
            DeploymentContext::SystemdUser { .. } | DeploymentContext::SystemdSystem =>
                Selection::Use(StrategyKind::PortalToken),
            _ => self.unrestricted(known),
        }
    }

    fn try_way(
        wanted: bool,
        answer: Option<bool>,
        probe: Probe,
        kind: StrategyKind,
        otherwise: Selection,
    ) -> (r: Selection)
        ensures
            r == try_then(wanted, answer, probe, kind, otherwise),
    {
        if !wanted {
            otherwise
        } else {
            match answer {
                None => Selection::Ask(probe),
                Some(works) => if works {
                    Selection::Use(kind)
                } else {
                    otherwise
                },
            }
        }
    }

    fn select_unrestricted(&self, known: &Probes) -> (r: Selection)
        ensures
            r == self.unrestricted(*known),
    {
        let wlr_usable = self.service_registry.wlr_direct_input.is_usable();
        let last = Self::try_way(
            true,
            known.screen_cast,
            Probe::ScreenCast,
            StrategyKind::ScreenCastOnly,
            Selection::Unavailable,
        );
        let portal = match known.remote_desktop {
            None => Selection::Ask(Probe::RemoteDesktop),
            Some(works) => if self.prefers_libei && works {
                Selection::Use(StrategyKind::PortalToken)
            } else {
                last
            },
        };
        let libei = Self::try_way(
            self.prefers_libei && self.service_registry.libei_input.is_usable(),
            known.libei,
            Probe::Libei,
            StrategyKind::Libei,
            portal,
        );
        let wlr = Self::try_way(
            wlr_usable,
            known.wlr_direct,
            Probe::WlrDirect,
            StrategyKind::WlrDirect,
            libei,
        );
        let generic = Self::try_way(
            wlr_usable,
            known.portal_generic,
            Probe::PortalGeneric,
            StrategyKind::PortalGeneric,
            wlr,
        );
        Self::try_way(
            self.service_registry.direct_compositor_api.is_usable(),
            known.mutter_direct,
            Probe::MutterDirect,
            StrategyKind::MutterDirect,
            generic,
        )
    }

    /// What to do, given what is known.
    pub fn select_strategy(&self, known: &Probes) -> (r: Selection)
        ensures
            r == self.selection(*known),
    {
        match self.service_registry.deployment {
            DeploymentContext::Flatpak => {
                let without_input = Self::try_way(
                    true,
                    known.screen_cast,
                    Probe::ScreenCast,
                    StrategyKind::ScreenCastOnly,
                    Selection::UnavailableInFlatpak,
                );
                Self::try_way(
                    true,
                    known.remote_desktop,
                    Probe::RemoteDesktop,
                    StrategyKind::PortalToken,
                    without_input,
                )
            },
            DeploymentContext::SystemdUser { .. } | DeploymentContext::SystemdSystem =>
                Selection::Use(StrategyKind::PortalToken),
            _ => self.select_unrestricted(known),
        }
    }

    /// Whether a plan is that of a way that was chosen.
    pub open spec fn plans(
        self,
        kind: StrategyKind,
        outputs: Option<Vec<DrmEntry>>,
        r: StrategyPlan,
    ) -> bool {
        match kind {
            StrategyKind::PortalToken => r matches StrategyPlan::PortalToken(s)
                && s.session_persistence == self.service_registry.session_persistence,
            StrategyKind::MutterDirect => r matches StrategyPlan::MutterDirect { monitor }
                && is_primary_monitor(monitor, outputs),
            StrategyKind::PortalGeneric => r is PortalGeneric,
            StrategyKind::WlrDirect => r matches StrategyPlan::WlrDirect { keyboard_layout }
                && keyboard_layout@ == self.keyboard_layout@,
            StrategyKind::Libei => r is Libei,
            StrategyKind::ScreenCastOnly => r matches StrategyPlan::ScreenCastOnly { cursor_modes }
                && cursor_modes@ == self.service_registry.cursor_modes@,
        }
    }

    /// What a way that was chosen is made from, with the outputs of the graphics cards where
    /// they could be read.
    pub fn plan(&self, kind: StrategyKind, outputs: &Option<Vec<DrmEntry>>) -> (r: StrategyPlan)
        ensures
            self.plans(kind, *outputs, r),
    {
        match kind {
            StrategyKind::PortalToken => StrategyPlan::PortalToken(
                PortalTokenStrategy::new(self.service_registry.session_persistence),
            ),
            StrategyKind::MutterDirect => StrategyPlan::MutterDirect {
                monitor: detect_primary_monitor(outputs),
            },
            StrategyKind::PortalGeneric => StrategyPlan::PortalGeneric,
            StrategyKind::WlrDirect => StrategyPlan::WlrDirect {
                keyboard_layout: self.keyboard_layout.clone(),
            },
            StrategyKind::Libei => StrategyPlan::Libei,
            StrategyKind::ScreenCastOnly => {
                let cursor_modes = self.service_registry.cursor_modes.clone();
                assert(cursor_modes@ =~= self.service_registry.cursor_modes@);
                StrategyPlan::ScreenCastOnly { cursor_modes }
            },
        }
    }

    /// The strategy that the services suggest.
    pub fn recommended_strategy_name(&self) -> (r: &str)
        ensures
            r@ == self.service_registry.recommended_strategy@,
    {
        self.service_registry.recommended_strategy.as_str()
    }
}

/// The connector of a graphics card's output, where a monitor is connected to it: what
/// follows the first hyphen of the output's name.
pub open spec fn connector(name: Seq<char>, status: Option<Seq<char>>) -> Option<Seq<char>> {
    if has_prefix(name, "card"@) && name.contains('-') && (status matches Some(s) && trimmed(s)
        == "connected"@) && first_at(name, '-') + 1 < name.len() {
        Some(name.skip(first_at(name, '-') + 1))
    } else {
        None
    }
}

/// The connector of a graphics card's output, where a monitor is connected to it.
pub fn connector_of(name: &String, status: &Option<String>) -> (r: Option<String>)
    ensures
        match r {
            Some(c) => connector(
                name@,
                match *status {
                    Some(s) => Some(s@),
                    None => None,
                },
            ) == Some(c@),
            None => connector(
                name@,
                match *status {
                    Some(s) => Some(s@),
                    None => None,
                },
            ) is None,
        },
{
    if !starts_with(name.as_str(), "card") || !has_char(name.as_str(), '-') {
        return None;
    }
    match status {
        None => None,
        Some(s) => {
            if !same_text(trim(s.as_str()).as_str(), "connected") {
                return None;
            }
            let chars = chars_of(name.as_str());
            let at: usize = find_from(&chars, 0, '-');
            proof {
                assert(chars@.skip(0) =~= name@);
                lemma_first_at(name@, '-');
            }
            let n: usize = chars.len();
            if at < n - 1 {
                let c = text_of(&chars, at + 1, n);
                assert(c@ =~= name@.skip(at + 1));
                Some(c)
            } else {
                None
            }
        },
    }
}

/// What is read of a graphics card's output: its name, and its status where it has one.
#[derive(Debug)]
pub struct DrmEntry {
    pub name: String,
    pub status: Option<String>,
}

impl DrmEntry {
    /// The connector, where a monitor is connected.
    pub open spec fn connected(self) -> Option<Seq<char>> {
        connector(
            self.name@,
            match self.status {
                Some(s) => Some(s@),
                None => None,
            },
        )
    }
}

/// The connectors with a monitor, in the order of the entries.
pub open spec fn connectors(entries: Seq<DrmEntry>) -> Seq<Seq<char>>
    decreases entries.len(),
{
    if entries.len() == 0 {
        seq![]
    } else {
        let before = connectors(entries.drop_last());
        match entries.last().connected() {
            Some(c) => before.push(c),
            None => before,
        }
    }
}

/// The connectors with a monitor, in the order of the entries.
pub fn enumerate_drm_connectors(entries: &Vec<DrmEntry>) -> (r: Vec<String>)
    ensures
        texts(r@) == connectors(entries@),
{
    let mut r: Vec<String> = Vec::new();
    let mut i: usize = 0;
    while i < entries.len()
        invariant
            i <= entries@.len(),
            texts(r@) =~= connectors(entries@.take(i as int)),
        decreases entries@.len() - i,
    {
        assert(entries@.take(i + 1).drop_last() =~= entries@.take(i as int));
        if let Some(c) = connector_of(&entries[i].name, &entries[i].status) {
            let ghost before = r@;
            r.push(c);
            assert(texts(r@) =~= texts(before).push(c@));
        }
        i += 1;
    }
    assert(entries@.take(i as int) =~= entries@);
    r
}

/// The monitor to capture is the first connector. There is none where no output has a monitor,
/// or where the outputs could not be read.
pub open spec fn is_primary_monitor(
    monitor: Option<String>,
    entries: Option<Vec<DrmEntry>>,
) -> bool {
    match monitor {
        Some(c) => entries matches Some(es) && connectors(es@).len() > 0 && connectors(es@)[0]
            == c@,
        None => entries matches Some(es) ==> connectors(es@).len() == 0,
    }
}

/// The monitor to capture: the first connector. Without one, or where the outputs could not
/// be read, a virtual monitor is used.
pub fn detect_primary_monitor(entries: &Option<Vec<DrmEntry>>) -> (r: Option<String>)
    ensures
        is_primary_monitor(r, *entries),
{
    match entries {
        None => None,
        Some(es) => {
            let found = enumerate_drm_connectors(es);
            assert(texts(found@).len() == found@.len());
            if found.len() > 0 {
                assert(texts(found@)[0] == found@[0]@);
                Some(found[0].clone())
            } else {
                None
            }
        },
    }
}

/// A probe is only asked for where it was not made yet, so the selector chooses after at most
/// one of each.
pub proof fn asking_makes_progress(selector: SessionStrategySelector, known: Probes)
    ensures
        selector.selection(known) matches Selection::Ask(p) ==> known.answer(p) is None,
{
}

/// Apart from a service of the init system, a way is only chosen where its probe succeeded.
pub proof fn choices_were_tried(selector: SessionStrategySelector, known: Probes)
    requires
        !(selector.service_registry.deployment is SystemdUser),
        !(selector.service_registry.deployment is SystemdSystem),
    ensures
        selector.selection(known) matches Selection::Use(kind) ==> known.answer(
            match kind {
                StrategyKind::PortalToken => Probe::RemoteDesktop,
                StrategyKind::MutterDirect => Probe::MutterDirect,
                StrategyKind::PortalGeneric => Probe::PortalGeneric,
                StrategyKind::WlrDirect => Probe::WlrDirect,
                StrategyKind::Libei => Probe::Libei,
                StrategyKind::ScreenCastOnly => Probe::ScreenCast,
            },
        ) == Some(true),
{
}

/// In the sandbox only the portal is used.
pub proof fn flatpak_stays_in_portal(selector: SessionStrategySelector, known: Probes)
    requires
        selector.service_registry.deployment == DeploymentContext::Flatpak,
    ensures
        selector.selection(known) matches Selection::Use(kind) ==> kind == StrategyKind::PortalToken
            || kind == StrategyKind::ScreenCastOnly,
        selector.selection(known) matches Selection::Ask(p) ==> p == Probe::RemoteDesktop || p
            == Probe::ScreenCast,
{
}

/// A selector that does not prefer emulated input never chooses it, nor the portal's input,
/// on a desktop without restrictions.
pub proof fn preference_is_kept(selector: SessionStrategySelector, known: Probes)
    requires
        !selector.prefers_libei,
        !(selector.service_registry.deployment is Flatpak),
        !(selector.service_registry.deployment is SystemdUser),
        !(selector.service_registry.deployment is SystemdSystem),
    ensures
        selector.selection(known) != Selection::Use(StrategyKind::Libei),
        selector.selection(known) != Selection::Use(StrategyKind::PortalToken),
{
}

/// On a desktop without restrictions the compositor's own interface comes first: where its
/// service is usable it is tried before anything else, and used where it works.
pub proof fn compositor_comes_first(selector: SessionStrategySelector, known: Probes)
    requires
        !(selector.service_registry.deployment is Flatpak),
        !(selector.service_registry.deployment is SystemdUser),
        !(selector.service_registry.deployment is SystemdSystem),
        selector.service_registry.direct_compositor_api == ServiceLevel::Guaranteed
            || selector.service_registry.direct_compositor_api == ServiceLevel::BestEffort,
    ensures
        known.mutter_direct is None ==> selector.selection(known) == Selection::Ask(
            Probe::MutterDirect,
        ),
        known.mutter_direct == Some(true) ==> selector.selection(known) == Selection::Use(
            StrategyKind::MutterDirect,
        ),
{
}

/// On a desktop without restrictions, where the compositor's own interface is not usable or
/// does not work and the input of wlroots is usable, the embedded portal backend comes next and
/// the protocols themselves after it: each is tried in its turn, and used where it works.
pub proof fn wlroots_comes_second(selector: SessionStrategySelector, known: Probes)
    requires
        !(selector.service_registry.deployment is Flatpak),
        !(selector.service_registry.deployment is SystemdUser),
        !(selector.service_registry.deployment is SystemdSystem),
        selector.service_registry.direct_compositor_api == ServiceLevel::Degraded
            || selector.service_registry.direct_compositor_api == ServiceLevel::Unavailable
            || known.mutter_direct == Some(false),
        selector.service_registry.wlr_direct_input == ServiceLevel::Guaranteed
            || selector.service_registry.wlr_direct_input == ServiceLevel::BestEffort,
    ensures
        known.portal_generic is None ==> selector.selection(known) == Selection::Ask(
            Probe::PortalGeneric,
        ),
        known.portal_generic == Some(true) ==> selector.selection(known) == Selection::Use(
            StrategyKind::PortalGeneric,
        ),
        known.portal_generic == Some(false) && known.wlr_direct is None ==> selector.selection(
            known,
        ) == Selection::Ask(Probe::WlrDirect),
        known.portal_generic == Some(false) && known.wlr_direct == Some(true)
            ==> selector.selection(known) == Selection::Use(StrategyKind::WlrDirect),
{
}

/// On a desktop without restrictions, where neither the compositor's own interface nor wlroots
/// is left: emulated input comes next, where its service is usable and it is preferred; then
/// the portal with input, where that is preferred; and at last video without input. Where that
/// does not work either, there is no way.
pub proof fn emulated_input_comes_third(selector: SessionStrategySelector, known: Probes)
    requires
        !(selector.service_registry.deployment is Flatpak),
        !(selector.service_registry.deployment is SystemdUser),
        !(selector.service_registry.deployment is SystemdSystem),
        selector.service_registry.direct_compositor_api == ServiceLevel::Degraded
            || selector.service_registry.direct_compositor_api == ServiceLevel::Unavailable
            || known.mutter_direct == Some(false),
        selector.service_registry.wlr_direct_input == ServiceLevel::Degraded
            || selector.service_registry.wlr_direct_input == ServiceLevel::Unavailable || (
        known.portal_generic == Some(false) && known.wlr_direct == Some(false)),
    ensures
        ({
            let libei = selector.prefers_libei && (selector.service_registry.libei_input
                == ServiceLevel::Guaranteed || selector.service_registry.libei_input
                == ServiceLevel::BestEffort);
            let past_libei = !libei || known.libei == Some(false);
            let past_portal = past_libei && (known.remote_desktop == Some(false) || (
            known.remote_desktop is Some && !selector.prefers_libei));
            let next = selector.selection(known);
            &&& libei && known.libei is None ==> next == Selection::Ask(Probe::Libei)
            &&& libei && known.libei == Some(true) ==> next == Selection::Use(StrategyKind::Libei)
            &&& past_libei && known.remote_desktop is None ==> next == Selection::Ask(
                Probe::RemoteDesktop,
            )
            &&& past_libei && selector.prefers_libei && known.remote_desktop == Some(true) ==> next
                == Selection::Use(StrategyKind::PortalToken)
            &&& past_portal && known.screen_cast is None ==> next == Selection::Ask(
                Probe::ScreenCast,
            )
            &&& past_portal && known.screen_cast == Some(true) ==> next == Selection::Use(
                StrategyKind::ScreenCastOnly,
            )
            &&& past_portal && known.screen_cast == Some(false) ==> next == Selection::Unavailable
        }),
{
}

/// In the sandbox the portal with input comes first and video without input second; where
/// neither works there is no way.
pub proof fn portal_comes_first_in_flatpak(selector: SessionStrategySelector, known: Probes)
    requires
        selector.service_registry.deployment is Flatpak,
    ensures
        known.remote_desktop is None ==> selector.selection(known) == Selection::Ask(
            Probe::RemoteDesktop,
        ),
        known.remote_desktop == Some(true) ==> selector.selection(known) == Selection::Use(
            StrategyKind::PortalToken,
        ),
        known.remote_desktop == Some(false) && known.screen_cast is None ==> selector.selection(
            known,
        ) == Selection::Ask(Probe::ScreenCast),
        known.remote_desktop == Some(false) && known.screen_cast == Some(true)
            ==> selector.selection(known) == Selection::Use(StrategyKind::ScreenCastOnly),
        known.remote_desktop == Some(false) && known.screen_cast == Some(false)
            ==> selector.selection(known) == Selection::UnavailableInFlatpak,
{
}

/// A service of the init system uses the portal with input at once, whatever is known.
pub proof fn services_use_the_portal(selector: SessionStrategySelector, known: Probes)
    requires
        selector.service_registry.deployment is SystemdUser
            || selector.service_registry.deployment is SystemdSystem,
    ensures
        selector.selection(known) == Selection::Use(StrategyKind::PortalToken),
{
}

/// A choice stands: trying more of the desktop changes nothing once the selector has chosen or
/// given up.
pub proof fn choices_stand(selector: SessionStrategySelector, known: Probes, more: Probes)
    requires
        !(selector.selection(known) is Ask),
        forall|p: Probe| #[trigger] known.answer(p) is Some ==> more.answer(p) == known.answer(p),
    ensures
        selector.selection(more) == selector.selection(known),
{
    assert(known.answer(Probe::RemoteDesktop) is Some ==> more.remote_desktop
        == known.remote_desktop);
    assert(known.answer(Probe::ScreenCast) is Some ==> more.screen_cast == known.screen_cast);
    assert(known.answer(Probe::MutterDirect) is Some ==> more.mutter_direct
        == known.mutter_direct);
    assert(known.answer(Probe::PortalGeneric) is Some ==> more.portal_generic
        == known.portal_generic);
    assert(known.answer(Probe::WlrDirect) is Some ==> more.wlr_direct == known.wlr_direct);
    assert(known.answer(Probe::Libei) is Some ==> more.libei == known.libei);
}

/// Where everything was tried, the selector has chosen or given up.
pub proof fn full_knowledge_decides(selector: SessionStrategySelector, known: Probes)
    requires
        forall|p: Probe| #[trigger] known.answer(p) is Some,
    ensures
        !(selector.selection(known) is Ask),
{
    assert(known.answer(Probe::RemoteDesktop) is Some);
    assert(known.answer(Probe::ScreenCast) is Some);
    assert(known.answer(Probe::MutterDirect) is Some);
    assert(known.answer(Probe::PortalGeneric) is Some);
    assert(known.answer(Probe::WlrDirect) is Some);
    assert(known.answer(Probe::Libei) is Some);
}

/// The way that was chosen is the way that is made, from what was configured and found.
pub proof fn chosen_ways_are_made(
    selector: SessionStrategySelector,
    kind: StrategyKind,
    outputs: Option<Vec<DrmEntry>>,
    plan: StrategyPlan,
)
    requires
        selector.plans(kind, outputs, plan),
    ensures
        kind is PortalToken <==> plan is PortalToken,
        kind is MutterDirect <==> plan is MutterDirect,
        kind is PortalGeneric <==> plan is PortalGeneric,
        kind is WlrDirect <==> plan is WlrDirect,
        kind is Libei <==> plan is Libei,
        kind is ScreenCastOnly <==> plan is ScreenCastOnly,
        plan is WlrDirect ==> plan->keyboard_layout@ == selector.keyboard_layout@,
        plan is ScreenCastOnly ==> plan->cursor_modes@ == selector.service_registry.cursor_modes@,
        plan is PortalToken ==> plan->PortalToken_0.session_persistence
            == selector.service_registry.session_persistence,
        plan is MutterDirect && outputs is None ==> plan->monitor is None,
{
}

/// An output of a graphics card is a connector where a monitor is connected to it, by the name
/// behind the first hyphen. Any other entry, and an output with nothing connected, is none.
pub proof fn connected_outputs_are_connectors(card: Seq<char>, name: Seq<char>, status: Seq<char>)
    requires
        has_prefix(card, "card"@),
        !card.contains('-'),
        name.len() > 0,
    ensures
        trimmed(status) == "connected"@ ==> connector(card + seq!['-'] + name, Some(status)) == Some(
            name,
        ),
        trimmed(status) != "connected"@ ==> connector(
            card + seq!['-'] + name,
            Some(status),
        ) is None,
        connector(card + seq!['-'] + name, None) is None,
        connector(card, Some(status)) is None,
{
    let full = card + seq!['-'] + name;
    lemma_first_at(full, '-');
    let at = first_at(full, '-');
    assert(full[card.len() as int] == '-');
    assert(full.contains('-'));
    if at < card.len() {
        assert(card[at] == full[at]);
        assert(card.contains('-'));
    }
    assert(at == card.len());
    assert(full.skip(at + 1) =~= name);
    reveal_strlit("card");
    assert(full.take("card"@.len() as int) =~= card.take("card"@.len() as int));
}

/// Connectors are listed in the order of the entries, with the entries that are none left out.
pub proof fn connectors_keep_their_order(a: Seq<DrmEntry>, b: Seq<DrmEntry>, entry: DrmEntry)
    ensures
        connectors(a + b) == connectors(a) + connectors(b),
        entry.connected() is Some ==> connectors(seq![entry]) == seq![entry.connected()->0],
        entry.connected() is None ==> connectors(seq![entry]).len() == 0,
    decreases b.len(),
{
    assert(seq![entry].drop_last() =~= Seq::empty());
    reveal_with_fuel(connectors, 2);
    if entry.connected() is Some {
        assert(connectors(seq![entry]) =~= seq![entry.connected()->0]);
    }
    if b.len() == 0 {
        assert(a + b =~= a);
        assert(connectors(a) + connectors(b) =~= connectors(a));
    } else {
        assert((a + b).drop_last() =~= a + b.drop_last());
        connectors_keep_their_order(a, b.drop_last(), entry);
        assert(connectors(a + b) =~= connectors(a) + connectors(b));
    }
}

/// The first connector with a monitor is captured. Without one there is nothing to name.
pub proof fn first_monitor_is_captured(monitor: Option<String>, entries: Vec<DrmEntry>)
    requires
        is_primary_monitor(monitor, Some(entries)),
    ensures
        monitor is Some <==> connectors(entries@).len() > 0,
        monitor is Some ==> monitor->0@ == connectors(entries@)[0],
{
}

} // verus!
