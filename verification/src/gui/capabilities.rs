//! What the system offers, read from the server binary's report.
//!
//! The server binary prints a JSON report. [`parse_capabilities_json`] reads it,
//! [`capabilities_to_json`] writes one for export.

use crate::clock::Timestamp;
use crate::gui::app::join2;
use crate::gui::json::{
    agrees,
    array,
    distinct_names,
    entry,
    entry_trees,
    fits,
    lemma_agreeing_members,
    object,
    parse_json,
    parsed_json,
    print_json,
    printed_json,
    push_entry,
    reads_as,
    text_of,
    trees,
    Json,
    JsonTree,
    READ_DEPTH,
};
use crate::gui::state::{
    DeploymentContext,
    DetectedCapabilities,
    PlatformQuirk,
    ServiceInfo,
    ServiceLevel,
};
use crate::paths::{join_path, path_joined};
use crate::text::{
    decimal,
    is_ascii_text,
    lowercase,
    number,
    same_text,
    texts,
    to_lowercase,
};
use vstd::prelude::*;

verus! {

/// What a service entry says.
#[verifier::ext_equal]
pub struct ServiceView {
    pub id: Seq<char>,
    pub name: Seq<char>,
    pub level: ServiceLevel,
    pub level_emoji: Seq<char>,
    pub wayland_source: Option<Seq<char>>,
    pub rdp_capability: Option<Seq<char>>,
    pub notes: Seq<Seq<char>>,
}

/// What a quirk entry says.
#[verifier::ext_equal]
pub struct QuirkView {
    pub quirk_id: Seq<char>,
    pub description: Seq<char>,
    pub impact: Seq<char>,
}

/// What a service entry says.
pub open spec fn service_view(s: ServiceInfo) -> ServiceView {
    ServiceView {
        id: s.id@,
        name: s.name@,
        level: s.level,
        level_emoji: s.level_emoji@,
        wayland_source: text_of(s.wayland_source),
        rdp_capability: text_of(s.rdp_capability),
        notes: texts(s.notes@),
    }
}

/// What a quirk entry says.
pub open spec fn quirk_view(q: PlatformQuirk) -> QuirkView {
    QuirkView { quirk_id: q.quirk_id@, description: q.description@, impact: q.impact@ }
}

/// What the service entries say.
pub open spec fn service_views(v: Seq<ServiceInfo>) -> Seq<ServiceView> {
    Seq::new(v.len(), |i: int| service_view(v[i]))
}

/// What the quirk entries say.
pub open spec fn quirk_views(v: Seq<PlatformQuirk>) -> Seq<QuirkView> {
    Seq::new(v.len(), |i: int| quirk_view(v[i]))
}

/// The deployment that a name in lower case stands for.
pub open spec fn named_deployment(name: Seq<char>, linger: Option<bool>) -> DeploymentContext {
    if name == "native"@ {
        DeploymentContext::Native
    } else if name == "flatpak"@ {
        DeploymentContext::Flatpak
    } else if name == "systemd-user"@ {
        DeploymentContext::SystemdUser { linger: linger == Some(true) }
    } else if name == "systemd-system"@ || name == "systemd"@ {
        DeploymentContext::SystemdSystem
    } else if name == "initd"@ || name == "init.d"@ {
        DeploymentContext::InitD
    } else {
        DeploymentContext::Unknown
    }
}

/// The deployment that a name in lower case stands for.
pub fn deployment_named(name: &str, linger: Option<bool>) -> (r: DeploymentContext)
    ensures
        r == named_deployment(name@, linger),
{
    if same_text(name, "native") {
        DeploymentContext::Native
    } else if same_text(name, "flatpak") {
        DeploymentContext::Flatpak
    } else if same_text(name, "systemd-user") {
        DeploymentContext::SystemdUser {
            linger: match linger {
                Some(b) => b,
                None => false,
            },
        }
    } else if same_text(name, "systemd-system") || same_text(name, "systemd") {
        DeploymentContext::SystemdSystem
    } else if same_text(name, "initd") || same_text(name, "init.d") {
        DeploymentContext::InitD
    } else {
        DeploymentContext::Unknown
    }
}

/// Reads a deployment name in any case.
pub fn parse_deployment_context(context: &str, linger: Option<bool>) -> (r: DeploymentContext)
    ensures
        r == named_deployment(lowercase(context@), linger),
{
    deployment_named(to_lowercase(context).as_str(), linger)
}

/// The service level that a name in lower case stands for.
pub open spec fn named_level(name: Seq<char>) -> ServiceLevel {
    if name == "guaranteed"@ {
        ServiceLevel::Guaranteed
    } else if name == "best_effort"@ || name == "besteffort"@ {
        ServiceLevel::BestEffort
    } else if name == "degraded"@ {
        ServiceLevel::Degraded
    } else {
        ServiceLevel::Unavailable
    }
}

/// The service level that a name in lower case stands for.
pub fn level_named(name: &str) -> (r: ServiceLevel)
    ensures
        r == named_level(name@),
{
    if same_text(name, "guaranteed") {
        ServiceLevel::Guaranteed
    } else if same_text(name, "best_effort") || same_text(name, "besteffort") {
        ServiceLevel::BestEffort
    } else if same_text(name, "degraded") {
        ServiceLevel::Degraded
    } else {
        ServiceLevel::Unavailable
    }
}

/// The texts among the items.
pub open spec fn text_items(items: Seq<JsonTree>) -> Seq<Seq<char>>
    decreases items.len(),
{
    if items.len() == 0 {
        Seq::empty()
    } else {
        match items.last() {
            JsonTree::Str(s) => text_items(items.drop_last()).push(s),
            _ => text_items(items.drop_last()),
        }
    }
}

fn text_list(json: &Json, key: &str) -> (r: Vec<String>)
    ensures
        texts(r@) == text_items(json.tree().items(key@)),
{
    let mut r: Vec<String> = Vec::new();
    if let Some(items) = json.get_items(key) {
        let ghost all = trees(items@);
        let mut i: usize = 0;
        assert(all.take(0) =~= Seq::<JsonTree>::empty());
        assert(texts(r@) =~= text_items(all.take(0)));
        while i < items.len()
            invariant
                i <= items@.len(),
                all == trees(items@),
                texts(r@) == text_items(all.take(i as int)),
            decreases items@.len() - i,
        {
            let ghost before = r@;
            assert(all.take(i + 1).drop_last() =~= all.take(i as int));
            assert(all.take(i + 1).last() == items@[i as int].tree());
            if let Json::Str(s) = &items[i] {
                r.push(s.clone());
                assert(texts(r@) =~= texts(before).push(s@));
            }
            i += 1;
        }
        assert(all.take(i as int) =~= all);
    } else {
        assert(texts(r@) =~= Seq::<Seq<char>>::empty());
    }
    r
}

/// The service that an entry describes: it needs an id, a name and a level.
pub open spec fn service_of(j: JsonTree) -> Option<ServiceView> {
    match (j.text("id"@), j.text("name"@), j.text("level"@)) {
        (Some(id), Some(name), Some(level)) => Some(
            ServiceView {
                id,
                name,
                level: named_level(lowercase(level)),
                level_emoji: named_level(lowercase(level)).symbol(),
                wayland_source: j.text("wayland_source"@),
                rdp_capability: j.text("rdp_capability"@),
                notes: text_items(j.items("notes"@)),
            },
        ),
        _ => None,
    }
}

/// Reads a service entry.
pub fn parse_service_info(value: &Json) -> (r: Option<ServiceInfo>)
    ensures
        match r {
            Some(s) => service_of(value.tree()) == Some(service_view(s)),
            None => service_of(value.tree()) is None,
        },
{
    let id = match value.get_text("id") {
        Some(t) => t,
        None => {
            return None;
        },
    };
    let name = match value.get_text("name") {
        Some(t) => t,
        None => {
            return None;
        },
    };
    let level_name = match value.get_text("level") {
        Some(t) => t,
        None => {
            return None;
        },
    };
    let level = level_named(to_lowercase(level_name.as_str()).as_str());
    let s = ServiceInfo {
        id,
        name,
        level,
        level_emoji: level.emoji().to_owned(),
        wayland_source: value.get_text("wayland_source"),
        rdp_capability: value.get_text("rdp_capability"),
        notes: text_list(value, "notes"),
    };
    assert(service_view(s) =~= service_of(value.tree())->0);
    Some(s)
}

/// The services among the items.
pub open spec fn service_items(items: Seq<JsonTree>) -> Seq<ServiceView>
    decreases items.len(),
{
    if items.len() == 0 {
        Seq::empty()
    } else {
        match service_of(items.last()) {
            Some(s) => service_items(items.drop_last()).push(s),
            None => service_items(items.drop_last()),
        }
    }
}

fn service_list(json: &Json, key: &str) -> (r: Vec<ServiceInfo>)
    ensures
        service_views(r@) == service_items(json.tree().items(key@)),
{
    let mut r: Vec<ServiceInfo> = Vec::new();
    if let Some(items) = json.get_items(key) {
        let ghost all = trees(items@);
        let mut i: usize = 0;
        assert(all.take(0) =~= Seq::<JsonTree>::empty());
        assert(service_views(r@) =~= service_items(all.take(0)));
        while i < items.len()
            invariant
                i <= items@.len(),
                all == trees(items@),
                service_views(r@) == service_items(all.take(i as int)),
            decreases items@.len() - i,
        {
            let ghost before = r@;
            assert(all.take(i + 1).drop_last() =~= all.take(i as int));
            assert(all.take(i + 1).last() == items@[i as int].tree());
            if let Some(s) = parse_service_info(&items[i]) {
                r.push(s);
                assert(service_views(r@) =~= service_views(before).push(service_view(s)));
            }
            i += 1;
        }
        assert(all.take(i as int) =~= all);
    } else {
        assert(service_views(r@) =~= Seq::<ServiceView>::empty());
    }
    r
}

/// The quirk that an entry describes: it needs an id and a description.
pub open spec fn quirk_of(j: JsonTree) -> Option<QuirkView> {
    match (j.text("id"@), j.text("description"@)) {
        (Some(quirk_id), Some(description)) => Some(
            QuirkView {
                quirk_id,
                description,
                impact: match j.text("impact"@) {
                    Some(t) => t,
                    None => "Unknown"@,
                },
            },
        ),
        _ => None,
    }
}

/// The quirks among the items.
pub open spec fn quirk_items(items: Seq<JsonTree>) -> Seq<QuirkView>
    decreases items.len(),
{
    if items.len() == 0 {
        Seq::empty()
    } else {
        match quirk_of(items.last()) {
            Some(q) => quirk_items(items.drop_last()).push(q),
            None => quirk_items(items.drop_last()),
        }
    }
}

fn parse_quirk(value: &Json) -> (r: Option<PlatformQuirk>)
    ensures
        match r {
            Some(q) => quirk_of(value.tree()) == Some(quirk_view(q)),
            None => quirk_of(value.tree()) is None,
        },
{
    match (value.get_text("id"), value.get_text("description")) {
        (Some(quirk_id), Some(description)) => {
            let q = PlatformQuirk {
                quirk_id,
                description,
                impact: value.get_text_or("impact", "Unknown"),
            };
            assert(quirk_view(q) =~= quirk_of(value.tree())->0);
            Some(q)
        },
        _ => None,
    }
}

fn quirk_list(json: &Json, key: &str) -> (r: Vec<PlatformQuirk>)
    ensures
        quirk_views(r@) == quirk_items(json.tree().items(key@)),
{
    let mut r: Vec<PlatformQuirk> = Vec::new();
    if let Some(items) = json.get_items(key) {
        let ghost all = trees(items@);
        let mut i: usize = 0;
        assert(all.take(0) =~= Seq::<JsonTree>::empty());
        assert(quirk_views(r@) =~= quirk_items(all.take(0)));
        while i < items.len()
            invariant
                i <= items@.len(),
                all == trees(items@),
                quirk_views(r@) == quirk_items(all.take(i as int)),
            decreases items@.len() - i,
        {
            let ghost before = r@;
            assert(all.take(i + 1).drop_last() =~= all.take(i as int));
            assert(all.take(i + 1).last() == items@[i as int].tree());
            if let Some(q) = parse_quirk(&items[i]) {
                r.push(q);
                assert(quirk_views(r@) =~= quirk_views(before).push(quirk_view(q)));
            }
            i += 1;
        }
        assert(all.take(i as int) =~= all);
    } else {
        assert(quirk_views(r@) =~= Seq::<QuirkView>::empty());
    }
    r
}

/// How many services are at a level.
pub open spec fn level_count(services: Seq<ServiceView>, level: ServiceLevel) -> nat
    decreases services.len(),
{
    if services.len() == 0 {
        0
    } else {
        level_count(services.drop_last(), level) + (if services.last().level == level {
            1nat
        } else {
            0nat
        })
    }
}

fn count_level(services: &Vec<ServiceInfo>, level: ServiceLevel) -> (n: usize)
    ensures
        n == level_count(service_views(services@), level),
{
    let ghost all = service_views(services@);
    let mut n: usize = 0;
    let mut i: usize = 0;
    assert(all.take(0) =~= Seq::<ServiceView>::empty());
    while i < services.len()
        invariant
            i <= services@.len(),
            n <= i,
            all == service_views(services@),
            n == level_count(all.take(i as int), level),
        decreases services@.len() - i,
    {
        assert(all.take(i + 1).drop_last() =~= all.take(i as int));
        assert(all.take(i + 1).last() == service_view(services@[i as int]));
        if services[i].level == level {
            n += 1;
        }
        i += 1;
    }
    assert(all.take(i as int) =~= all);
    n
}

/// Every service is counted at exactly one level.
pub proof fn level_counts_add_up(services: Seq<ServiceView>)
    ensures
        level_count(services, ServiceLevel::Guaranteed) + level_count(
            services,
            ServiceLevel::BestEffort,
        ) + level_count(services, ServiceLevel::Degraded) + level_count(
            services,
            ServiceLevel::Unavailable,
        ) == services.len(),
    decreases services.len(),
{
    if services.len() > 0 {
        level_counts_add_up(services.drop_last());
    }
}

/// Whether the service is a usable PAM authentication.
pub open spec fn offers_pam(s: ServiceView) -> bool {
    (s.id == "PamAuthentication"@ || s.id == "pam_authentication"@) && s.level
        != ServiceLevel::Unavailable
}

/// The authentication methods that services allow: none and a static password always,
/// PAM where its service is available.
pub open spec fn auth_methods(services: Seq<ServiceView>) -> Seq<Seq<char>> {
    if exists|i: int| 0 <= i < services.len() && #[trigger] offers_pam(services[i]) {
        seq!["none"@, "password"@, "pam"@]
    } else {
        seq!["none"@, "password"@]
    }
}

/// The authentication methods that services allow.
pub fn derive_auth_methods(services: &Vec<ServiceInfo>) -> (r: Vec<String>)
    ensures
        texts(r@) == auth_methods(service_views(services@)),
{
    let ghost all = service_views(services@);
    let mut pam = false;
    let mut i: usize = 0;
    while i < services.len()
        invariant
            i <= services@.len(),
            all == service_views(services@),
            pam == exists|k: int| 0 <= k < i && #[trigger] offers_pam(all[k]),
        decreases services@.len() - i,
    {
        let s = &services[i];
        assert(all[i as int] == service_view(*s));
        let offers = (same_text(s.id.as_str(), "PamAuthentication") || same_text(
            s.id.as_str(),
            "pam_authentication",
        )) && s.level != ServiceLevel::Unavailable;
        assert(offers == offers_pam(all[i as int]));
        pam = pam || offers;
        i += 1;
    }
    let mut methods: Vec<String> = Vec::new();
    methods.push("none".to_owned());
    methods.push("password".to_owned());
    if pam {
        methods.push("pam".to_owned());
    }
    assert(texts(methods@) =~= auth_methods(all));
    methods
}

/// The number under `key`, cut to 32 bits.
pub open spec fn version_of(j: JsonTree, key: Seq<char>) -> Option<u32> {
    match j.natural(key) {
        Some(n) => Some(n as u32),
        None => None,
    }
}

fn version(json: &Json, key: &str) -> (r: Option<u32>)
    ensures
        r == version_of(json.tree(), key@),
{
    match json.get_natural(key) {
        Some(n) => Some(#[verifier::truncate] (n as u32)),
        None => None,
    }
}

/// `t`, or "Unknown".
pub open spec fn or_unknown(t: Option<Seq<char>>) -> Seq<char> {
    match t {
        Some(s) => s,
        None => "Unknown"@,
    }
}

/// The capabilities are those that the report describes.
pub open spec fn reports(caps: DetectedCapabilities, j: JsonTree, now: Timestamp) -> bool {
    let system = j.section("system"@);
    let portals = j.section("portals"@);
    let deployment = j.section("deployment"@);
    let persistence = j.section("persistence"@);
    let hints = j.section("hints"@);
    let services = service_items(j.items("services"@));
    &&& caps.compositor_name@ == or_unknown(system.text("compositor"@))
    &&& text_of(caps.compositor_version) == system.text("compositor_version"@)
    &&& caps.distribution@ == or_unknown(system.text("distribution"@))
    &&& caps.kernel_version@ == or_unknown(system.text("kernel"@))
    &&& caps.portal_version == (match version_of(portals, "version"@) {
        Some(n) => n,
        None => 0,
    })
    &&& caps.portal_backend@ == or_unknown(portals.text("backend"@))
    &&& caps.screencast_version == version_of(portals, "screencast_version"@)
    &&& caps.remote_desktop_version == version_of(portals, "remote_desktop_version"@)
    &&& caps.secret_portal_version == version_of(portals, "secret_version"@)
    &&& caps.deployment_context == named_deployment(
        lowercase(
            match deployment.text("context"@) {
                Some(t) => t,
                None => "unknown"@,
            },
        ),
        deployment.truth("linger"@),
    )
    &&& caps.xdg_runtime_dir@ == (match deployment.text("xdg_runtime_dir"@) {
        Some(t) => t,
        None => "/run/user/1000"@,
    })
    &&& quirk_views(caps.quirks@) == quirk_items(j.items("quirks"@))
    &&& caps.persistence_strategy@ == or_unknown(persistence.text("strategy"@))
    &&& texts(caps.persistence_notes@) == text_items(persistence.items("notes"@))
    &&& service_views(caps.services@) == services
    &&& caps.guaranteed_count == level_count(services, ServiceLevel::Guaranteed)
    &&& caps.best_effort_count == level_count(services, ServiceLevel::BestEffort)
    &&& caps.degraded_count == level_count(services, ServiceLevel::Degraded)
    &&& caps.unavailable_count == level_count(services, ServiceLevel::Unavailable)
    &&& caps.recommended_fps == version_of(hints, "recommended_fps"@)
    &&& text_of(caps.recommended_codec) == hints.text("recommended_codec"@)
    &&& caps.zero_copy_available == (hints.truth("zero_copy"@) == Some(true))
    &&& texts(caps.available_auth_methods@) == auth_methods(services)
    &&& caps.detected_at == now
}

/// Reads the capabilities out of a report. It needs a system section; everything else
/// has a default.
pub fn capabilities_of_report(json: &Json, now: Timestamp) -> (r: Result<
    DetectedCapabilities,
    String,
>)
    ensures
        match r {
            Ok(caps) => json.tree().member("system"@) is Some && reports(caps, json.tree(), now),
            Err(e) => json.tree().member("system"@) is None && e@
                == "Missing 'system' section in capabilities"@,
        },
{
    let nothing = Json::Null;
    let system = match json.get("system") {
        Some(j) => j,
        None => {
            return Err("Missing 'system' section in capabilities".to_owned());
        },
    };
    let portals = match json.get("portals") {
        Some(j) => j,
        None => &nothing,
    };
    let deployment = match json.get("deployment") {
        Some(j) => j,
        None => &nothing,
    };
    let persistence = match json.get("persistence") {
        Some(j) => j,
        None => &nothing,
    };
    let hints = match json.get("hints") {
        Some(j) => j,
        None => &nothing,
    };
    let services = service_list(json, "services");
    let guaranteed_count = count_level(&services, ServiceLevel::Guaranteed);
    let best_effort_count = count_level(&services, ServiceLevel::BestEffort);
    let degraded_count = count_level(&services, ServiceLevel::Degraded);
    let unavailable_count = count_level(&services, ServiceLevel::Unavailable);
    let available_auth_methods = derive_auth_methods(&services);
    let context = deployment.get_text_or("context", "unknown");
    Ok(
        DetectedCapabilities {
            compositor_name: system.get_text_or("compositor", "Unknown"),
            compositor_version: system.get_text("compositor_version"),
            distribution: system.get_text_or("distribution", "Unknown"),
            kernel_version: system.get_text_or("kernel", "Unknown"),
            portal_version: match version(portals, "version") {
                Some(n) => n,
                None => 0,
            },
            portal_backend: portals.get_text_or("backend", "Unknown"),
            screencast_version: version(portals, "screencast_version"),
            remote_desktop_version: version(portals, "remote_desktop_version"),
            secret_portal_version: version(portals, "secret_version"),
            deployment_context: parse_deployment_context(
                context.as_str(),
                deployment.get_truth("linger"),
            ),
            xdg_runtime_dir: deployment.get_text_or("xdg_runtime_dir", "/run/user/1000"),
            quirks: quirk_list(json, "quirks"),
            persistence_strategy: persistence.get_text_or("strategy", "Unknown"),
            persistence_notes: text_list(persistence, "notes"),
            services,
            guaranteed_count,
            best_effort_count,
            degraded_count,
            unavailable_count,
            recommended_fps: version(hints, "recommended_fps"),
            recommended_codec: hints.get_text("recommended_codec"),
            zero_copy_available: match hints.get_truth("zero_copy") {
                Some(b) => b,
                None => false,
            },
            available_auth_methods,
            detected_at: now,
        },
    )
}

/// What reading a report comes to.
pub open spec fn capabilities_read(
    text: Seq<char>,
    now: Timestamp,
    r: Result<DetectedCapabilities, String>,
) -> bool {
    match parsed_json(text) {
        Ok(j) => match r {
            Ok(caps) => j.member("system"@) is Some && reports(caps, j, now),
            Err(e) => j.member("system"@) is None && e@
                == "Missing 'system' section in capabilities"@,
        },
        Err(e) => r matches Err(t) && t@ == "Failed to parse JSON: "@ + e,
    }
}

/// Reads the report that the server binary printed.
pub fn parse_capabilities_json(json_str: &str, now: Timestamp) -> (r: Result<
    DetectedCapabilities,
    String,
>)
    ensures
        capabilities_read(json_str@, now, r),
{
    match parse_json(json_str) {
        Ok(json) => capabilities_of_report(&json, now),
        Err(e) => Err(join2("Failed to parse JSON: ", e.as_str())),
    }
}

/// A text, or null.
pub open spec fn text_tree(t: Option<String>) -> JsonTree {
    match t {
        Some(s) => JsonTree::Str(s@),
        None => JsonTree::Null,
    }
}

/// A number, or null.
pub open spec fn version_tree(v: Option<u32>) -> JsonTree {
    match v {
        Some(n) => JsonTree::Number(n as u64),
        None => JsonTree::Null,
    }
}

/// A list of texts.
pub open spec fn list_tree(v: Seq<String>) -> JsonTree {
    JsonTree::Array(Seq::new(v.len(), |i: int| JsonTree::Str(v[i]@)))
}

fn text_json(t: &Option<String>) -> (r: Json)
    ensures
        r.tree() == text_tree(*t),
{
    match t {
        Some(s) => Json::Str(s.clone()),
        None => Json::Null,
    }
}

fn version_json(v: Option<u32>) -> (r: Json)
    ensures
        r.tree() == version_tree(v),
{
    match v {
        Some(n) => Json::Number(n as u64),
        None => Json::Null,
    }
}

fn list_json(v: &Vec<String>) -> (r: Json)
    ensures
        r.tree() == list_tree(v@),
{
    let mut items: Vec<Json> = Vec::new();
    let mut i: usize = 0;
    while i < v.len()
        invariant
            i <= v@.len(),
            items@.len() == i,
            forall|k: int| 0 <= k < i ==> (#[trigger] items@[k]).tree() == JsonTree::Str(v@[k]@),
        decreases v@.len() - i,
    {
        items.push(Json::Str(v[i].clone()));
        i += 1;
    }
    assert(trees(items@) =~= list_tree(v@)->Array_0);
    array(items)
}

/// The system section of a report.
pub open spec fn system_tree(caps: DetectedCapabilities) -> JsonTree {
    JsonTree::Object(
        seq![
            ("compositor"@, JsonTree::Str(caps.compositor_name@)),
            ("compositor_version"@, text_tree(caps.compositor_version)),
            ("distribution"@, JsonTree::Str(caps.distribution@)),
            ("kernel"@, JsonTree::Str(caps.kernel_version@)),
        ],
    )
}

fn system_json(caps: &DetectedCapabilities) -> (r: Json)
    ensures
        r.tree() == system_tree(*caps),
{
    let mut entries: Vec<(String, Json)> = Vec::new();
    push_entry(&mut entries, "compositor", Json::Str(caps.compositor_name.clone()));
    push_entry(&mut entries, "compositor_version", text_json(&caps.compositor_version));
    push_entry(&mut entries, "distribution", Json::Str(caps.distribution.clone()));
    push_entry(&mut entries, "kernel", Json::Str(caps.kernel_version.clone()));
    assert(entry_trees(entries@) =~= system_tree(*caps)->Object_0);
    object(entries)
}

/// The portals section of a report.
pub open spec fn portals_tree(caps: DetectedCapabilities) -> JsonTree {
    JsonTree::Object(
        seq![
            ("version"@, JsonTree::Number(caps.portal_version as u64)),
            ("backend"@, JsonTree::Str(caps.portal_backend@)),
            ("screencast_version"@, version_tree(caps.screencast_version)),
            ("remote_desktop_version"@, version_tree(caps.remote_desktop_version)),
            ("secret_version"@, version_tree(caps.secret_portal_version)),
        ],
    )
}

fn portals_json(caps: &DetectedCapabilities) -> (r: Json)
    ensures
        r.tree() == portals_tree(*caps),
{
    let mut entries: Vec<(String, Json)> = Vec::new();
    push_entry(&mut entries, "version", Json::Number(caps.portal_version as u64));
    push_entry(&mut entries, "backend", Json::Str(caps.portal_backend.clone()));
    push_entry(&mut entries, "screencast_version", version_json(caps.screencast_version));
    push_entry(&mut entries, "remote_desktop_version", version_json(caps.remote_desktop_version));
    push_entry(&mut entries, "secret_version", version_json(caps.secret_portal_version));
    assert(entry_trees(entries@) =~= portals_tree(*caps)->Object_0);
    object(entries)
}

/// The deployment section of a report.
pub open spec fn deployment_tree(caps: DetectedCapabilities) -> JsonTree {
    JsonTree::Object(
        seq![
            ("context"@, JsonTree::Str(caps.deployment_context.label())),
            ("xdg_runtime_dir"@, JsonTree::Str(caps.xdg_runtime_dir@)),
        ],
    )
}

fn deployment_json(caps: &DetectedCapabilities) -> (r: Json)
    ensures
        r.tree() == deployment_tree(*caps),
{
    let mut entries: Vec<(String, Json)> = Vec::new();
    push_entry(&mut entries, "context", Json::Str(caps.deployment_context.to_text()));
    push_entry(&mut entries, "xdg_runtime_dir", Json::Str(caps.xdg_runtime_dir.clone()));
    assert(entry_trees(entries@) =~= deployment_tree(*caps)->Object_0);
    object(entries)
}

/// The persistence section of a report.
pub open spec fn persistence_tree(caps: DetectedCapabilities) -> JsonTree {
    JsonTree::Object(
        seq![
            ("strategy"@, JsonTree::Str(caps.persistence_strategy@)),
            ("notes"@, list_tree(caps.persistence_notes@)),
        ],
    )
}

fn persistence_json(caps: &DetectedCapabilities) -> (r: Json)
    ensures
        r.tree() == persistence_tree(*caps),
{
    let mut entries: Vec<(String, Json)> = Vec::new();
    push_entry(&mut entries, "strategy", Json::Str(caps.persistence_strategy.clone()));
    push_entry(&mut entries, "notes", list_json(&caps.persistence_notes));
    assert(entry_trees(entries@) =~= persistence_tree(*caps)->Object_0);
    object(entries)
}

/// The summary section of a report.
pub open spec fn summary_tree(caps: DetectedCapabilities) -> JsonTree {
    JsonTree::Object(
        seq![
            ("guaranteed"@, JsonTree::Number(caps.guaranteed_count as u64)),
            ("best_effort"@, JsonTree::Number(caps.best_effort_count as u64)),
            ("degraded"@, JsonTree::Number(caps.degraded_count as u64)),
            ("unavailable"@, JsonTree::Number(caps.unavailable_count as u64)),
        ],
    )
}

fn summary_json(caps: &DetectedCapabilities) -> (r: Json)
    ensures
        r.tree() == summary_tree(*caps),
{
    let mut entries: Vec<(String, Json)> = Vec::new();
    push_entry(&mut entries, "guaranteed", Json::Number(caps.guaranteed_count as u64));
    push_entry(&mut entries, "best_effort", Json::Number(caps.best_effort_count as u64));
    push_entry(&mut entries, "degraded", Json::Number(caps.degraded_count as u64));
    push_entry(&mut entries, "unavailable", Json::Number(caps.unavailable_count as u64));
    assert(entry_trees(entries@) =~= summary_tree(*caps)->Object_0);
    object(entries)
}

/// The hints section of a report.
pub open spec fn hints_tree(caps: DetectedCapabilities) -> JsonTree {
    JsonTree::Object(
        seq![
            ("recommended_fps"@, version_tree(caps.recommended_fps)),
            ("recommended_codec"@, text_tree(caps.recommended_codec)),
            ("zero_copy"@, JsonTree::Bool(caps.zero_copy_available)),
        ],
    )
}

fn hints_json(caps: &DetectedCapabilities) -> (r: Json)
    ensures
        r.tree() == hints_tree(*caps),
{
    let mut entries: Vec<(String, Json)> = Vec::new();
    push_entry(&mut entries, "recommended_fps", version_json(caps.recommended_fps));
    push_entry(&mut entries, "recommended_codec", text_json(&caps.recommended_codec));
    push_entry(&mut entries, "zero_copy", Json::Bool(caps.zero_copy_available));
    assert(entry_trees(entries@) =~= hints_tree(*caps)->Object_0);
    object(entries)
}

/// The authentication section of a report.
pub open spec fn authentication_tree(caps: DetectedCapabilities) -> JsonTree {
    JsonTree::Object(
        seq![
            ("available_methods"@, list_tree(caps.available_auth_methods@)),
        ],
    )
}

fn authentication_json(caps: &DetectedCapabilities) -> (r: Json)
    ensures
        r.tree() == authentication_tree(*caps),
{
    let mut entries: Vec<(String, Json)> = Vec::new();
    push_entry(&mut entries, "available_methods", list_json(&caps.available_auth_methods));
    assert(entry_trees(entries@) =~= authentication_tree(*caps)->Object_0);
    object(entries)
}

/// A quirk entry of a report.
pub open spec fn quirk_tree(q: PlatformQuirk) -> JsonTree {
    JsonTree::Object(
        seq![
            ("id"@, JsonTree::Str(q.quirk_id@)),
            ("description"@, JsonTree::Str(q.description@)),
            ("impact"@, JsonTree::Str(q.impact@)),
        ],
    )
}

fn quirk_json(q: &PlatformQuirk) -> (r: Json)
    ensures
        r.tree() == quirk_tree(*q),
{
    let mut entries: Vec<(String, Json)> = Vec::new();
    push_entry(&mut entries, "id", Json::Str(q.quirk_id.clone()));
    push_entry(&mut entries, "description", Json::Str(q.description.clone()));
    push_entry(&mut entries, "impact", Json::Str(q.impact.clone()));
    assert(entry_trees(entries@) =~= quirk_tree(*q)->Object_0);
    object(entries)
}

/// A service entry of a report.
pub open spec fn service_tree(s: ServiceInfo) -> JsonTree {
    JsonTree::Object(
        seq![
            ("id"@, JsonTree::Str(s.id@)),
            ("name"@, JsonTree::Str(s.name@)),
            ("level"@, JsonTree::Str(s.level.label())),
            ("wayland_source"@, text_tree(s.wayland_source)),
            ("rdp_capability"@, text_tree(s.rdp_capability)),
            ("notes"@, list_tree(s.notes@)),
        ],
    )
}

fn service_json(s: &ServiceInfo) -> (r: Json)
    ensures
        r.tree() == service_tree(*s),
{
    let mut entries: Vec<(String, Json)> = Vec::new();
    push_entry(&mut entries, "id", Json::Str(s.id.clone()));
    push_entry(&mut entries, "name", Json::Str(s.name.clone()));
    push_entry(&mut entries, "level", Json::Str(s.level.to_text()));
    push_entry(&mut entries, "wayland_source", text_json(&s.wayland_source));
    push_entry(&mut entries, "rdp_capability", text_json(&s.rdp_capability));
    push_entry(&mut entries, "notes", list_json(&s.notes));
    assert(entry_trees(entries@) =~= service_tree(*s)->Object_0);
    object(entries)
}

/// The quirks of a report.
pub open spec fn quirks_tree(v: Seq<PlatformQuirk>) -> JsonTree {
    JsonTree::Array(Seq::new(v.len(), |i: int| quirk_tree(v[i])))
}

fn quirks_json(v: &Vec<PlatformQuirk>) -> (r: Json)
    ensures
        r.tree() == quirks_tree(v@),
{
    let mut items: Vec<Json> = Vec::new();
    let mut i: usize = 0;
    while i < v.len()
        invariant
            i <= v@.len(),
            items@.len() == i,
            forall|k: int| 0 <= k < i ==> (#[trigger] items@[k]).tree() == quirk_tree(v@[k]),
        decreases v@.len() - i,
    {
        items.push(quirk_json(&v[i]));
        i += 1;
    }
    assert(trees(items@) =~= quirks_tree(v@)->Array_0);
    array(items)
}

/// The services of a report.
pub open spec fn services_tree(v: Seq<ServiceInfo>) -> JsonTree {
    JsonTree::Array(Seq::new(v.len(), |i: int| service_tree(v[i])))
}

fn services_json(v: &Vec<ServiceInfo>) -> (r: Json)
    ensures
        r.tree() == services_tree(v@),
{
    let mut items: Vec<Json> = Vec::new();
    let mut i: usize = 0;
    while i < v.len()
        invariant
            i <= v@.len(),
            items@.len() == i,
            forall|k: int| 0 <= k < i ==> (#[trigger] items@[k]).tree() == service_tree(v@[k]),
        decreases v@.len() - i,
    {
        items.push(service_json(&v[i]));
        i += 1;
    }
    assert(trees(items@) =~= services_tree(v@)->Array_0);
    array(items)
}

/// The text of a point in time in a report.
pub open spec fn time_text(t: Timestamp) -> Seq<char> {
    "SystemTime { tv_sec: "@ + decimal(t.secs as nat) + ", tv_nsec: "@ + decimal(t.nanos as nat)
        + " }"@
}

fn time_to_text(t: Timestamp) -> (r: String)
    ensures
        r@ == time_text(t),
{
    let mut s = "SystemTime { tv_sec: ".to_owned();
    s.append(number(t.secs).as_str());
    s.append(", tv_nsec: ");
    s.append(number(t.nanos as u64).as_str());
    s.append(" }");
    s
}

/// The report that describes the capabilities.
pub open spec fn report_tree(caps: DetectedCapabilities) -> JsonTree {
    JsonTree::Object(
        seq![
            ("system"@, system_tree(caps)),
            ("portals"@, portals_tree(caps)),
            ("deployment"@, deployment_tree(caps)),
            ("persistence"@, persistence_tree(caps)),
            ("quirks"@, quirks_tree(caps.quirks@)),
            ("services"@, services_tree(caps.services@)),
            ("summary"@, summary_tree(caps)),
            ("hints"@, hints_tree(caps)),
            ("authentication"@, authentication_tree(caps)),
            ("detected_at"@, JsonTree::Str(time_text(caps.detected_at))),
        ],
    )
}

/// The report that describes the capabilities.
pub fn report_of(caps: &DetectedCapabilities) -> (r: Json)
    ensures
        r.tree() == report_tree(*caps),
{
    let mut entries: Vec<(String, Json)> = Vec::new();
    push_entry(&mut entries, "system", system_json(caps));
    push_entry(&mut entries, "portals", portals_json(caps));
    push_entry(&mut entries, "deployment", deployment_json(caps));
    push_entry(&mut entries, "persistence", persistence_json(caps));
    push_entry(&mut entries, "quirks", quirks_json(&caps.quirks));
    push_entry(&mut entries, "services", services_json(&caps.services));
    push_entry(&mut entries, "summary", summary_json(caps));
    push_entry(&mut entries, "hints", hints_json(caps));
    push_entry(&mut entries, "authentication", authentication_json(caps));
    push_entry(&mut entries, "detected_at", Json::Str(time_to_text(caps.detected_at)));
    assert(entry_trees(entries@) =~= report_tree(*caps)->Object_0);
    object(entries)
}

/// Writes the capabilities as a report, whose text reads as that report. Every report can be
/// written.
pub fn capabilities_to_json(caps: &DetectedCapabilities) -> (r: Result<String, String>)
    ensures
        r matches Ok(s) && s@ == printed_json(report_tree(*caps)) && reads_as(
            s@,
            report_tree(*caps),
        ),
{
    proof {
        lemma_report_fits(*caps);
    }
    match print_json(&report_of(caps)) {
        Ok(t) => Ok(t),
        Err(e) => Err(join2("Failed to serialize: ", e.as_str())),
    }
}

/// Where the server binary may be, in order of preference: beside the window's own
/// binary, installed, or in a build directory.
pub open spec fn binary_places(own_dir: Option<Seq<char>>) -> Seq<Seq<char>> {
    let fixed = seq![
        "/usr/bin/lamco-rdp-server"@,
        "/usr/local/bin/lamco-rdp-server"@,
        "./target/release/lamco-rdp-server"@,
        "./target/debug/lamco-rdp-server"@,
    ];
    match own_dir {
        Some(d) => seq![path_joined(d, "lamco-rdp-server"@)] + fixed,
        None => fixed,
    }
}

/// Where the server binary may be, in order of preference.
pub fn server_binary_candidates(own_dir: &Option<String>) -> (r: Vec<String>)
    ensures
        texts(r@) == binary_places(text_of(*own_dir)),
{
    let mut r: Vec<String> = Vec::new();
    if let Some(d) = own_dir {
        r.push(join_path(d.as_str(), "lamco-rdp-server"));
    }
    r.push("/usr/bin/lamco-rdp-server".to_owned());
    r.push("/usr/local/bin/lamco-rdp-server".to_owned());
    r.push("./target/release/lamco-rdp-server".to_owned());
    r.push("./target/debug/lamco-rdp-server".to_owned());
    assert(texts(r@) =~= binary_places(text_of(*own_dir)));
    r
}

/// The first candidate that is a file; `is_file` tells it of each.
pub fn find_server_binary(candidates: &Vec<String>, is_file: &Vec<bool>) -> (r: Result<
    String,
    String,
>)
    requires
        candidates@.len() == is_file@.len(),
    ensures
        match r {
            Ok(path) => exists|i: int|
                0 <= i < candidates@.len() && #[trigger] is_file@[i] && path@ == candidates@[i]@ && (
                forall|k: int| 0 <= k < i ==> !#[trigger] is_file@[k]),
            Err(e) => e@ == "Could not find lamco-rdp-server binary"@ && forall|k: int|
                0 <= k < candidates@.len() ==> !#[trigger] is_file@[k],
        },
{
    let mut i: usize = 0;
    while i < candidates.len()
        invariant
            i <= candidates@.len(),
            candidates@.len() == is_file@.len(),
            forall|k: int| 0 <= k < i ==> !#[trigger] is_file@[k],
        decreases candidates@.len() - i,
    {
        if is_file[i] {
            return Ok(candidates[i].clone());
        }
        i += 1;
    }
    Err("Could not find lamco-rdp-server binary".to_owned())
}

/// What running the server binary for its report gave.
#[derive(Debug)]
pub enum ReportRun {
    /// It could not be run.
    Failed(String),
    /// It ended with an error; this is what it printed to its error output.
    Refused(String),
    /// It printed a report.
    Printed(String),
}

/// Reads what running the server binary gave.
pub fn detect_capabilities(run: &ReportRun, now: Timestamp) -> (r: Result<
    DetectedCapabilities,
    String,
>)
    ensures
        match *run {
            ReportRun::Failed(e) => r matches Err(t) && t@ == "Failed to run server binary: "@
                + e@,
            ReportRun::Refused(e) => r matches Err(t) && t@ == "Server binary failed: "@ + e@,
            ReportRun::Printed(text) => match parsed_json(text@) {
                Ok(j) => match r {
                    Ok(caps) => j.member("system"@) is Some && reports(caps, j, now),
                    Err(e) => j.member("system"@) is None && e@
                        == "Missing 'system' section in capabilities"@,
                },
                Err(e) => r matches Err(t) && t@ == "Failed to parse JSON: "@ + e,
            },
        },
{
    match run {
        ReportRun::Failed(e) => Err(join2("Failed to run server binary: ", e.as_str())),
        ReportRun::Refused(e) => Err(join2("Server binary failed: ", e.as_str())),
        ReportRun::Printed(text) => parse_capabilities_json(text.as_str(), now),
    }
}

/// The services of the sample capabilities.
pub open spec fn sample_services() -> Seq<ServiceView> {
    seq![
        ServiceView {
            id: "screen_capture"@,
            name: "Screen Capture"@,
            level: ServiceLevel::Guaranteed,
            level_emoji: ServiceLevel::Guaranteed.symbol(),
            wayland_source: Some("ScreenCast Portal v5"@),
            rdp_capability: Some("MS-RDPEGFX"@),
            notes: Seq::empty(),
        },
        ServiceView {
            id: "keyboard_input"@,
            name: "Keyboard Input"@,
            level: ServiceLevel::Guaranteed,
            level_emoji: ServiceLevel::Guaranteed.symbol(),
            wayland_source: Some("RemoteDesktop Portal v2"@),
            rdp_capability: Some("Input PDUs"@),
            notes: Seq::empty(),
        },
        ServiceView {
            id: "pointer_input"@,
            name: "Pointer Input"@,
            level: ServiceLevel::Guaranteed,
            level_emoji: ServiceLevel::Guaranteed.symbol(),
            wayland_source: Some("RemoteDesktop Portal v2"@),
            rdp_capability: Some("Input PDUs"@),
            notes: Seq::empty(),
        },
        ServiceView {
            id: "clipboard"@,
            name: "Clipboard Sync"@,
            level: ServiceLevel::BestEffort,
            level_emoji: ServiceLevel::BestEffort.symbol(),
            wayland_source: Some("Portal Clipboard"@),
            rdp_capability: Some("CLIPRDR"@),
            notes: seq!["File transfer requires Portal v46+"@],
        },
        ServiceView {
            id: "audio"@,
            name: "Audio Playback"@,
            level: ServiceLevel::Unavailable,
            level_emoji: ServiceLevel::Unavailable.symbol(),
            wayland_source: None,
            rdp_capability: Some("RDPSND"@),
            notes: seq!["Not yet implemented"@],
        },
    ]
}

fn sample_service(
    id: &str,
    name: &str,
    level: ServiceLevel,
    wayland_source: Option<&str>,
    rdp_capability: &str,
    note: Option<&str>,
) -> (r: ServiceInfo)
    ensures
        service_view(r) == (ServiceView {
            id: id@,
            name: name@,
            level,
            level_emoji: level.symbol(),
            wayland_source: match wayland_source {
                Some(s) => Some(s@),
                None => None,
            },
            rdp_capability: Some(rdp_capability@),
            notes: match note {
                Some(n) => seq![n@],
                None => Seq::empty(),
            },
        }),
{
    let mut notes: Vec<String> = Vec::new();
    if let Some(n) = note {
        notes.push(n.to_owned());
        assert(texts(notes@) =~= seq![n@]);
    } else {
        assert(texts(notes@) =~= Seq::<Seq<char>>::empty());
    }
    ServiceInfo {
        id: id.to_owned(),
        name: name.to_owned(),
        level,
        level_emoji: level.emoji().to_owned(),
        wayland_source: match wayland_source {
            Some(s) => Some(s.to_owned()),
            None => None,
        },
        rdp_capability: Some(rdp_capability.to_owned()),
        notes,
    }
}

/// Sample capabilities for a demonstration without a server binary.
pub fn detect_capabilities_mock(now: Timestamp) -> (caps: DetectedCapabilities)
    ensures
        caps.compositor_name@ == "GNOME Shell"@,
        text_of(caps.compositor_version) == Some("46.0"@),
        caps.distribution@ == "Ubuntu 24.04 LTS"@,
        caps.kernel_version@ == "6.8.0-40-generic"@,
        caps.portal_version == 1,
        caps.portal_backend@ == "gnome"@,
        caps.screencast_version == Some(5u32),
        caps.remote_desktop_version == Some(2u32),
        caps.secret_portal_version == Some(1u32),
        caps.deployment_context == DeploymentContext::Native,
        caps.xdg_runtime_dir@ == "/run/user/1000"@,
        caps.quirks@.len() == 0,
        caps.persistence_strategy@ == "Secret Service"@,
        texts(caps.persistence_notes@) == seq!["GNOME Keyring available"@],
        service_views(caps.services@) == sample_services(),
        caps.guaranteed_count == 3,
        caps.best_effort_count == 1,
        caps.degraded_count == 0,
        caps.unavailable_count == 1,
        caps.recommended_fps == Some(30u32),
        text_of(caps.recommended_codec) == Some("avc420"@),
        caps.zero_copy_available,
        texts(caps.available_auth_methods@) == seq!["pam"@, "none"@],
        caps.detected_at == now,
{
    let mut services: Vec<ServiceInfo> = Vec::new();
    services.push(
        sample_service(
            "screen_capture",
            "Screen Capture",
            ServiceLevel::Guaranteed,
            Some("ScreenCast Portal v5"),
            "MS-RDPEGFX",
            None,
        ),
    );
    services.push(
        sample_service(
            "keyboard_input",
            "Keyboard Input",
            ServiceLevel::Guaranteed,
            Some("RemoteDesktop Portal v2"),
            "Input PDUs",
            None,
        ),
    );
    services.push(
        sample_service(
            "pointer_input",
            "Pointer Input",
            ServiceLevel::Guaranteed,
            Some("RemoteDesktop Portal v2"),
            "Input PDUs",
            None,
        ),
    );
    services.push(
        sample_service(
            "clipboard",
            "Clipboard Sync",
            ServiceLevel::BestEffort,
            Some("Portal Clipboard"),
            "CLIPRDR",
            Some("File transfer requires Portal v46+"),
        ),
    );
    services.push(
        sample_service(
            "audio",
            "Audio Playback",
            ServiceLevel::Unavailable,
            None,
            "RDPSND",
            Some("Not yet implemented"),
        ),
    );
    assert(service_views(services@) =~= sample_services());
    let mut persistence_notes: Vec<String> = Vec::new();
    persistence_notes.push("GNOME Keyring available".to_owned());
    assert(texts(persistence_notes@) =~= seq!["GNOME Keyring available"@]);
    let mut available_auth_methods: Vec<String> = Vec::new();
    available_auth_methods.push("pam".to_owned());
    available_auth_methods.push("none".to_owned());
    assert(texts(available_auth_methods@) =~= seq!["pam"@, "none"@]);
    DetectedCapabilities {
        compositor_name: "GNOME Shell".to_owned(),
        compositor_version: Some("46.0".to_owned()),
        distribution: "Ubuntu 24.04 LTS".to_owned(),
        kernel_version: "6.8.0-40-generic".to_owned(),
        portal_version: 1,
        portal_backend: "gnome".to_owned(),
        screencast_version: Some(5),
        remote_desktop_version: Some(2),
        secret_portal_version: Some(1),
        deployment_context: DeploymentContext::Native,
        xdg_runtime_dir: "/run/user/1000".to_owned(),
        quirks: Vec::new(),
        persistence_strategy: "Secret Service".to_owned(),
        persistence_notes,
        services,
        guaranteed_count: 3,
        best_effort_count: 1,
        degraded_count: 0,
        unavailable_count: 1,
        recommended_fps: Some(30),
        recommended_codec: Some("avc420".to_owned()),
        zero_copy_available: true,
        available_auth_methods,
        detected_at: now,
    }
}

/// The level of a service survives being written and read.
proof fn lemma_level_name(level: ServiceLevel)
    ensures
        named_level(lowercase(level.label())) == level,
{
    reveal_strlit("Guaranteed");
    reveal_strlit("BestEffort");
    reveal_strlit("Degraded");
    reveal_strlit("Unavailable");
    reveal_strlit("guaranteed");
    reveal_strlit("best_effort");
    reveal_strlit("besteffort");
    reveal_strlit("degraded");
    reveal_strlit("unavailable");
    match level {
        ServiceLevel::Guaranteed => assert(lowercase("Guaranteed"@) =~= "guaranteed"@),
        ServiceLevel::BestEffort => {
            assert(lowercase("BestEffort"@) =~= "besteffort"@);
            assert("besteffort"@[0] != "guaranteed"@[0]);
        },
        ServiceLevel::Degraded => assert(lowercase("Degraded"@) =~= "degraded"@),
        ServiceLevel::Unavailable => {
            assert(lowercase("Unavailable"@) =~= "unavailable"@);
            assert("unavailable"@[0] != "best_effort"@[0]);
        },
    }
}

/// The deployment that a deployment's name in a report reads as: a user service's name says
/// more than a reader knows of.
pub open spec fn deployment_read_back(d: DeploymentContext) -> DeploymentContext {
    match d {
        DeploymentContext::SystemdUser { .. } => DeploymentContext::Unknown,
        other => other,
    }
}

proof fn lemma_deployment_name(d: DeploymentContext)
    ensures
        named_deployment(lowercase(d.label()), None) == deployment_read_back(d),
{
    reveal_strlit("Native");
    reveal_strlit("Flatpak");
    reveal_strlit("systemd-user (linger: true)");
    reveal_strlit("systemd-user (linger: false)");
    reveal_strlit("Unknown");
    reveal_strlit("native");
    reveal_strlit("flatpak");
    reveal_strlit("systemd-user");
    reveal_strlit("systemd-system");
    reveal_strlit("systemd");
    reveal_strlit("initd");
    reveal_strlit("init.d");
    reveal_strlit("unknown");
    let low = lowercase(d.label());
    match d {
        DeploymentContext::Native => assert(low =~= "native"@),
        DeploymentContext::Flatpak => {
            assert(low =~= "flatpak"@);
        },
        DeploymentContext::SystemdUser { linger } => {
            assert(is_ascii_text(d.label()));
            assert(low.len() == d.label().len());
        },
        DeploymentContext::SystemdSystem => {
            assert(low =~= "systemd-system"@);
        },
        DeploymentContext::InitD => {
            assert(low =~= "init.d"@);
            assert(low[0] == 'i' && "native"@[0] == 'n');
        },
        DeploymentContext::Unknown => {
            assert(low =~= "unknown"@);
            assert(low[0] == 'u' && "flatpak"@[0] == 'f' && "systemd"@[0] == 's');
        },
    }
}

/// A list of texts reads back as it was.
proof fn lemma_list(items: Seq<JsonTree>, v: Seq<String>)
    requires
        items == list_tree(v)->Array_0,
    ensures
        text_items(items) == texts(v),
    decreases v.len(),
{
    if v.len() > 0 {
        let rest = items.drop_last();
        assert(rest =~= list_tree(v.drop_last())->Array_0);
        lemma_list(rest, v.drop_last());
        assert(items.last() == JsonTree::Str(v.last()@));
        assert(texts(v) =~= texts(v.drop_last()).push(v.last()@));
    } else {
        assert(texts(v) =~= text_items(items));
    }
}

/// A list of texts under a name reads back as it was.
proof fn lemma_list_member(a: JsonTree, b: JsonTree, n: nat, name: Seq<char>, v: Seq<String>)
    requires
        agrees(a, b, n),
        b is Object,
        b.member(name) == Some(list_tree(v)),
    ensures
        text_items(a.items(name)) == texts(v),
{
    lemma_agreeing_members(a, b, n, name);
    let x = a.items(name);
    let y = b.items(name);
    assert forall|i: int| 0 <= i < x.len() implies x[i] == y[i] by {
        assert(agrees(x[i], y[i], (n - 2) as nat));
        assert(y[i] is Str);
    }
    assert(x =~= y);
    lemma_list(x, v);
}

proof fn lemma_system(caps: DetectedCapabilities)
    ensures
        distinct_names(system_tree(caps)->Object_0),
        system_tree(caps).text("compositor"@) == Some(caps.compositor_name@),
        system_tree(caps).text("compositor_version"@) == text_of(caps.compositor_version),
        system_tree(caps).text("distribution"@) == Some(caps.distribution@),
        system_tree(caps).text("kernel"@) == Some(caps.kernel_version@),
{
    reveal_strlit("compositor");
    reveal_strlit("compositor_version");
    reveal_strlit("distribution");
    reveal_strlit("kernel");
    assert("compositor"@.len() == 10 && "compositor_version"@.len() == 18);
    assert("distribution"@.len() == 12 && "kernel"@.len() == 6);
    let all = system_tree(caps)->Object_0;
    lemma_entry(all, 0);
    lemma_entry(all, 1);
    lemma_entry(all, 2);
    lemma_entry(all, 3);
}

proof fn lemma_portals(caps: DetectedCapabilities)
    ensures
        distinct_names(portals_tree(caps)->Object_0),
        version_of(portals_tree(caps), "version"@) == Some(caps.portal_version),
        portals_tree(caps).text("backend"@) == Some(caps.portal_backend@),
        version_of(portals_tree(caps), "screencast_version"@) == caps.screencast_version,
        version_of(portals_tree(caps), "remote_desktop_version"@) == caps.remote_desktop_version,
        version_of(portals_tree(caps), "secret_version"@) == caps.secret_portal_version,
{
    reveal_strlit("version");
    reveal_strlit("backend");
    reveal_strlit("screencast_version");
    reveal_strlit("remote_desktop_version");
    reveal_strlit("secret_version");
    assert("version"@.len() == 7 && "backend"@.len() == 7);
    assert("screencast_version"@.len() == 18 && "remote_desktop_version"@.len() == 22);
    assert("secret_version"@.len() == 14);
    assert("version"@[0] == 'v' && "backend"@[0] == 'b');
    let all = portals_tree(caps)->Object_0;
    lemma_entry(all, 0);
    lemma_entry(all, 1);
    lemma_entry(all, 2);
    lemma_entry(all, 3);
    lemma_entry(all, 4);
}

proof fn lemma_deployment(caps: DetectedCapabilities)
    ensures
        distinct_names(deployment_tree(caps)->Object_0),
        deployment_tree(caps).text("context"@) == Some(caps.deployment_context.label()),
        deployment_tree(caps).text("xdg_runtime_dir"@) == Some(caps.xdg_runtime_dir@),
        deployment_tree(caps).truth("linger"@) is None,
{
    reveal_strlit("context");
    reveal_strlit("xdg_runtime_dir");
    reveal_strlit("linger");
    assert("context"@.len() == 7 && "xdg_runtime_dir"@.len() == 15);
    assert("linger"@.len() == 6);
    let all = deployment_tree(caps)->Object_0;
    lemma_entry(all, 0);
    lemma_entry(all, 1);
    lemma_no_entry(all, "linger"@);
}

proof fn lemma_persistence(caps: DetectedCapabilities)
    ensures
        distinct_names(persistence_tree(caps)->Object_0),
        persistence_tree(caps).text("strategy"@) == Some(caps.persistence_strategy@),
        persistence_tree(caps).member("notes"@) == Some(list_tree(caps.persistence_notes@)),
{
    reveal_strlit("strategy");
    reveal_strlit("notes");
    assert("strategy"@.len() == 8 && "notes"@.len() == 5);
    let all = persistence_tree(caps)->Object_0;
    lemma_entry(all, 0);
    lemma_entry(all, 1);
}

proof fn lemma_hints(caps: DetectedCapabilities)
    ensures
        distinct_names(hints_tree(caps)->Object_0),
        version_of(hints_tree(caps), "recommended_fps"@) == caps.recommended_fps,
        hints_tree(caps).text("recommended_codec"@) == text_of(caps.recommended_codec),
        hints_tree(caps).truth("zero_copy"@) == Some(caps.zero_copy_available),
{
    reveal_strlit("recommended_fps");
    reveal_strlit("recommended_codec");
    reveal_strlit("zero_copy");
    assert("recommended_fps"@.len() == 15 && "recommended_codec"@.len() == 17);
    assert("zero_copy"@.len() == 9);
    let all = hints_tree(caps)->Object_0;
    lemma_entry(all, 0);
    lemma_entry(all, 1);
    lemma_entry(all, 2);
}

proof fn lemma_summary(caps: DetectedCapabilities)
    ensures
        distinct_names(summary_tree(caps)->Object_0),
{
    reveal_strlit("guaranteed");
    reveal_strlit("best_effort");
    reveal_strlit("degraded");
    reveal_strlit("unavailable");
    assert("guaranteed"@.len() == 10 && "best_effort"@.len() == 11);
    assert("degraded"@.len() == 8 && "unavailable"@.len() == 11);
    assert("best_effort"@[0] == 'b' && "unavailable"@[0] == 'u');
}

proof fn lemma_quirk(q: PlatformQuirk)
    ensures
        distinct_names(quirk_tree(q)->Object_0),
        quirk_tree(q).text("id"@) == Some(q.quirk_id@),
        quirk_tree(q).text("description"@) == Some(q.description@),
        quirk_tree(q).text("impact"@) == Some(q.impact@),
{
    reveal_strlit("id");
    reveal_strlit("description");
    reveal_strlit("impact");
    assert("id"@.len() == 2 && "description"@.len() == 11);
    assert("impact"@.len() == 6);
    let all = quirk_tree(q)->Object_0;
    lemma_entry(all, 0);
    lemma_entry(all, 1);
    lemma_entry(all, 2);
}

proof fn lemma_service(s: ServiceInfo)
    ensures
        distinct_names(service_tree(s)->Object_0),
        service_tree(s).text("id"@) == Some(s.id@),
        service_tree(s).text("name"@) == Some(s.name@),
        service_tree(s).text("level"@) == Some(s.level.label()),
        service_tree(s).text("wayland_source"@) == text_of(s.wayland_source),
        service_tree(s).text("rdp_capability"@) == text_of(s.rdp_capability),
        service_tree(s).member("notes"@) == Some(list_tree(s.notes@)),
{
    reveal_strlit("id");
    reveal_strlit("name");
    reveal_strlit("level");
    reveal_strlit("wayland_source");
    reveal_strlit("rdp_capability");
    reveal_strlit("notes");
    assert("id"@.len() == 2 && "name"@.len() == 4);
    assert("level"@.len() == 5 && "wayland_source"@.len() == 14);
    assert("rdp_capability"@.len() == 14 && "notes"@.len() == 5);
    assert("wayland_source"@[0] == 'w' && "rdp_capability"@[0] == 'r');
    assert("level"@[0] == 'l' && "notes"@[0] == 'n');
    let all = service_tree(s)->Object_0;
    lemma_entry(all, 0);
    lemma_entry(all, 1);
    lemma_entry(all, 2);
    lemma_entry(all, 3);
    lemma_entry(all, 4);
    lemma_entry(all, 5);
}

proof fn lemma_report(caps: DetectedCapabilities)
    ensures
        distinct_names(report_tree(caps)->Object_0),
        report_tree(caps).member("system"@) == Some(system_tree(caps)),
        report_tree(caps).member("portals"@) == Some(portals_tree(caps)),
        report_tree(caps).member("deployment"@) == Some(deployment_tree(caps)),
        report_tree(caps).member("persistence"@) == Some(persistence_tree(caps)),
        report_tree(caps).member("quirks"@) == Some(quirks_tree(caps.quirks@)),
        report_tree(caps).member("services"@) == Some(services_tree(caps.services@)),
        report_tree(caps).member("hints"@) == Some(hints_tree(caps)),
{
    reveal_strlit("system");
    reveal_strlit("portals");
    reveal_strlit("deployment");
    reveal_strlit("persistence");
    reveal_strlit("quirks");
    reveal_strlit("services");
    reveal_strlit("summary");
    reveal_strlit("hints");
    reveal_strlit("authentication");
    reveal_strlit("detected_at");
    assert("system"@.len() == 6 && "portals"@.len() == 7);
    assert("deployment"@.len() == 10 && "persistence"@.len() == 11);
    assert("quirks"@.len() == 6 && "services"@.len() == 8);
    assert("summary"@.len() == 7 && "hints"@.len() == 5);
    assert("authentication"@.len() == 14 && "detected_at"@.len() == 11);
    assert("system"@[0] == 's' && "quirks"@[0] == 'q');
    assert("portals"@[0] == 'p' && "summary"@[0] == 's');
    assert("persistence"@[0] == 'p' && "detected_at"@[0] == 'd');
    let all = report_tree(caps)->Object_0;
    lemma_entry(all, 0);
    lemma_entry(all, 1);
    lemma_entry(all, 2);
    lemma_entry(all, 3);
    lemma_entry(all, 4);
    lemma_entry(all, 5);
    lemma_entry(all, 7);
}

proof fn lemma_list_fits(v: Seq<String>, n: nat)
    requires
        n > 0,
    ensures
        fits(list_tree(v), n),
{
    reveal_with_fuel(fits, 2);
}

/// A report can be read again.
proof fn lemma_report_fits(caps: DetectedCapabilities)
    ensures
        fits(report_tree(caps), READ_DEPTH as nat),
{
    let n = READ_DEPTH as nat;
    lemma_report(caps);
    assert(fits(system_tree(caps), (n - 1) as nat)) by {
        reveal_with_fuel(fits, 2);
        lemma_system(caps);
    }
    assert(fits(portals_tree(caps), (n - 1) as nat)) by {
        reveal_with_fuel(fits, 2);
        lemma_portals(caps);
    }
    assert(fits(deployment_tree(caps), (n - 1) as nat)) by {
        reveal_with_fuel(fits, 2);
        lemma_deployment(caps);
    }
    assert(fits(persistence_tree(caps), (n - 1) as nat)) by {
        reveal_with_fuel(fits, 2);
        lemma_persistence(caps);
        lemma_list_fits(caps.persistence_notes@, (n - 2) as nat);
    }
    assert(fits(hints_tree(caps), (n - 1) as nat)) by {
        reveal_with_fuel(fits, 2);
        lemma_hints(caps);
    }
    assert(fits(summary_tree(caps), (n - 1) as nat)) by {
        reveal_with_fuel(fits, 2);
        lemma_summary(caps);
    }
    assert(fits(authentication_tree(caps), (n - 1) as nat)) by {
        lemma_list_fits(caps.available_auth_methods@, (n - 2) as nat);
    }
    assert(fits(quirks_tree(caps.quirks@), (n - 1) as nat)) by {
        let items = quirks_tree(caps.quirks@)->Array_0;
        assert forall|i: int| 0 <= i < items.len() implies fits(
            #[trigger] items[i],
            (n - 2) as nat,
        ) by {
            reveal_with_fuel(fits, 2);
            lemma_quirk(caps.quirks@[i]);
        }
    }
    assert(fits(services_tree(caps.services@), (n - 1) as nat)) by {
        let items = services_tree(caps.services@)->Array_0;
        assert forall|i: int| 0 <= i < items.len() implies fits(
            #[trigger] items[i],
            (n - 2) as nat,
        ) by {
            reveal_with_fuel(fits, 2);
            lemma_service(caps.services@[i]);
            lemma_list_fits(caps.services@[i].notes@, (n - 3) as nat);
        }
    }
    assert(fits(JsonTree::Str(time_text(caps.detected_at)), (n - 1) as nat));
}

/// A service as it reads back: with the symbol of its level.
pub open spec fn service_read_back(s: ServiceInfo) -> ServiceView {
    ServiceView { level_emoji: s.level.symbol(), ..service_view(s) }
}

/// Services as they read back.
pub open spec fn services_read_back(v: Seq<ServiceInfo>) -> Seq<ServiceView> {
    Seq::new(v.len(), |i: int| service_read_back(v[i]))
}

proof fn lemma_services(items: Seq<JsonTree>, v: Seq<ServiceInfo>, n: nat)
    requires
        items.len() == v.len(),
        forall|i: int| 0 <= i < v.len() ==> agrees(#[trigger] items[i], service_tree(v[i]), n),
    ensures
        service_items(items) == services_read_back(v),
    decreases v.len(),
{
    if v.len() > 0 {
        let a = items.last();
        let s = v.last();
        let b = service_tree(s);
        assert(agrees(items[v.len() - 1], service_tree(v[v.len() - 1]), n));
        lemma_service(s);
        lemma_agreeing_members(a, b, n, "id"@);
        lemma_agreeing_members(a, b, n, "name"@);
        lemma_agreeing_members(a, b, n, "level"@);
        lemma_agreeing_members(a, b, n, "wayland_source"@);
        lemma_agreeing_members(a, b, n, "rdp_capability"@);
        lemma_list_member(a, b, n, "notes"@, s.notes@);
        lemma_level_name(s.level);
        assert(service_of(a)->0 =~= service_read_back(s));
        assert forall|i: int| 0 <= i < v.drop_last().len() implies agrees(
            #[trigger] items.drop_last()[i],
            service_tree(v.drop_last()[i]),
            n,
        ) by {
            assert(items.drop_last()[i] == items[i]);
        }
        lemma_services(items.drop_last(), v.drop_last(), n);
        assert(services_read_back(v) =~= services_read_back(v.drop_last()).push(
            service_read_back(s),
        ));
    } else {
        assert(services_read_back(v) =~= service_items(items));
    }
}

proof fn lemma_quirks(items: Seq<JsonTree>, v: Seq<PlatformQuirk>, n: nat)
    requires
        items.len() == v.len(),
        forall|i: int| 0 <= i < v.len() ==> agrees(#[trigger] items[i], quirk_tree(v[i]), n),
    ensures
        quirk_items(items) == quirk_views(v),
    decreases v.len(),
{
    if v.len() > 0 {
        let a = items.last();
        let q = v.last();
        let b = quirk_tree(q);
        assert(agrees(items[v.len() - 1], quirk_tree(v[v.len() - 1]), n));
        lemma_quirk(q);
        lemma_agreeing_members(a, b, n, "id"@);
        lemma_agreeing_members(a, b, n, "description"@);
        lemma_agreeing_members(a, b, n, "impact"@);
        assert(quirk_of(a)->0 =~= quirk_view(q));
        assert forall|i: int| 0 <= i < v.drop_last().len() implies agrees(
            #[trigger] items.drop_last()[i],
            quirk_tree(v.drop_last()[i]),
            n,
        ) by {
            assert(items.drop_last()[i] == items[i]);
        }
        lemma_quirks(items.drop_last(), v.drop_last(), n);
        assert(quirk_views(v) =~= quirk_views(v.drop_last()).push(quirk_view(q)));
    } else {
        assert(quirk_views(v) =~= quirk_items(items));
    }
}

/// Symbols do not count.
proof fn lemma_counts(v: Seq<ServiceInfo>, level: ServiceLevel)
    ensures
        level_count(services_read_back(v), level) == level_count(service_views(v), level),
    decreases v.len(),
{
    if v.len() > 0 {
        lemma_counts(v.drop_last(), level);
        assert(services_read_back(v).drop_last() =~= services_read_back(v.drop_last()));
        assert(service_views(v).drop_last() =~= service_views(v.drop_last()));
    }
}

/// Symbols do not authenticate.
proof fn lemma_auth(v: Seq<ServiceInfo>)
    ensures
        auth_methods(services_read_back(v)) == auth_methods(service_views(v)),
{
    let a = services_read_back(v);
    let b = service_views(v);
    assert forall|i: int| 0 <= i < v.len() implies #[trigger] offers_pam(a[i]) == offers_pam(
        b[i],
    ) by {}
    if exists|i: int| 0 <= i < b.len() && #[trigger] offers_pam(b[i]) {
        let i = choose|i: int| 0 <= i < b.len() && #[trigger] offers_pam(b[i]);
        assert(offers_pam(a[i]));
    }
}

/// Capabilities that an exported report reads back as: those that were exported, at another
/// time, with what follows from the services derived anew.
pub open spec fn reads_back(c: DetectedCapabilities, caps: DetectedCapabilities) -> bool {
    let services = service_views(caps.services@);
    &&& c.compositor_name@ == caps.compositor_name@
    &&& text_of(c.compositor_version) == text_of(caps.compositor_version)
    &&& c.distribution@ == caps.distribution@
    &&& c.kernel_version@ == caps.kernel_version@
    &&& c.portal_version == caps.portal_version
    &&& c.portal_backend@ == caps.portal_backend@
    &&& c.screencast_version == caps.screencast_version
    &&& c.remote_desktop_version == caps.remote_desktop_version
    &&& c.secret_portal_version == caps.secret_portal_version
    &&& c.deployment_context == deployment_read_back(caps.deployment_context)
    &&& c.xdg_runtime_dir@ == caps.xdg_runtime_dir@
    &&& quirk_views(c.quirks@) == quirk_views(caps.quirks@)
    &&& c.persistence_strategy@ == caps.persistence_strategy@
    &&& texts(c.persistence_notes@) == texts(caps.persistence_notes@)
    &&& service_views(c.services@) == services_read_back(caps.services@)
    &&& c.guaranteed_count == level_count(services, ServiceLevel::Guaranteed)
    &&& c.best_effort_count == level_count(services, ServiceLevel::BestEffort)
    &&& c.degraded_count == level_count(services, ServiceLevel::Degraded)
    &&& c.unavailable_count == level_count(services, ServiceLevel::Unavailable)
    &&& c.recommended_fps == caps.recommended_fps
    &&& text_of(c.recommended_codec) == text_of(caps.recommended_codec)
    &&& c.zero_copy_available == caps.zero_copy_available
    &&& texts(c.available_auth_methods@) == auth_methods(services)
}

/// An exported report reads back: reading the text that was written succeeds, and gives the
/// capabilities that were exported. The counts, the symbols of the levels and the
/// authentication methods are derived from the services anew, the time is that of reading, and
/// a user service of systemd reads back as an unknown deployment.
pub proof fn report_reads_back(
    caps: DetectedCapabilities,
    text: Seq<char>,
    now: Timestamp,
    r: Result<DetectedCapabilities, String>,
)
    requires
        reads_as(text, report_tree(caps)),
        capabilities_read(text, now, r),
    ensures
        r matches Ok(c) && reads_back(c, caps) && c.detected_at == now,
{
    let n = READ_DEPTH as nat;
    let j = parsed_json(text)->Ok_0;
    let t = report_tree(caps);
    lemma_report(caps);
    lemma_agreeing_members(j, t, n, "system"@);
    lemma_agreeing_members(j, t, n, "portals"@);
    lemma_agreeing_members(j, t, n, "deployment"@);
    lemma_agreeing_members(j, t, n, "persistence"@);
    lemma_agreeing_members(j, t, n, "quirks"@);
    lemma_agreeing_members(j, t, n, "services"@);
    lemma_agreeing_members(j, t, n, "hints"@);
    let c = r->Ok_0;
    let m = (n - 1) as nat;
    lemma_read_system(j.section("system"@), caps, m);
    lemma_read_portals(j.section("portals"@), caps, m);
    lemma_read_deployment(j.section("deployment"@), caps, m);
    lemma_read_persistence(j.section("persistence"@), caps, m);
    lemma_read_hints(j.section("hints"@), caps, m);
    lemma_quirks(j.items("quirks"@), caps.quirks@, (n - 2) as nat);
    lemma_services(j.items("services"@), caps.services@, (n - 2) as nat);
    lemma_counts(caps.services@, ServiceLevel::Guaranteed);
    lemma_counts(caps.services@, ServiceLevel::BestEffort);
    lemma_counts(caps.services@, ServiceLevel::Degraded);
    lemma_counts(caps.services@, ServiceLevel::Unavailable);
    lemma_auth(caps.services@);
}

proof fn lemma_read_system(a: JsonTree, caps: DetectedCapabilities, n: nat)
    requires
        agrees(a, system_tree(caps), n),
    ensures
        a.text("compositor"@) == Some(caps.compositor_name@),
        a.text("compositor_version"@) == text_of(caps.compositor_version),
        a.text("distribution"@) == Some(caps.distribution@),
        a.text("kernel"@) == Some(caps.kernel_version@),
{
    let b = system_tree(caps);
    lemma_system(caps);
    lemma_agreeing_members(a, b, n, "compositor"@);
    lemma_agreeing_members(a, b, n, "compositor_version"@);
    lemma_agreeing_members(a, b, n, "distribution"@);
    lemma_agreeing_members(a, b, n, "kernel"@);
}

proof fn lemma_read_portals(a: JsonTree, caps: DetectedCapabilities, n: nat)
    requires
        agrees(a, portals_tree(caps), n),
    ensures
        version_of(a, "version"@) == Some(caps.portal_version),
        a.text("backend"@) == Some(caps.portal_backend@),
        version_of(a, "screencast_version"@) == caps.screencast_version,
        version_of(a, "remote_desktop_version"@) == caps.remote_desktop_version,
        version_of(a, "secret_version"@) == caps.secret_portal_version,
{
    let b = portals_tree(caps);
    lemma_portals(caps);
    lemma_agreeing_members(a, b, n, "version"@);
    lemma_agreeing_members(a, b, n, "backend"@);
    lemma_agreeing_members(a, b, n, "screencast_version"@);
    lemma_agreeing_members(a, b, n, "remote_desktop_version"@);
    lemma_agreeing_members(a, b, n, "secret_version"@);
}

proof fn lemma_read_deployment(a: JsonTree, caps: DetectedCapabilities, n: nat)
    requires
        agrees(a, deployment_tree(caps), n),
    ensures
        a.text("context"@) == Some(caps.deployment_context.label()),
        named_deployment(lowercase(caps.deployment_context.label()), a.truth("linger"@))
            == deployment_read_back(caps.deployment_context),
        a.text("xdg_runtime_dir"@) == Some(caps.xdg_runtime_dir@),
{
    let b = deployment_tree(caps);
    lemma_deployment(caps);
    lemma_deployment_name(caps.deployment_context);
    lemma_agreeing_members(a, b, n, "context"@);
    lemma_agreeing_members(a, b, n, "linger"@);
    lemma_agreeing_members(a, b, n, "xdg_runtime_dir"@);
}

proof fn lemma_read_persistence(a: JsonTree, caps: DetectedCapabilities, n: nat)
    requires
        agrees(a, persistence_tree(caps), n),
    ensures
        a.text("strategy"@) == Some(caps.persistence_strategy@),
        text_items(a.items("notes"@)) == texts(caps.persistence_notes@),
{
    let b = persistence_tree(caps);
    lemma_persistence(caps);
    lemma_agreeing_members(a, b, n, "strategy"@);
    lemma_list_member(a, b, n, "notes"@, caps.persistence_notes@);
}

proof fn lemma_read_hints(a: JsonTree, caps: DetectedCapabilities, n: nat)
    requires
        agrees(a, hints_tree(caps), n),
    ensures
        version_of(a, "recommended_fps"@) == caps.recommended_fps,
        a.text("recommended_codec"@) == text_of(caps.recommended_codec),
        a.truth("zero_copy"@) == Some(caps.zero_copy_available),
{
    let b = hints_tree(caps);
    lemma_hints(caps);
    lemma_agreeing_members(a, b, n, "recommended_fps"@);
    lemma_agreeing_members(a, b, n, "recommended_codec"@);
    lemma_agreeing_members(a, b, n, "zero_copy"@);
}

/// Nothing is found under a key that no entry has.
proof fn lemma_no_entry(entries: Seq<(Seq<char>, JsonTree)>, key: Seq<char>)
    requires
        forall|i: int| 0 <= i < entries.len() ==> (#[trigger] entries[i]).0 != key,
    ensures
        entry(entries, key) is None,
    decreases entries.len(),
{
    if entries.len() > 0 {
        let rest = entries.drop_first();
        assert forall|i: int| 0 <= i < rest.len() implies (#[trigger] rest[i]).0 != key by {
            assert(rest[i] == entries[i + 1]);
        }
        assert(entries[0].0 != key);
        lemma_no_entry(rest, key);
    }
}

/// An entry is found under its key if no entry before it has that key.
proof fn lemma_entry(entries: Seq<(Seq<char>, JsonTree)>, at: int)
    requires
        0 <= at < entries.len(),
        forall|i: int| 0 <= i < at ==> (#[trigger] entries[i]).0 != entries[at].0,
    ensures
        entry(entries, entries[at].0) == Some(entries[at].1),
    decreases at,
{
    if at > 0 {
        let rest = entries.drop_first();
        assert(rest[at - 1] == entries[at]);
        assert forall|i: int| 0 <= i < at - 1 implies (#[trigger] rest[i]).0 != rest[at - 1].0 by {
            assert(rest[i] == entries[i + 1]);
        }
        assert(entries[0].0 != entries[at].0);
        lemma_entry(rest, at - 1);
    }
}

/// Deployments go by their names in a report; a user service lingers only where that is said,
/// and a name that stands for none is an unknown deployment.
pub proof fn deployments_are_recognized(name: Seq<char>, linger: Option<bool>)
    ensures
        named_deployment(name, linger) is Native <==> name == "native"@,
        named_deployment(name, linger) is Flatpak <==> name == "flatpak"@,
        named_deployment(name, linger) is SystemdUser <==> name == "systemd-user"@,
        named_deployment(name, linger) is SystemdSystem <==> name == "systemd-system"@ || name
            == "systemd"@,
        named_deployment(name, linger) is InitD <==> name == "initd"@ || name == "init.d"@,
        name == "systemd-user"@ ==> (named_deployment(name, linger)->linger <==> linger
            == Some(true)),
{
    reveal_strlit("native");
    reveal_strlit("flatpak");
    reveal_strlit("systemd-user");
    reveal_strlit("systemd-system");
    reveal_strlit("systemd");
    reveal_strlit("initd");
    reveal_strlit("init.d");
    assert("native"@.len() == 6 && "flatpak"@.len() == 7 && "systemd-user"@.len() == 12);
    assert("systemd-system"@.len() == 14 && "systemd"@.len() == 7 && "initd"@.len() == 5);
    assert("init.d"@.len() == 6 && "init.d"@[0] == 'i' && "native"@[0] == 'n');
    assert("flatpak"@[0] == 'f' && "systemd"@[0] == 's');
}

/// Service levels go by their names in a report, the best effort by two; a name that stands
/// for none means that the service is unavailable.
pub proof fn levels_are_recognized(name: Seq<char>)
    ensures
        named_level(name) is Guaranteed <==> name == "guaranteed"@,
        named_level(name) is BestEffort <==> name == "best_effort"@ || name == "besteffort"@,
        named_level(name) is Degraded <==> name == "degraded"@,
{
    reveal_strlit("guaranteed");
    reveal_strlit("best_effort");
    reveal_strlit("besteffort");
    reveal_strlit("degraded");
    assert("guaranteed"@.len() == 10 && "best_effort"@.len() == 11 && "besteffort"@.len() == 10);
    assert("degraded"@.len() == 8 && "guaranteed"@[0] == 'g' && "besteffort"@[0] == 'b');
}

/// An entry is a service if it has an id, a name and a level as texts. Everything else that is
/// known of it is taken from the entry of its own name.
pub proof fn services_say_what_their_entry_says(j: JsonTree)
    ensures
        service_of(j) is Some <==> j.text("id"@) is Some && j.text("name"@) is Some && j.text(
            "level"@,
        ) is Some,
        service_of(j) is Some ==> {
            let s = service_of(j)->0;
            &&& Some(s.id) == j.text("id"@)
            &&& Some(s.name) == j.text("name"@)
            &&& s.level == named_level(lowercase(j.text("level"@)->0))
            &&& s.level_emoji == s.level.symbol()
            &&& s.wayland_source == j.text("wayland_source"@)
            &&& s.rdp_capability == j.text("rdp_capability"@)
            &&& s.notes == text_items(j.items("notes"@))
        },
{
}

/// An entry is a quirk if it has an id and a description; an impact that is not told is
/// unknown.
pub proof fn quirks_say_what_their_entry_says(j: JsonTree)
    ensures
        quirk_of(j) is Some <==> j.text("id"@) is Some && j.text("description"@) is Some,
        quirk_of(j) is Some ==> {
            let q = quirk_of(j)->0;
            &&& Some(q.quirk_id) == j.text("id"@)
            &&& Some(q.description) == j.text("description"@)
            &&& j.text("impact"@) is Some ==> q.impact == j.text("impact"@)->0
            &&& j.text("impact"@) is None ==> q.impact == "Unknown"@
        },
{
}

/// Lists are read item by item, in order: two lists read one behind the other give what both
/// hold.
pub proof fn lists_are_read_in_order(a: Seq<JsonTree>, b: Seq<JsonTree>)
    ensures
        text_items(a + b) == text_items(a) + text_items(b),
        service_items(a + b) == service_items(a) + service_items(b),
        quirk_items(a + b) == quirk_items(a) + quirk_items(b),
    decreases b.len(),
{
    if b.len() == 0 {
        assert(a + b =~= a);
        assert(text_items(a) + text_items(b) =~= text_items(a));
        assert(service_items(a) + service_items(b) =~= service_items(a));
        assert(quirk_items(a) + quirk_items(b) =~= quirk_items(a));
    } else {
        assert((a + b).drop_last() =~= a + b.drop_last());
        lists_are_read_in_order(a, b.drop_last());
        assert(text_items(a + b) =~= text_items(a) + text_items(b));
        assert(service_items(a + b) =~= service_items(a) + service_items(b));
        assert(quirk_items(a + b) =~= quirk_items(a) + quirk_items(b));
    }
}

/// An item that is no text, no service or no quirk is left out of the list of those, and any
/// other is in it.
pub proof fn unreadable_items_are_left_out(item: JsonTree)
    ensures
        item is Str ==> text_items(seq![item]) == seq![item->Str_0],
        !(item is Str) ==> text_items(seq![item]).len() == 0,
        service_of(item) is Some ==> service_items(seq![item]) == seq![service_of(item)->0],
        service_of(item) is None ==> service_items(seq![item]).len() == 0,
        quirk_of(item) is Some ==> quirk_items(seq![item]) == seq![quirk_of(item)->0],
        quirk_of(item) is None ==> quirk_items(seq![item]).len() == 0,
{
    assert(seq![item].drop_last() =~= Seq::empty());
    reveal_with_fuel(text_items, 2);
    reveal_with_fuel(service_items, 2);
    reveal_with_fuel(quirk_items, 2);
    if item is Str {
        assert(text_items(seq![item]) =~= seq![item->Str_0]);
    }
    if service_of(item) is Some {
        assert(service_items(seq![item]) =~= seq![service_of(item)->0]);
    }
    if quirk_of(item) is Some {
        assert(quirk_items(seq![item]) =~= seq![quirk_of(item)->0]);
    }
}

/// A service counts for its own level and no other, wherever it stands.
pub proof fn services_count_for_their_level(
    before: Seq<ServiceView>,
    service: ServiceView,
    level: ServiceLevel,
)
    ensures
        level_count(before.push(service), level) == level_count(before, level) + (if service.level
            == level {
            1nat
        } else {
            0nat
        }),
        level_count(Seq::empty(), level) == 0,
{
    assert(before.push(service).drop_last() =~= before);
}

/// None and a static password can always be chosen; PAM can be where its service is listed
/// under either of its names and is not unavailable.
pub proof fn pam_needs_its_service(services: Seq<ServiceView>)
    ensures
        auth_methods(services)[0] == "none"@,
        auth_methods(services)[1] == "password"@,
        auth_methods(services).len() == 2 || auth_methods(services).len() == 3,
        auth_methods(services).len() == 3 ==> auth_methods(services)[2] == "pam"@,
        auth_methods(services).len() == 3 <==> exists|i: int|
            0 <= i < services.len() && ((#[trigger] services[i]).id == "PamAuthentication"@
                || services[i].id == "pam_authentication"@) && !(services[i].level is Unavailable),
{
    if exists|i: int|
        0 <= i < services.len() && ((#[trigger] services[i]).id == "PamAuthentication"@
            || services[i].id == "pam_authentication"@) && !(services[i].level is Unavailable) {
        let i = choose|i: int|
            0 <= i < services.len() && ((#[trigger] services[i]).id == "PamAuthentication"@
                || services[i].id == "pam_authentication"@) && !(services[i].level is Unavailable);
        assert(offers_pam(services[i]));
    }
    if exists|i: int| 0 <= i < services.len() && #[trigger] offers_pam(services[i]) {
        let i = choose|i: int| 0 <= i < services.len() && #[trigger] offers_pam(services[i]);
        assert(!(services[i].level is Unavailable));
    }
}

/// What a report says of the system and the portals is known as it says it. What it leaves out
/// is unknown, or has no version.
pub proof fn reported_systems_are_known(caps: DetectedCapabilities, j: JsonTree, now: Timestamp)
    requires
        reports(caps, j, now),
    ensures
        ({
            let system = j.section("system"@);
            let portals = j.section("portals"@);
            &&& system.text("compositor"@) is Some ==> Some(caps.compositor_name@) == system.text(
                "compositor"@,
            )
            &&& system.text("compositor"@) is None ==> caps.compositor_name@ == "Unknown"@
            &&& text_of(caps.compositor_version) == system.text("compositor_version"@)
            &&& system.text("distribution"@) is Some ==> Some(caps.distribution@) == system.text(
                "distribution"@,
            )
            &&& system.text("distribution"@) is None ==> caps.distribution@ == "Unknown"@
            &&& system.text("kernel"@) is Some ==> Some(caps.kernel_version@) == system.text(
                "kernel"@,
            )
            &&& system.text("kernel"@) is None ==> caps.kernel_version@ == "Unknown"@
            &&& portals.text("backend"@) is Some ==> Some(caps.portal_backend@) == portals.text(
                "backend"@,
            )
            &&& portals.text("backend"@) is None ==> caps.portal_backend@ == "Unknown"@
            &&& portals.natural("version"@) is None ==> caps.portal_version == 0
            &&& portals.natural("version"@) is Some && portals.natural("version"@)->0 <= u32::MAX
                ==> caps.portal_version == portals.natural("version"@)->0
            &&& portals.natural("screencast_version"@) is None ==> caps.screencast_version is None
            &&& portals.natural("screencast_version"@) is Some && portals.natural(
                "screencast_version"@,
            )->0 <= u32::MAX ==> caps.screencast_version is Some && caps.screencast_version->0
                == portals.natural("screencast_version"@)->0
            &&& portals.natural("remote_desktop_version"@) is None
                ==> caps.remote_desktop_version is None
            &&& portals.natural("remote_desktop_version"@) is Some && portals.natural(
                "remote_desktop_version"@,
            )->0 <= u32::MAX ==> caps.remote_desktop_version is Some
                && caps.remote_desktop_version->0 == portals.natural("remote_desktop_version"@)->0
            &&& portals.natural("secret_version"@) is None ==> caps.secret_portal_version is None
            &&& portals.natural("secret_version"@) is Some && portals.natural("secret_version"@)->0
                <= u32::MAX ==> caps.secret_portal_version is Some && caps.secret_portal_version->0
                == portals.natural("secret_version"@)->0
        }),
        caps.detected_at == now,
{
}

/// What a report says of the deployment, of persistence and of hints is known as it says it;
/// services are counted by level, whatever the summary says.
pub proof fn reported_services_are_known(caps: DetectedCapabilities, j: JsonTree, now: Timestamp)
    requires
        reports(caps, j, now),
    ensures
        ({
            let deployment = j.section("deployment"@);
            let persistence = j.section("persistence"@);
            let hints = j.section("hints"@);
            &&& deployment.text("xdg_runtime_dir"@) is Some ==> Some(caps.xdg_runtime_dir@)
                == deployment.text("xdg_runtime_dir"@)
            &&& deployment.text("xdg_runtime_dir"@) is None ==> caps.xdg_runtime_dir@
                == "/run/user/1000"@
            &&& deployment.text("context"@) is Some ==> caps.deployment_context == named_deployment(
                lowercase(deployment.text("context"@)->0),
                deployment.truth("linger"@),
            )
            &&& deployment.text("context"@) is None ==> caps.deployment_context is Unknown
            &&& persistence.text("strategy"@) is Some ==> Some(caps.persistence_strategy@)
                == persistence.text("strategy"@)
            &&& persistence.text("strategy"@) is None ==> caps.persistence_strategy@ == "Unknown"@
            &&& texts(caps.persistence_notes@) == text_items(persistence.items("notes"@))
            &&& caps.zero_copy_available <==> hints.truth("zero_copy"@) == Some(true)
            &&& text_of(caps.recommended_codec) == hints.text("recommended_codec"@)
            &&& hints.natural("recommended_fps"@) is None ==> caps.recommended_fps is None
            &&& hints.natural("recommended_fps"@) is Some && hints.natural("recommended_fps"@)->0
                <= u32::MAX ==> caps.recommended_fps is Some && caps.recommended_fps->0
                == hints.natural("recommended_fps"@)->0
        }),
        service_views(caps.services@) == service_items(j.items("services"@)),
        quirk_views(caps.quirks@) == quirk_items(j.items("quirks"@)),
        caps.guaranteed_count + caps.best_effort_count + caps.degraded_count
            + caps.unavailable_count == caps.services@.len(),
        caps.guaranteed_count == level_count(
            service_views(caps.services@),
            ServiceLevel::Guaranteed,
        ),
        caps.best_effort_count == level_count(
            service_views(caps.services@),
            ServiceLevel::BestEffort,
        ),
        caps.degraded_count == level_count(service_views(caps.services@), ServiceLevel::Degraded),
        texts(caps.available_auth_methods@) == auth_methods(service_views(caps.services@)),
{
    level_counts_add_up(service_views(caps.services@));
    reveal_strlit("unknown");
    deployments_are_recognized(
        lowercase("unknown"@),
        j.section("deployment"@).truth("linger"@),
    );
    assert(lowercase("unknown"@) =~= "unknown"@);
    reveal_strlit("native");
    reveal_strlit("flatpak");
    reveal_strlit("systemd-user");
    reveal_strlit("systemd-system");
    reveal_strlit("systemd");
    reveal_strlit("initd");
    reveal_strlit("init.d");
    assert("unknown"@[0] == 'u' && "flatpak"@[0] == 'f' && "systemd"@[0] == 's');
    assert("unknown"@.len() == 7 && "native"@.len() == 6 && "systemd-user"@.len() == 12
        && "systemd-system"@.len() == 14 && "initd"@.len() == 5 && "init.d"@.len() == 6);
}

/// A report that is written tells each thing under its name.
pub proof fn written_reports_tell_everything(caps: DetectedCapabilities)
    ensures
        ({
            let j = report_tree(caps);
            &&& j.section("system"@).text("compositor"@) == Some(caps.compositor_name@)
            &&& j.section("system"@).text("compositor_version"@) == text_of(caps.compositor_version)
            &&& j.section("system"@).text("distribution"@) == Some(caps.distribution@)
            &&& j.section("system"@).text("kernel"@) == Some(caps.kernel_version@)
            &&& version_of(j.section("portals"@), "version"@) == Some(caps.portal_version)
            &&& j.section("portals"@).text("backend"@) == Some(caps.portal_backend@)
            &&& version_of(j.section("portals"@), "screencast_version"@) == caps.screencast_version
            &&& version_of(j.section("portals"@), "remote_desktop_version"@)
                == caps.remote_desktop_version
            &&& version_of(j.section("portals"@), "secret_version"@) == caps.secret_portal_version
            &&& j.section("deployment"@).text("context"@) == Some(caps.deployment_context.label())
            &&& j.section("deployment"@).text("xdg_runtime_dir"@) == Some(caps.xdg_runtime_dir@)
            &&& j.section("persistence"@).text("strategy"@) == Some(caps.persistence_strategy@)
            &&& version_of(j.section("hints"@), "recommended_fps"@) == caps.recommended_fps
            &&& j.section("hints"@).text("recommended_codec"@) == text_of(caps.recommended_codec)
            &&& j.section("hints"@).truth("zero_copy"@) == Some(caps.zero_copy_available)
        }),
{
    lemma_report(caps);
    lemma_system(caps);
    lemma_portals(caps);
    lemma_deployment(caps);
    lemma_persistence(caps);
    lemma_hints(caps);
}

/// The summary of a written report has the count of each level under its name, and the report
/// tells the methods of authentication and when it was made.
pub proof fn written_summaries_count_by_level(caps: DetectedCapabilities)
    ensures
        summary_tree(caps).natural("guaranteed"@) == Some(caps.guaranteed_count as u64),
        summary_tree(caps).natural("best_effort"@) == Some(caps.best_effort_count as u64),
        summary_tree(caps).natural("degraded"@) == Some(caps.degraded_count as u64),
        summary_tree(caps).natural("unavailable"@) == Some(caps.unavailable_count as u64),
        authentication_tree(caps).member("available_methods"@) == Some(
            list_tree(caps.available_auth_methods@),
        ),
        report_tree(caps).section("summary"@) == summary_tree(caps),
        report_tree(caps).section("authentication"@) == authentication_tree(caps),
        report_tree(caps).text("detected_at"@) == Some(time_text(caps.detected_at)),
{
    lemma_summary(caps);
    let all = summary_tree(caps)->Object_0;
    lemma_entry(all, 0);
    lemma_entry(all, 1);
    lemma_entry(all, 2);
    lemma_entry(all, 3);
    lemma_entry(authentication_tree(caps)->Object_0, 0);
    lemma_report(caps);
    let report = report_tree(caps)->Object_0;
    lemma_entry(report, 6);
    lemma_entry(report, 8);
    lemma_entry(report, 9);
}

/// The server binary is looked for beside the window's own first, then where it is installed,
/// then where it was built.
pub proof fn binaries_are_looked_for_beside_the_window(dir: Seq<char>)
    ensures
        binary_places(Some(dir))[0] == path_joined(dir, "lamco-rdp-server"@),
        binary_places(Some(dir)).skip(1) == binary_places(None),
        binary_places(None).len() == 4,
        binary_places(None)[0] == "/usr/bin/lamco-rdp-server"@,
        binary_places(None)[1] == "/usr/local/bin/lamco-rdp-server"@,
        binary_places(None)[2] == "./target/release/lamco-rdp-server"@,
        binary_places(None)[3] == "./target/debug/lamco-rdp-server"@,
{
    assert(binary_places(Some(dir)).skip(1) =~= binary_places(None));
}

/// The sample capabilities count their services as they would be counted in a report.
pub proof fn sample_services_are_counted()
    ensures
        level_count(sample_services(), ServiceLevel::Guaranteed) == 3,
        level_count(sample_services(), ServiceLevel::BestEffort) == 1,
        level_count(sample_services(), ServiceLevel::Degraded) == 0,
        level_count(sample_services(), ServiceLevel::Unavailable) == 1,
        sample_services()[0].id == "screen_capture"@,
        sample_services()[1].id == "keyboard_input"@,
        sample_services()[2].id == "pointer_input"@,
        sample_services()[3].id == "clipboard"@,
        sample_services()[4].id == "audio"@,
        sample_services()[4].wayland_source is None,
{
    reveal_with_fuel(level_count, 6);
}

/// A service and a quirk that are written tell each thing under its name.
pub proof fn written_entries_tell_everything(s: ServiceInfo, q: PlatformQuirk)
    ensures
        service_tree(s).text("id"@) == Some(s.id@),
        service_tree(s).text("name"@) == Some(s.name@),
        service_tree(s).text("level"@) == Some(s.level.label()),
        service_tree(s).text("wayland_source"@) == text_of(s.wayland_source),
        service_tree(s).text("rdp_capability"@) == text_of(s.rdp_capability),
        text_items(service_tree(s).items("notes"@)) == texts(s.notes@),
        quirk_tree(q).text("id"@) == Some(q.quirk_id@),
        quirk_tree(q).text("description"@) == Some(q.description@),
        quirk_tree(q).text("impact"@) == Some(q.impact@),
{
    lemma_service(s);
    lemma_quirk(q);
    lemma_list(list_tree(s.notes@)->Array_0, s.notes@);
}

/// A report is read exactly if it is a document with a system section. Otherwise it is told
/// whether the document or the section was missing.
pub proof fn reports_need_a_system_section(
    text: Seq<char>,
    now: Timestamp,
    r: Result<DetectedCapabilities, String>,
)
    requires
        capabilities_read(text, now, r),
    ensures
        r is Ok <==> parsed_json(text) is Ok && parsed_json(text)->Ok_0.member("system"@) is Some,
        parsed_json(text) is Err ==> (r->Err_0)@ == "Failed to parse JSON: "@
            + parsed_json(text)->Err_0,
        parsed_json(text) is Ok && r is Err ==> (r->Err_0)@
            == "Missing 'system' section in capabilities"@,
        r is Ok ==> r->Ok_0.detected_at == now,
{
}

} // verus!
