//! The state of the terminal interface: which screen is shown, the cursor
//! of every list and menu, the forms being filled in, and the session.

use vstd::prelude::*;
use crate::db::Database;
use crate::models::{
    Asn, Engagement, Ip, Screenshot, Subdomain, SubdomainStatus, Target, Technology, Url, UrlType,
};

verus! {

/// The screens of the interface.
#[derive(Debug, Clone, Copy, PartialEq, Eq, Structural)]
pub enum Screen {
    Password,
    Home,
    CreateEngagement,
    ListEngagements,
    Dashboard,
    Targets,
    Subdomains,
    TargetMenu,
    IPs,
    ASNs,
    SubdomainMenu,
    URLs,
    Technologies,
    Screenshots,
    Import,
    Help,
}

/// The field of a form that receives typed characters.
#[derive(Debug, Clone, Copy, PartialEq, Eq, Structural)]
pub enum FormField {
    Name,
    Description,
    StatusCode,
    Title,
}

/// The field of the import form that receives typed characters.
#[derive(Debug, Clone, Copy, PartialEq, Eq, Structural)]
pub enum ImportField {
    Path,
    Target,
    Engagement,
}

/// The dashboard section the user asked for; a target is picked first.
#[derive(Debug, Clone, Copy, PartialEq, Eq, Structural)]
pub enum DashboardIntent {
    Targets,
    Subdomains,
    IPs,
    ASNs,
    URLs,
    Technologies,
    Screenshots,
}

/// Seconds of inactivity after which the store is closed.
pub const SESSION_TIMEOUT_SECS: u64 = 300;

/// The cursor after moving down a list of `len` entries: the next entry, the
/// first after the last; an empty list keeps the cursor where it is.
pub open spec fn next_index(sel: int, len: int) -> int {
    if len <= 0 {
        sel
    } else {
        (sel + 1) % len
    }
}

/// The cursor after moving up a list of `len` entries: the previous entry,
/// the last before the first; an empty list keeps the cursor where it is.
pub open spec fn previous_index(sel: int, len: int) -> int {
    if len <= 0 {
        sel
    } else if sel == 0 {
        len - 1
    } else {
        sel - 1
    }
}

/// The cursor after moving down a list of `len` entries.
pub fn step_next(sel: usize, len: usize) -> (r: usize)
    ensures
        r == next_index(sel as int, len as int),
{
    if len == 0 {
        sel
    } else {
        let m = sel % len;
        proof {
            vstd::arithmetic::div_mod::lemma_add_mod_noop(sel as int, 1, len as int);
            if len == 1 {
                assert((sel as int + 1) % 1 == 0) by (nonlinear_arith);
                assert((m as int + 1) % 1 == 0) by (nonlinear_arith);
            } else {
                vstd::arithmetic::div_mod::lemma_small_mod(1, len as nat);
            }
        }
        (m + 1) % len
    }
}

/// The cursor after moving up a list of `len` entries.
pub fn step_previous(sel: usize, len: usize) -> (r: usize)
    ensures
        r == previous_index(sel as int, len as int),
{
    if len == 0 {
        sel
    } else if sel == 0 {
        len - 1
    } else {
        sel - 1
    }
}

/// Everything the interface shows and edits.
pub struct App {
    pub screen: Screen,
    pub db: Option<Database>,
    pub should_quit: bool,
    pub password_input: String,
    pub password_error: Option<String>,
    pub home_selected: usize,
    pub form_name: String,
    pub form_description: String,
    pub form_field: FormField,
    pub form_error: Option<String>,
    pub form_status_code: String,
    pub form_title: String,
    pub engagements: Vec<Engagement>,
    pub engagement_selected: usize,
    pub current_engagement: Option<Engagement>,
    pub editing_engagement: bool,
    pub editing_item_id: Option<String>,
    pub dashboard_selected: usize,
    pub dashboard_intent: Option<DashboardIntent>,
    pub targets: Vec<Target>,
    pub target_selected: usize,
    pub current_target: Option<Target>,
    pub creating_target: bool,
    pub editing_target: bool,
    pub subdomains: Vec<Subdomain>,
    pub subdomain_selected: usize,
    pub current_subdomain: Option<Subdomain>,
    pub creating_subdomain: bool,
    pub editing_subdomain: bool,
    pub subdomain_filter: Option<SubdomainStatus>,
    pub editing_notes: bool,
    pub form_notes: String,
    pub target_menu_selected: usize,
    pub ips: Vec<Ip>,
    pub ip_selected: usize,
    pub creating_ip: bool,
    pub editing_ip: bool,
    pub asns: Vec<Asn>,
    pub asn_selected: usize,
    pub creating_asn: bool,
    pub editing_asn: bool,
    pub form_org: String,
    pub subdomain_menu_selected: usize,
    pub urls: Vec<Url>,
    pub url_selected: usize,
    pub creating_url: bool,
    pub editing_url: bool,
    pub form_url_type: UrlType,
    pub technologies: Vec<Technology>,
    pub technology_selected: usize,
    pub creating_technology: bool,
    pub editing_technology: bool,
    pub form_version: String,
    pub screenshots: Vec<Screenshot>,
    pub creating_screenshot: bool,
    pub screenshot_selected: usize,
    pub screenshot_last_rendered: Option<usize>,
    pub import_path: String,
    pub import_target: String,
    pub import_engagement: String,
    pub import_result: Option<String>,
    pub import_field: ImportField,
    pub confirm_delete: bool,
    pub confirm_delete_label: String,
    pub help_previous_screen: Option<Screen>,
    pub last_activity: u64,
}

/// The subdomains of `v` whose status is `filter`, in order; all of them
/// without a filter.
pub open spec fn filtered_subdomains(v: Seq<Subdomain>, filter: Option<SubdomainStatus>) -> Seq<
    Subdomain,
>
    decreases v.len(),
{
    if v.len() == 0 {
        Seq::empty()
    } else {
        let prev = filtered_subdomains(v.drop_last(), filter);
        match filter {
            Some(st) => if v.last().status == st {
                prev.push(v.last())
            } else {
                prev
            },
            None => prev.push(v.last()),
        }
    }
}

impl App {
    /// The entries of this menu, in order.
    pub open spec fn home_menu_items_spec() -> Seq<Seq<char>> {
        seq!["Abrir engagement existente"@, "Criar novo engagement"@, "Importar dados"@, "Sair"@]
    }

    /// The entries of this menu, in order.
    pub fn home_menu_items() -> (r: Vec<&'static str>)
        ensures
            r@.map_values(|s: &str| s@) == Self::home_menu_items_spec(),
            r@.len() == 4,
    {
        let mut v: Vec<&'static str> = Vec::new();
        v.push("Abrir engagement existente");
        v.push("Criar novo engagement");
        v.push("Importar dados");
        v.push("Sair");
        assert(v@.map_values(|s: &str| s@) =~= Self::home_menu_items_spec());
        v
    }

    /// Moves this menu's cursor down, wrapping from the last entry to the first.
    pub fn home_next(&mut self)
        ensures
            *final(self) == (App { home_selected: next_index(old(self).home_selected as int, 4) as usize, ..*old(self) }),
    {
        let len = Self::home_menu_items().len();
        self.home_selected = step_next(self.home_selected, len);
    }

    /// Moves this menu's cursor up, wrapping from the first entry to the last.
    pub fn home_previous(&mut self)
        ensures
            *final(self) == (App { home_selected: previous_index(old(self).home_selected as int, 4) as usize, ..*old(self) }),
    {
        let len = Self::home_menu_items().len();
        self.home_selected = step_previous(self.home_selected, len);
    }

    /// The entries of this menu, in order.
    pub open spec fn dashboard_menu_items_spec() -> Seq<Seq<char>> {
        seq!["Targets"@, "Subdomains"@, "IPs"@, "ASNs"@, "URLs"@, "Technologies"@, "Screenshots"@]
    }

    /// The entries of this menu, in order.
    pub fn dashboard_menu_items() -> (r: Vec<&'static str>)
        ensures
            r@.map_values(|s: &str| s@) == Self::dashboard_menu_items_spec(),
            r@.len() == 7,
    {
        let mut v: Vec<&'static str> = Vec::new();
        v.push("Targets");
        v.push("Subdomains");
        v.push("IPs");
        v.push("ASNs");
        v.push("URLs");
        v.push("Technologies");
        v.push("Screenshots");
        assert(v@.map_values(|s: &str| s@) =~= Self::dashboard_menu_items_spec());
        v
    }

    /// Moves this menu's cursor down, wrapping from the last entry to the first.
    pub fn dashboard_next(&mut self)
        ensures
            *final(self) == (App { dashboard_selected: next_index(old(self).dashboard_selected as int, 7) as usize, ..*old(self) }),
    {
        let len = Self::dashboard_menu_items().len();
        self.dashboard_selected = step_next(self.dashboard_selected, len);
    }

    /// Moves this menu's cursor up, wrapping from the first entry to the last.
    pub fn dashboard_previous(&mut self)
        ensures
            *final(self) == (App { dashboard_selected: previous_index(old(self).dashboard_selected as int, 7) as usize, ..*old(self) }),
    {
        let len = Self::dashboard_menu_items().len();
        self.dashboard_selected = step_previous(self.dashboard_selected, len);
    }

    /// The entries of this menu, in order.
    pub open spec fn target_menu_items_spec() -> Seq<Seq<char>> {
        seq!["Subdomains"@, "IPs"@, "ASNs"@]
    }

    /// The entries of this menu, in order.
    pub fn target_menu_items() -> (r: Vec<&'static str>)
        ensures
            r@.map_values(|s: &str| s@) == Self::target_menu_items_spec(),
            r@.len() == 3,
    {
        let mut v: Vec<&'static str> = Vec::new();
        v.push("Subdomains");
        v.push("IPs");
        v.push("ASNs");
        assert(v@.map_values(|s: &str| s@) =~= Self::target_menu_items_spec());
        v
    }

    /// Moves this menu's cursor down, wrapping from the last entry to the first.
    pub fn target_menu_next(&mut self)
        ensures
            *final(self) == (App { target_menu_selected: next_index(old(self).target_menu_selected as int, 3) as usize, ..*old(self) }),
    {
        let len = Self::target_menu_items().len();
        self.target_menu_selected = step_next(self.target_menu_selected, len);
    }

    /// Moves this menu's cursor up, wrapping from the first entry to the last.
    pub fn target_menu_previous(&mut self)
        ensures
            *final(self) == (App { target_menu_selected: previous_index(old(self).target_menu_selected as int, 3) as usize, ..*old(self) }),
    {
        let len = Self::target_menu_items().len();
        self.target_menu_selected = step_previous(self.target_menu_selected, len);
    }

    /// The entries of this menu, in order.
    pub open spec fn subdomain_menu_items_spec() -> Seq<Seq<char>> {
        seq!["URLs"@, "Technologies"@, "Screenshots"@]
    }

    /// The entries of this menu, in order.
    pub fn subdomain_menu_items() -> (r: Vec<&'static str>)
        ensures
            r@.map_values(|s: &str| s@) == Self::subdomain_menu_items_spec(),
            r@.len() == 3,
    {
        let mut v: Vec<&'static str> = Vec::new();
        v.push("URLs");
        v.push("Technologies");
        v.push("Screenshots");
        assert(v@.map_values(|s: &str| s@) =~= Self::subdomain_menu_items_spec());
        v
    }

    /// Moves this menu's cursor down, wrapping from the last entry to the first.
    pub fn subdomain_menu_next(&mut self)
        ensures
            *final(self) == (App { subdomain_menu_selected: next_index(old(self).subdomain_menu_selected as int, 3) as usize, ..*old(self) }),
    {
        let len = Self::subdomain_menu_items().len();
        self.subdomain_menu_selected = step_next(self.subdomain_menu_selected, len);
    }

    /// Moves this menu's cursor up, wrapping from the first entry to the last.
    pub fn subdomain_menu_previous(&mut self)
        ensures
            *final(self) == (App { subdomain_menu_selected: previous_index(old(self).subdomain_menu_selected as int, 3) as usize, ..*old(self) }),
    {
        let len = Self::subdomain_menu_items().len();
        self.subdomain_menu_selected = step_previous(self.subdomain_menu_selected, len);
    }

    /// Moves the cursor of the engagements list down, wrapping from the last to the
    /// first; with an empty list nothing changes.
    pub fn engagements_next(&mut self)
        ensures
            *final(self) == (App { engagement_selected: next_index(old(self).engagement_selected as int, old(self).engagements@.len() as int) as usize, ..*old(self) }),
    {
        self.engagement_selected = step_next(self.engagement_selected, self.engagements.len());
    }

    /// Moves the cursor of the engagements list up, wrapping from the first to the
    /// last; with an empty list nothing changes.
    pub fn engagements_previous(&mut self)
        ensures
            *final(self) == (App { engagement_selected: previous_index(old(self).engagement_selected as int, old(self).engagements@.len() as int) as usize, ..*old(self) }),
    {
        self.engagement_selected = step_previous(self.engagement_selected, self.engagements.len());
    }

    /// The Engagement under the cursor, if the cursor is on one.
    pub fn selected_engagement(&self) -> (r: Option<&Engagement>)
        ensures
            r == (if self.engagement_selected < self.engagements@.len() { Some(&self.engagements@[self.engagement_selected as int]) } else { None }),
    {
        if self.engagement_selected < self.engagements.len() {
            Some(&self.engagements[self.engagement_selected])
        } else {
            None
        }
    }

    /// Moves the cursor of the targets list down, wrapping from the last to the
    /// first; with an empty list nothing changes.
    pub fn targets_next(&mut self)
        ensures
            *final(self) == (App { target_selected: next_index(old(self).target_selected as int, old(self).targets@.len() as int) as usize, ..*old(self) }),
    {
        self.target_selected = step_next(self.target_selected, self.targets.len());
    }

    /// Moves the cursor of the targets list up, wrapping from the first to the
    /// last; with an empty list nothing changes.
    pub fn targets_previous(&mut self)
        ensures
            *final(self) == (App { target_selected: previous_index(old(self).target_selected as int, old(self).targets@.len() as int) as usize, ..*old(self) }),
    {
        self.target_selected = step_previous(self.target_selected, self.targets.len());
    }

    /// The Target under the cursor, if the cursor is on one.
    pub fn selected_target(&self) -> (r: Option<&Target>)
        ensures
            r == (if self.target_selected < self.targets@.len() { Some(&self.targets@[self.target_selected as int]) } else { None }),
    {
        if self.target_selected < self.targets.len() {
            Some(&self.targets[self.target_selected])
        } else {
            None
        }
    }

    /// Moves the cursor of the subdomains list down, wrapping from the last to the
    /// first; with an empty list nothing changes.
    pub fn subdomains_next(&mut self)
        ensures
            *final(self) == (App { subdomain_selected: next_index(old(self).subdomain_selected as int, old(self).subdomains@.len() as int) as usize, ..*old(self) }),
    {
        self.subdomain_selected = step_next(self.subdomain_selected, self.subdomains.len());
    }

    /// Moves the cursor of the subdomains list up, wrapping from the first to the
    /// last; with an empty list nothing changes.
    pub fn subdomains_previous(&mut self)
        ensures
            *final(self) == (App { subdomain_selected: previous_index(old(self).subdomain_selected as int, old(self).subdomains@.len() as int) as usize, ..*old(self) }),
    {
        self.subdomain_selected = step_previous(self.subdomain_selected, self.subdomains.len());
    }

    /// The Subdomain under the cursor, if the cursor is on one.
    pub fn selected_subdomain(&self) -> (r: Option<&Subdomain>)
        ensures
            r == (if self.subdomain_selected < self.subdomains@.len() { Some(&self.subdomains@[self.subdomain_selected as int]) } else { None }),
    {
        if self.subdomain_selected < self.subdomains.len() {
            Some(&self.subdomains[self.subdomain_selected])
        } else {
            None
        }
    }

    /// Moves the cursor of the ips list down, wrapping from the last to the
    /// first; with an empty list nothing changes.
    pub fn ips_next(&mut self)
        ensures
            *final(self) == (App { ip_selected: next_index(old(self).ip_selected as int, old(self).ips@.len() as int) as usize, ..*old(self) }),
    {
        self.ip_selected = step_next(self.ip_selected, self.ips.len());
    }

    /// Moves the cursor of the ips list up, wrapping from the first to the
    /// last; with an empty list nothing changes.
    pub fn ips_previous(&mut self)
        ensures
            *final(self) == (App { ip_selected: previous_index(old(self).ip_selected as int, old(self).ips@.len() as int) as usize, ..*old(self) }),
    {
        self.ip_selected = step_previous(self.ip_selected, self.ips.len());
    }

    /// The Ip under the cursor, if the cursor is on one.
    pub fn selected_ip(&self) -> (r: Option<&Ip>)
        ensures
            r == (if self.ip_selected < self.ips@.len() { Some(&self.ips@[self.ip_selected as int]) } else { None }),
    {
        if self.ip_selected < self.ips.len() {
            Some(&self.ips[self.ip_selected])
        } else {
            None
        }
    }

    /// Moves the cursor of the asns list down, wrapping from the last to the
    /// first; with an empty list nothing changes.
    pub fn asns_next(&mut self)
        ensures
            *final(self) == (App { asn_selected: next_index(old(self).asn_selected as int, old(self).asns@.len() as int) as usize, ..*old(self) }),
    {
        self.asn_selected = step_next(self.asn_selected, self.asns.len());
    }

    /// Moves the cursor of the asns list up, wrapping from the first to the
    /// last; with an empty list nothing changes.
    pub fn asns_previous(&mut self)
        ensures
            *final(self) == (App { asn_selected: previous_index(old(self).asn_selected as int, old(self).asns@.len() as int) as usize, ..*old(self) }),
    {
        self.asn_selected = step_previous(self.asn_selected, self.asns.len());
    }

    /// The Asn under the cursor, if the cursor is on one.
    pub fn selected_asn(&self) -> (r: Option<&Asn>)
        ensures
            r == (if self.asn_selected < self.asns@.len() { Some(&self.asns@[self.asn_selected as int]) } else { None }),
    {
        if self.asn_selected < self.asns.len() {
            Some(&self.asns[self.asn_selected])
        } else {
            None
        }
    }

    /// Moves the cursor of the urls list down, wrapping from the last to the
    /// first; with an empty list nothing changes.
    pub fn urls_next(&mut self)
        ensures
            *final(self) == (App { url_selected: next_index(old(self).url_selected as int, old(self).urls@.len() as int) as usize, ..*old(self) }),
    {
        self.url_selected = step_next(self.url_selected, self.urls.len());
    }

    /// Moves the cursor of the urls list up, wrapping from the first to the
    /// last; with an empty list nothing changes.
    pub fn urls_previous(&mut self)
        ensures
            *final(self) == (App { url_selected: previous_index(old(self).url_selected as int, old(self).urls@.len() as int) as usize, ..*old(self) }),
    {
        self.url_selected = step_previous(self.url_selected, self.urls.len());
    }

    /// The Url under the cursor, if the cursor is on one.
    pub fn selected_url(&self) -> (r: Option<&Url>)
        ensures
            r == (if self.url_selected < self.urls@.len() { Some(&self.urls@[self.url_selected as int]) } else { None }),
    {
        if self.url_selected < self.urls.len() {
            Some(&self.urls[self.url_selected])
        } else {
            None
        }
    }

    /// Moves the cursor of the technologies list down, wrapping from the last to the
    /// first; with an empty list nothing changes.
    pub fn technologies_next(&mut self)
        ensures
            *final(self) == (App { technology_selected: next_index(old(self).technology_selected as int, old(self).technologies@.len() as int) as usize, ..*old(self) }),
    {
        self.technology_selected = step_next(self.technology_selected, self.technologies.len());
    }

    /// Moves the cursor of the technologies list up, wrapping from the first to the
    /// last; with an empty list nothing changes.
    pub fn technologies_previous(&mut self)
        ensures
            *final(self) == (App { technology_selected: previous_index(old(self).technology_selected as int, old(self).technologies@.len() as int) as usize, ..*old(self) }),
    {
        self.technology_selected = step_previous(self.technology_selected, self.technologies.len());
    }

    /// The Technology under the cursor, if the cursor is on one.
    pub fn selected_technology(&self) -> (r: Option<&Technology>)
        ensures
            r == (if self.technology_selected < self.technologies@.len() { Some(&self.technologies@[self.technology_selected as int]) } else { None }),
    {
        if self.technology_selected < self.technologies.len() {
            Some(&self.technologies[self.technology_selected])
        } else {
            None
        }
    }

    /// Moves the cursor of the screenshots list down, wrapping from the last to the
    /// first; with an empty list nothing changes.
    pub fn screenshots_next(&mut self)
        ensures
            *final(self) == (App { screenshot_selected: next_index(old(self).screenshot_selected as int, old(self).screenshots@.len() as int) as usize, ..*old(self) }),
    {
        self.screenshot_selected = step_next(self.screenshot_selected, self.screenshots.len());
    }

    /// Moves the cursor of the screenshots list up, wrapping from the first to the
    /// last; with an empty list nothing changes.
    pub fn screenshots_previous(&mut self)
        ensures
            *final(self) == (App { screenshot_selected: previous_index(old(self).screenshot_selected as int, old(self).screenshots@.len() as int) as usize, ..*old(self) }),
    {
        self.screenshot_selected = step_previous(self.screenshot_selected, self.screenshots.len());
    }

    /// Whether `a` is the state the interface starts in.
    pub open spec fn is_initial(a: App) -> bool {
        &&& a.screen == Screen::Password
        &&& a.db is None
        &&& a.should_quit == false
        &&& a.password_input@.len() == 0
        &&& a.password_error is None
        &&& a.home_selected == 0
        &&& a.form_name@.len() == 0
        &&& a.form_description@.len() == 0
        &&& a.form_field == FormField::Name
        &&& a.form_error is None
        &&& a.form_status_code@.len() == 0
        &&& a.form_title@.len() == 0
        &&& a.engagements@.len() == 0
        &&& a.engagement_selected == 0
        &&& a.current_engagement is None
        &&& a.editing_engagement == false
        &&& a.editing_item_id is None
        &&& a.dashboard_selected == 0
        &&& a.dashboard_intent is None
        &&& a.targets@.len() == 0
        &&& a.target_selected == 0
        &&& a.current_target is None
        &&& a.creating_target == false
        &&& a.editing_target == false
        &&& a.subdomains@.len() == 0
        &&& a.subdomain_selected == 0
        &&& a.current_subdomain is None
        &&& a.creating_subdomain == false
        &&& a.editing_subdomain == false
        &&& a.subdomain_filter is None
        &&& a.editing_notes == false
        &&& a.form_notes@.len() == 0
        &&& a.target_menu_selected == 0
        &&& a.ips@.len() == 0
        &&& a.ip_selected == 0
        &&& a.creating_ip == false
        &&& a.editing_ip == false
        &&& a.asns@.len() == 0
        &&& a.asn_selected == 0
        &&& a.creating_asn == false
        &&& a.editing_asn == false
        &&& a.form_org@.len() == 0
        &&& a.subdomain_menu_selected == 0
        &&& a.urls@.len() == 0
        &&& a.url_selected == 0
        &&& a.creating_url == false
        &&& a.editing_url == false
        &&& a.form_url_type == UrlType::Other
        &&& a.technologies@.len() == 0
        &&& a.technology_selected == 0
        &&& a.creating_technology == false
        &&& a.editing_technology == false
        &&& a.form_version@.len() == 0
        &&& a.screenshots@.len() == 0
        &&& a.creating_screenshot == false
        &&& a.screenshot_selected == 0
        &&& a.screenshot_last_rendered is None
        &&& a.import_path@.len() == 0
        &&& a.import_target@.len() == 0
        &&& a.import_engagement@.len() == 0
        &&& a.import_result is None
        &&& a.import_field == ImportField::Path
        &&& a.confirm_delete == false
        &&& a.confirm_delete_label@.len() == 0
        &&& a.help_previous_screen is None
        &&& a.last_activity == 0
    }

    /// The interface as it starts: on the password screen, with no store open,
    /// every list empty, every cursor on the first entry and every form blank.
    pub fn new() -> (r: App)
        ensures
            App::is_initial(r),
    {
        App {
            screen: Screen::Password,
            db: None,
            should_quit: false,
            password_input: String::new(),
            password_error: None,
            home_selected: 0,
            form_name: String::new(),
            form_description: String::new(),
            form_field: FormField::Name,
            form_error: None,
            form_status_code: String::new(),
            form_title: String::new(),
            engagements: Vec::new(),
            engagement_selected: 0,
            current_engagement: None,
            editing_engagement: false,
            editing_item_id: None,
            dashboard_selected: 0,
            dashboard_intent: None,
            targets: Vec::new(),
            target_selected: 0,
            current_target: None,
            creating_target: false,
            editing_target: false,
            subdomains: Vec::new(),
            subdomain_selected: 0,
            current_subdomain: None,
            creating_subdomain: false,
            editing_subdomain: false,
            subdomain_filter: None,
            editing_notes: false,
            form_notes: String::new(),
            target_menu_selected: 0,
            ips: Vec::new(),
            ip_selected: 0,
            creating_ip: false,
            editing_ip: false,
            asns: Vec::new(),
            asn_selected: 0,
            creating_asn: false,
            editing_asn: false,
            form_org: String::new(),
            subdomain_menu_selected: 0,
            urls: Vec::new(),
            url_selected: 0,
            creating_url: false,
            editing_url: false,
            form_url_type: UrlType::Other,
            technologies: Vec::new(),
            technology_selected: 0,
            creating_technology: false,
            editing_technology: false,
            form_version: String::new(),
            screenshots: Vec::new(),
            creating_screenshot: false,
            screenshot_selected: 0,
            screenshot_last_rendered: None,
            import_path: String::new(),
            import_target: String::new(),
            import_engagement: String::new(),
            import_result: None,
            import_field: ImportField::Path,
            confirm_delete: false,
            confirm_delete_label: String::new(),
            help_previous_screen: None,
            last_activity: 0,
        }
    }

    /// Clears the engagement form: blank name and description, the name field
    /// active, no error.
    pub fn reset_form(&mut self)
        ensures
            *final(self) == (App {
                form_name: final(self).form_name,
                form_description: final(self).form_description,
                form_field: FormField::Name,
                form_error: None,
                ..*old(self)
            }),
            final(self).form_name@.len() == 0,
            final(self).form_description@.len() == 0,
    {
        self.form_name = String::new();
        self.form_description = String::new();
        self.form_field = FormField::Name;
        self.form_error = None;
    }

    /// Moves the engagement form to its other field.
    pub fn form_next_field(&mut self)
        ensures
            *final(self) == (App {
                form_field: match old(self).form_field {
                    FormField::Name => FormField::Description,
                    _ => FormField::Name,
                },
                ..*old(self)
            }),
    {
        self.form_field = match self.form_field {
            FormField::Name => FormField::Description,
            _ => FormField::Name,
        };
    }

    /// The subdomains that the status filter lets through, in list order.
    pub fn subdomains_filtered(&self) -> (r: Vec<&Subdomain>)
        ensures
            r@.map_values(|s: &Subdomain| *s) == filtered_subdomains(
                self.subdomains@,
                self.subdomain_filter,
            ),
    {
        let mut out: Vec<&Subdomain> = Vec::new();
        let mut i: usize = 0;
        while i < self.subdomains.len()
            invariant
                i <= self.subdomains@.len(),
                out@.map_values(|s: &Subdomain| *s) == filtered_subdomains(
                    self.subdomains@.take(i as int),
                    self.subdomain_filter,
                ),
            decreases self.subdomains@.len() - i,
        {
            let s = &self.subdomains[i];
            assert(self.subdomains@.take(i + 1).drop_last() =~= self.subdomains@.take(i as int));
            let keep = match self.subdomain_filter {
                Some(st) => s.status == st,
                None => true,
            };
            if keep {
                out.push(s);
            }
            assert(out@.map_values(|s: &Subdomain| *s) =~= filtered_subdomains(
                self.subdomains@.take(i + 1),
                self.subdomain_filter,
            ));
            i = i + 1;
        }
        assert(self.subdomains@.take(self.subdomains@.len() as int) =~= self.subdomains@);
        out
    }

    /// Clears the import form: blank path, target and engagement, no result,
    /// the path field active.
    pub fn reset_import_form(&mut self)
        ensures
            *final(self) == (App {
                import_path: final(self).import_path,
                import_target: final(self).import_target,
                import_engagement: final(self).import_engagement,
                import_result: None,
                import_field: ImportField::Path,
                ..*old(self)
            }),
            final(self).import_path@.len() == 0,
            final(self).import_target@.len() == 0,
            final(self).import_engagement@.len() == 0,
    {
        self.import_path = String::new();
        self.import_target = String::new();
        self.import_engagement = String::new();
        self.import_result = None;
        self.import_field = ImportField::Path;
    }

    /// Asks the user to confirm the deletion of the item named `label`.
    pub fn ask_confirm_delete(&mut self, label: &str)
        ensures
            *final(self) == (App {
                confirm_delete: true,
                confirm_delete_label: final(self).confirm_delete_label,
                ..*old(self)
            }),
            final(self).confirm_delete_label@ == label@,
    {
        self.confirm_delete = true;
        self.confirm_delete_label = label.to_owned();
    }

    /// Drops a pending deletion.
    pub fn cancel_confirm_delete(&mut self)
        ensures
            *final(self) == (App {
                confirm_delete: false,
                confirm_delete_label: final(self).confirm_delete_label,
                ..*old(self)
            }),
            final(self).confirm_delete_label@.len() == 0,
    {
        self.confirm_delete = false;
        self.confirm_delete_label = String::new();
    }

    /// Shows the help screen, remembering the screen it was opened from.
    pub fn open_help(&mut self)
        ensures
            *final(self) == (App {
                help_previous_screen: Some(old(self).screen),
                screen: Screen::Help,
                ..*old(self)
            }),
    {
        self.help_previous_screen = Some(self.screen);
        self.screen = Screen::Help;
    }

    /// Leaves the help screen for the screen it was opened from (home if none).
    pub fn close_help(&mut self)
        ensures
            *final(self) == (App {
                screen: match old(self).help_previous_screen {
                    Some(s) => s,
                    None => Screen::Home,
                },
                help_previous_screen: None,
                ..*old(self)
            }),
    {
        self.screen = match self.help_previous_screen {
            Some(s) => s,
            None => Screen::Home,
        };
        self.help_previous_screen = None;
    }

    /// Whether, at time `now` (seconds), the session has been idle for the
    /// whole timeout since the last activity.
    pub open spec fn expired_at(self, now: int) -> bool {
        now - self.last_activity >= SESSION_TIMEOUT_SECS
    }

    /// Whether the session is expired at time `now` (seconds).
    pub fn session_expired_at(&self, now: u64) -> (r: bool)
        ensures
            r == self.expired_at(now as int),
    {
        now >= self.last_activity && now - self.last_activity >= SESSION_TIMEOUT_SECS
    }

    /// Records activity at time `now` (seconds).
    pub fn touch_at(&mut self, now: u64)
        ensures
            *final(self) == (App { last_activity: now, ..*old(self) }),
    {
        self.last_activity = now;
    }

    /// Records activity now.
    pub fn update_activity(&mut self)
        ensures
            *final(self) == (App { last_activity: final(self).last_activity, ..*old(self) }),
    {
        let now = clock_secs();
        self.touch_at(now);
    }

    /// Whether the session has been idle for the whole timeout.
    pub fn is_session_expired(&self) -> bool {
        let now = clock_secs();
        self.session_expired_at(now)
    }

    /// Closes the store after inactivity and asks for the password again.
    pub fn lock_session(&mut self)
        ensures
            final(self).db is None,
            final(self).screen == Screen::Password,
            final(self).password_input@.len() == 0,
            final(self).password_error is Some,
            final(self).engagements == old(self).engagements,
            final(self).last_activity == old(self).last_activity,
    {
        self.db = None;
        self.screen = Screen::Password;
        self.password_input = String::new();
        self.password_error = Some("Sessão expirada por inatividade".to_owned());
    }
}

/// The wall clock in seconds since the Unix epoch; a clock set before 1970
/// reads as the epoch itself.
pub(crate) fn clock_secs() -> (r: u64) {
    match crate::ids::system_clock() {
        Some((secs, _)) => secs,
        None => 0,
    }
}

/// The cursor after moving down `n` times.
pub open spec fn next_times(sel: int, len: int, n: nat) -> int
    decreases n,
{
    if n == 0 {
        sel
    } else {
        next_index(next_times(sel, len, (n - 1) as nat), len)
    }
}

/// Moving down keeps a cursor of a non-empty list on an entry.
pub proof fn lemma_next_in_range(sel: int, len: int)
    requires
        len > 0,
        sel >= 0,
    ensures
        0 <= next_index(sel, len) < len,
{
}

/// Moving up keeps a cursor that is on an entry on an entry.
pub proof fn lemma_previous_in_range(sel: int, len: int)
    requires
        0 <= sel < len,
    ensures
        0 <= previous_index(sel, len) < len,
{
}

/// Moving up undoes moving down, and moving down undoes moving up, for a
/// cursor on an entry.
pub proof fn lemma_previous_undoes_next(sel: int, len: int)
    requires
        0 <= sel < len,
    ensures
        previous_index(next_index(sel, len), len) == sel,
        next_index(previous_index(sel, len), len) == sel,
{
    lemma_next_value(sel, len);
    lemma_next_value(previous_index(sel, len), len);
}

/// Moving down from an entry goes to the next one, or to the first from the last.
pub proof fn lemma_next_value(sel: int, len: int)
    requires
        0 <= sel < len,
    ensures
        sel + 1 < len ==> next_index(sel, len) == sel + 1,
        sel + 1 == len ==> next_index(sel, len) == 0,
{
    if sel + 1 < len {
        assert((sel + 1) % len == sel + 1) by (nonlinear_arith)
            requires
                0 <= sel + 1 < len,
        ;
    } else {
        assert(len % len == 0) by (nonlinear_arith)
            requires
                len > 0,
        ;
    }
}

/// From the first entry, moving up goes to the last; from the last, moving
/// down goes to the first.
pub proof fn lemma_wraps_at_ends(len: int)
    requires
        len > 0,
    ensures
        previous_index(0, len) == len - 1,
        next_index(len - 1, len) == 0,
{
    lemma_next_value(len - 1, len);
}

/// Moving down `n` times from an entry lands `n` entries further, counted
/// round the list.
pub proof fn lemma_next_times(sel: int, len: int, n: nat)
    requires
        0 <= sel < len,
    ensures
        next_times(sel, len, n) == (sel + n) % len,
    decreases n,
{
    if n > 0 {
        lemma_next_times(sel, len, (n - 1) as nat);
        let k = sel + n - 1;
        assert(((k % len) + 1) % len == (k + 1) % len) by (nonlinear_arith)
            requires
                len > 0,
                k >= 0,
        ;
    } else {
        assert(sel % len == sel) by (nonlinear_arith)
            requires
                0 <= sel < len,
        ;
    }
}

/// Moving down as many times as the list has entries comes back to the start.
pub proof fn lemma_full_cycle(sel: int, len: int)
    requires
        0 <= sel < len,
    ensures
        next_times(sel, len, len as nat) == sel,
{
    lemma_next_times(sel, len, len as nat);
    assert((sel + len) % len == sel) by (nonlinear_arith)
        requires
            0 <= sel < len,
    ;
}

/// The session expires exactly when the time since the last activity reaches
/// the timeout of five minutes.
pub proof fn lemma_session_timeout(a: App, now: int)
    ensures
        a.expired_at(now) <==> now >= a.last_activity + 300,
        a.expired_at(a.last_activity + 300),
        !a.expired_at(a.last_activity + 299),
{
}

} // verus!
