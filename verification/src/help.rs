//! The keyboard shortcuts shown on the help screen, per context.

use vstd::prelude::*;
use crate::text::same_text;
use crate::app::{App, Screen};

verus! {

/// A shortcut as text: key, action, context.
pub type Shortcut = (&'static str, &'static str, &'static str);

/// The texts of a shortcut.
pub open spec fn shortcut_view(t: Shortcut) -> (Seq<char>, Seq<char>, Seq<char>) {
    (t.0@, t.1@, t.2@)
}

/// The shortcuts that hold on every screen.
pub open spec fn global_shortcuts() -> Seq<(Seq<char>, Seq<char>, Seq<char>)> {
    seq![
        ("?"@, "Abrir esta tela de ajuda"@, "Global"@),
        ("Esc"@, "Voltar / Cancelar"@, "Global"@),
        ("q"@, "Sair (no Home)"@, "Global"@),
    ]
}

/// The shortcuts of a list screen (IPs, ASNs, URLs, technologies, screenshots).
pub open spec fn list_shortcuts(ctx: Seq<char>) -> Seq<(Seq<char>, Seq<char>, Seq<char>)> {
    seq![
        ("↑ ↓ / j k"@, "Navegar lista"@, "Lista"@),
        ("N"@, "Novo item"@, "Lista"@),
        ("D"@, "Deletar item"@, "Lista"@),
    ] + (if ctx == "URLs"@ {
        seq![("Tab"@, "Ciclar tipo de URL"@, "URLs"@)]
    } else {
        Seq::empty()
    }) + (if ctx == "Screenshots"@ {
        seq![
            ("Enter"@, "Preview da imagem"@, "Screenshots"@),
            ("O"@, "Abrir com visualizador"@, "Screenshots"@),
        ]
    } else {
        Seq::empty()
    })
}

/// The shortcuts proper to a context, after the global ones.
pub open spec fn context_shortcuts(ctx: Seq<char>) -> Seq<(Seq<char>, Seq<char>, Seq<char>)> {
    if ctx == "Home"@ {
        seq![("↑ ↓ / j k"@, "Navegar menu"@, "Home"@), ("Enter"@, "Selecionar opção"@, "Home"@)]
    } else if ctx == "Engagements"@ {
        seq![
            ("↑ ↓ / j k"@, "Navegar lista"@, "Engagements"@),
            ("Enter"@, "Abrir engagement"@, "Engagements"@),
            ("D"@, "Deletar engagement"@, "Engagements"@),
        ]
    } else if ctx == "Dashboard"@ {
        seq![
            ("↑ ↓ / j k"@, "Navegar seções"@, "Dashboard"@),
            ("Enter"@, "Abrir seção"@, "Dashboard"@),
            ("E"@, "Exportar relatório MD"@, "Dashboard"@),
        ]
    } else if ctx == "Targets"@ {
        seq![
            ("↑ ↓ / j k"@, "Navegar lista"@, "Targets"@),
            ("Enter"@, "Abrir target"@, "Targets"@),
            ("N"@, "Novo target"@, "Targets"@),
            ("D"@, "Deletar target"@, "Targets"@),
        ]
    } else if ctx == "Subdomains"@ {
        seq![
            ("↑ ↓ / j k"@, "Navegar lista"@, "Subdomains"@),
            ("Enter"@, "Abrir subdomain"@, "Subdomains"@),
            ("N"@, "Novo subdomain"@, "Subdomains"@),
            ("S"@, "Ciclar status"@, "Subdomains"@),
            ("O"@, "Editar notas"@, "Subdomains"@),
            ("F"@, "Ciclar filtro de status"@, "Subdomains"@),
            ("D"@, "Deletar subdomain"@, "Subdomains"@),
        ]
    } else if ctx == "IPs"@ || ctx == "ASNs"@ || ctx == "URLs"@ || ctx == "Technologies"@ || ctx
        == "Screenshots"@ {
        list_shortcuts(ctx)
    } else if ctx == "Import"@ {
        seq![("Tab"@, "Alternar campo"@, "Import"@), ("Enter"@, "Importar arquivo"@, "Import"@)]
    } else {
        Seq::empty()
    }
}

/// All the shortcuts listed for a context: the global ones, then its own.
pub open spec fn shortcuts_spec(ctx: Seq<char>) -> Seq<(Seq<char>, Seq<char>, Seq<char>)> {
    global_shortcuts() + context_shortcuts(ctx)
}

/// The shortcuts to list on the help screen for `context`.
pub fn shortcuts_for_context(context: &str) -> (r: Vec<Shortcut>)
    ensures
        r@.map_values(|t: Shortcut| shortcut_view(t)) == shortcuts_spec(context@),
{
    let mut v: Vec<Shortcut> = Vec::new();
    v.push(("?", "Abrir esta tela de ajuda", "Global"));
    v.push(("Esc", "Voltar / Cancelar", "Global"));
    v.push(("q", "Sair (no Home)", "Global"));
    if same_text(context, "Home") {
        v.push(("↑ ↓ / j k", "Navegar menu", "Home"));
        v.push(("Enter", "Selecionar opção", "Home"));
    } else if same_text(context, "Engagements") {
        v.push(("↑ ↓ / j k", "Navegar lista", "Engagements"));
        v.push(("Enter", "Abrir engagement", "Engagements"));
        v.push(("D", "Deletar engagement", "Engagements"));
    } else if same_text(context, "Dashboard") {
        v.push(("↑ ↓ / j k", "Navegar seções", "Dashboard"));
        v.push(("Enter", "Abrir seção", "Dashboard"));
        v.push(("E", "Exportar relatório MD", "Dashboard"));
    } else if same_text(context, "Targets") {
        v.push(("↑ ↓ / j k", "Navegar lista", "Targets"));
        v.push(("Enter", "Abrir target", "Targets"));
        v.push(("N", "Novo target", "Targets"));
        v.push(("D", "Deletar target", "Targets"));
    } else if same_text(context, "Subdomains") {
        v.push(("↑ ↓ / j k", "Navegar lista", "Subdomains"));
        v.push(("Enter", "Abrir subdomain", "Subdomains"));
        v.push(("N", "Novo subdomain", "Subdomains"));
        v.push(("S", "Ciclar status", "Subdomains"));
        v.push(("O", "Editar notas", "Subdomains"));
        v.push(("F", "Ciclar filtro de status", "Subdomains"));
        v.push(("D", "Deletar subdomain", "Subdomains"));
    } else if same_text(context, "IPs") || same_text(context, "ASNs") || same_text(context, "URLs")
        || same_text(context, "Technologies") || same_text(context, "Screenshots") {
        v.push(("↑ ↓ / j k", "Navegar lista", "Lista"));
        v.push(("N", "Novo item", "Lista"));
        v.push(("D", "Deletar item", "Lista"));
        if same_text(context, "URLs") {
            v.push(("Tab", "Ciclar tipo de URL", "URLs"));
        }
        if same_text(context, "Screenshots") {
            v.push(("Enter", "Preview da imagem", "Screenshots"));
            v.push(("O", "Abrir com visualizador", "Screenshots"));
        }
    } else if same_text(context, "Import") {
        v.push(("Tab", "Alternar campo", "Import"));
        v.push(("Enter", "Importar arquivo", "Import"));
    }
    assert(v@.map_values(|t: Shortcut| shortcut_view(t)) =~= shortcuts_spec(context@));
    v
}

/// The name of the help context of screen `s`.
pub open spec fn screen_context(s: Screen) -> Seq<char> {
    match s {
        Screen::Home => "Home"@,
        Screen::ListEngagements => "Engagements"@,
        Screen::CreateEngagement => "Criar Engagement"@,
        Screen::Dashboard => "Dashboard"@,
        Screen::Targets => "Targets"@,
        Screen::TargetMenu => "Menu Target"@,
        Screen::Subdomains => "Subdomains"@,
        Screen::SubdomainMenu => "Menu Subdomain"@,
        Screen::IPs => "IPs"@,
        Screen::ASNs => "ASNs"@,
        Screen::URLs => "URLs"@,
        Screen::Technologies => "Technologies"@,
        Screen::Screenshots => "Screenshots"@,
        Screen::Import => "Import"@,
        Screen::Password | Screen::Help => "Home"@,
    }
}

/// The context the help screen shows shortcuts for: that of the screen it
/// was opened from, `Home` when there is none.
pub fn context_name(app: &App) -> (r: &'static str)
    ensures
        r@ == match app.help_previous_screen {
            Some(s) => screen_context(s),
            None => "Home"@,
        },
{
    let s = match app.help_previous_screen {
        Some(s) => s,
        None => Screen::Home,
    };
    match s {
        Screen::Home => "Home",
        Screen::ListEngagements => "Engagements",
        Screen::CreateEngagement => "Criar Engagement",
        Screen::Dashboard => "Dashboard",
        Screen::Targets => "Targets",
        Screen::TargetMenu => "Menu Target",
        Screen::Subdomains => "Subdomains",
        Screen::SubdomainMenu => "Menu Subdomain",
        Screen::IPs => "IPs",
        Screen::ASNs => "ASNs",
        Screen::URLs => "URLs",
        Screen::Technologies => "Technologies",
        Screen::Screenshots => "Screenshots",
        Screen::Import => "Import",
        Screen::Password | Screen::Help => "Home",
    }
}

} // verus!
