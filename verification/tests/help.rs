use rataria::help::shortcuts_for_context;

#[test]
fn help_global_shortcuts_come_first() {
    let s = shortcuts_for_context("Nowhere");
    assert_eq!(s.len(), 3);
    assert_eq!(s[0], ("?", "Abrir esta tela de ajuda", "Global"));
}

#[test]
fn help_subdomains_context() {
    let s = shortcuts_for_context("Subdomains");
    assert_eq!(s.len(), 10);
    assert_eq!(s[6], ("S", "Ciclar status", "Subdomains"));
}

#[test]
fn help_list_contexts_add_their_extras() {
    assert_eq!(shortcuts_for_context("IPs").len(), 6);
    let urls = shortcuts_for_context("URLs");
    assert_eq!(urls.len(), 7);
    assert_eq!(urls[6].0, "Tab");
    let shots = shortcuts_for_context("Screenshots");
    assert_eq!(shots.len(), 8);
    assert_eq!(shots[7], ("O", "Abrir com visualizador", "Screenshots"));
}

#[test]
fn help_import_and_home() {
    assert_eq!(shortcuts_for_context("Import")[4], ("Enter", "Importar arquivo", "Import"));
    assert_eq!(shortcuts_for_context("Home").len(), 5);
    assert_eq!(shortcuts_for_context("Dashboard")[5].1, "Exportar relatório MD");
}
