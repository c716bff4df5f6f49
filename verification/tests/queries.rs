use rataria::db::Database;
use rataria::models::{
    Engagement, NewEngagement, NewSubdomain, NewTag, NewTarget, NewTechnology, Subdomain,
    SubdomainStatus, Target, UpdateSubdomain,
};
use rataria::queries::{
    create_engagement, create_subdomain, create_tag, create_target, create_technology,
    delete_engagement, delete_subdomain, delete_tag, delete_tag_by_name, delete_target,
    delete_technology, get_engagement, get_subdomain, get_target, list_engagements,
    list_subdomains, list_subdomains_by_status, list_tags, list_targets, list_technologies,
    update_engagement, update_subdomain,
};

fn setup() -> Database {
    Database::open_in_memory().expect("falhou ao abrir banco em memória")
}

#[test]
fn test_create_engagement() {
    let mut db = setup();
    let new = NewEngagement {
        name: "Empresa XPTO".to_string(),
        description: Some("Bug bounty Q1".to_string()),
    };

    let engagement = create_engagement(&mut db, new).unwrap();

    assert!(!engagement.id.is_empty());
    assert_eq!(engagement.name, "Empresa XPTO");
    assert_eq!(engagement.description, Some("Bug bounty Q1".to_string()));
}

#[test]
fn test_create_engagement_sem_descricao() {
    let mut db = setup();
    let new = NewEngagement {
        name: "Alvo Simples".to_string(),
        description: None,
    };

    let engagement = create_engagement(&mut db, new).unwrap();
    assert_eq!(engagement.description, None);
}

#[test]
fn test_list_engagements_vazio() {
    let mut db = setup();
    let lista = list_engagements(&db).unwrap();
    assert!(lista.is_empty());
}

#[test]
fn test_list_engagements() {
    let mut db = setup();

    create_engagement(&mut db,
        NewEngagement {
            name: "Empresa A".to_string(),
            description: None,
        },
    )
    .unwrap();

    create_engagement(&mut db,
        NewEngagement {
            name: "Empresa B".to_string(),
            description: None,
        },
    )
    .unwrap();

    let lista = list_engagements(&db).unwrap();
    assert_eq!(lista.len(), 2);
}

#[test]
fn test_get_engagement_existente() {
    let mut db = setup();
    let criado = create_engagement(&mut db,
        NewEngagement {
            name: "Alvo X".to_string(),
            description: None,
        },
    )
    .unwrap();

    let encontrado = get_engagement(&db, &criado.id).unwrap();
    assert!(encontrado.is_some());
    assert_eq!(encontrado.unwrap().name, "Alvo X");
}

#[test]
fn test_get_engagement_inexistente() {
    let mut db = setup();
    let resultado = get_engagement(&db, "id-que-nao-existe").unwrap();
    assert!(resultado.is_none());
}

#[test]
fn test_update_engagement() {
    let mut db = setup();
    let criado = create_engagement(&mut db,
        NewEngagement {
            name: "Nome Antigo".to_string(),
            description: None,
        },
    )
    .unwrap();

    let atualizado =
        update_engagement(&mut db, &criado.id, "Nome Novo", Some("Descrição nova")).unwrap();

    assert_eq!(atualizado.name, "Nome Novo");
    assert_eq!(atualizado.description, Some("Descrição nova".to_string()));
}

#[test]
fn test_delete_engagement() {
    let mut db = setup();
    let criado = create_engagement(&mut db,
        NewEngagement {
            name: "Para Deletar".to_string(),
            description: None,
        },
    )
    .unwrap();

    delete_engagement(&mut db, &criado.id).unwrap();

    let resultado = get_engagement(&db, &criado.id).unwrap();
    assert!(resultado.is_none());
}

#[test]
fn test_nome_duplicado_falha() {
    let mut db = setup();

    create_engagement(&mut db,
        NewEngagement {
            name: "Nome Único".to_string(),
            description: None,
        },
    )
    .unwrap();

    let resultado = create_engagement(&mut db,
        NewEngagement {
            name: "Nome Único".to_string(),
            description: None,
        },
    );

    assert!(resultado.is_err());
}

// ─── Testes de Target ─────────────────────────────────────────────────────

fn create_test_engagement(db: &mut Database) -> Engagement {
    create_engagement(db,
        NewEngagement {
            name: "Engagement Teste".to_string(),
            description: None,
        },
    )
    .unwrap()
}

#[test]
fn test_create_target() {
    let mut db = setup();
    let eng = create_test_engagement(&mut db);

    let target = create_target(&mut db,
        NewTarget {
            engagement_id: eng.id.clone(),
            domain: "empresa.com".to_string(),
        },
    )
    .unwrap();

    assert!(!target.id.is_empty());
    assert_eq!(target.domain, "empresa.com");
    assert_eq!(target.engagement_id, eng.id);
}

#[test]
fn test_list_targets_vazio() {
    let mut db = setup();
    let eng = create_test_engagement(&mut db);

    let lista = list_targets(&db, &eng.id).unwrap();
    assert!(lista.is_empty());
}

#[test]
fn test_list_targets() {
    let mut db = setup();
    let eng = create_test_engagement(&mut db);

    create_target(&mut db,
        NewTarget {
            engagement_id: eng.id.clone(),
            domain: "empresa.com".to_string(),
        },
    )
    .unwrap();

    create_target(&mut db,
        NewTarget {
            engagement_id: eng.id.clone(),
            domain: "subsidiaria.com".to_string(),
        },
    )
    .unwrap();

    let lista = list_targets(&db, &eng.id).unwrap();
    assert_eq!(lista.len(), 2);
}

#[test]
fn test_list_targets_isolado_por_engagement() {
    let mut db = setup();

    // Dois engagements distintos
    let eng1 = create_engagement(&mut db,
        NewEngagement {
            name: "Eng 1".to_string(),
            description: None,
        },
    )
    .unwrap();

    let eng2 = create_engagement(&mut db,
        NewEngagement {
            name: "Eng 2".to_string(),
            description: None,
        },
    )
    .unwrap();

    create_target(&mut db,
        NewTarget {
            engagement_id: eng1.id.clone(),
            domain: "alvo-do-eng1.com".to_string(),
        },
    )
    .unwrap();

    create_target(&mut db,
        NewTarget {
            engagement_id: eng2.id.clone(),
            domain: "alvo-do-eng2.com".to_string(),
        },
    )
    .unwrap();

    // Cada engagement deve ver apenas seus próprios targets
    let targets_eng1 = list_targets(&db, &eng1.id).unwrap();
    let targets_eng2 = list_targets(&db, &eng2.id).unwrap();

    assert_eq!(targets_eng1.len(), 1);
    assert_eq!(targets_eng2.len(), 1);
    assert_eq!(targets_eng1[0].domain, "alvo-do-eng1.com");
    assert_eq!(targets_eng2[0].domain, "alvo-do-eng2.com");
}

#[test]
fn test_get_target_existente() {
    let mut db = setup();
    let eng = create_test_engagement(&mut db);

    let criado = create_target(&mut db,
        NewTarget {
            engagement_id: eng.id.clone(),
            domain: "alvo.com".to_string(),
        },
    )
    .unwrap();

    let encontrado = get_target(&db, &criado.id).unwrap();
    assert!(encontrado.is_some());
    assert_eq!(encontrado.unwrap().domain, "alvo.com");
}

#[test]
fn test_get_target_inexistente() {
    let mut db = setup();
    let resultado = get_target(&db, "id-inexistente").unwrap();
    assert!(resultado.is_none());
}

#[test]
fn test_delete_target() {
    let mut db = setup();
    let eng = create_test_engagement(&mut db);

    let criado = create_target(&mut db,
        NewTarget {
            engagement_id: eng.id.clone(),
            domain: "deletar.com".to_string(),
        },
    )
    .unwrap();

    delete_target(&mut db, &criado.id).unwrap();

    let resultado = get_target(&db, &criado.id).unwrap();
    assert!(resultado.is_none());
}

#[test]
fn test_delete_engagement_cascata_targets() {
    let mut db = setup();
    let eng = create_test_engagement(&mut db);

    create_target(&mut db,
        NewTarget {
            engagement_id: eng.id.clone(),
            domain: "alvo1.com".to_string(),
        },
    )
    .unwrap();

    create_target(&mut db,
        NewTarget {
            engagement_id: eng.id.clone(),
            domain: "alvo2.com".to_string(),
        },
    )
    .unwrap();

    // Deletar o engagement deve deletar os targets por CASCADE
    delete_engagement(&mut db, &eng.id).unwrap();

    let lista = list_targets(&db, &eng.id).unwrap();
    assert!(lista.is_empty());
}

// ─── Helpers para subdomains ──────────────────────────────────────────────

fn create_test_target(db: &mut Database, eng_id: &str) -> Target {
    create_target(db,
        NewTarget {
            engagement_id: eng_id.to_string(),
            domain: "empresa.com".to_string(),
        },
    )
    .unwrap()
}

// ─── Testes de Subdomain ──────────────────────────────────────────────────

#[test]
fn test_create_subdomain() {
    let mut db = setup();
    let eng = create_test_engagement(&mut db);
    let target = create_test_target(&mut db, &eng.id);

    let sub = create_subdomain(&mut db,
        NewSubdomain {
            target_id: target.id.clone(),
            subdomain: "api.empresa.com".to_string(),
            status_code: Some(200),
            title: Some("API Principal".to_string()),
        },
    )
    .unwrap();

    assert!(!sub.id.is_empty());
    assert_eq!(sub.subdomain, "api.empresa.com");
    assert_eq!(sub.status, SubdomainStatus::NotVisited);
    assert_eq!(sub.status_code, Some(200));
    assert_eq!(sub.title, Some("API Principal".to_string()));
    assert_eq!(sub.notes, None);
}

#[test]
fn test_create_subdomain_minimo() {
    let mut db = setup();
    let eng = create_test_engagement(&mut db);
    let target = create_test_target(&mut db, &eng.id);

    let sub = create_subdomain(&mut db,
        NewSubdomain {
            target_id: target.id.clone(),
            subdomain: "mail.empresa.com".to_string(),
            status_code: None,
            title: None,
        },
    )
    .unwrap();

    assert_eq!(sub.status_code, None);
    assert_eq!(sub.title, None);
    assert_eq!(sub.status, SubdomainStatus::NotVisited);
}

#[test]
fn test_subdomain_duplicado_falha() {
    let mut db = setup();
    let eng = create_test_engagement(&mut db);
    let target = create_test_target(&mut db, &eng.id);

    create_subdomain(&mut db,
        NewSubdomain {
            target_id: target.id.clone(),
            subdomain: "api.empresa.com".to_string(),
            status_code: None,
            title: None,
        },
    )
    .unwrap();

    let resultado = create_subdomain(&mut db,
        NewSubdomain {
            target_id: target.id.clone(),
            subdomain: "api.empresa.com".to_string(),
            status_code: None,
            title: None,
        },
    );

    assert!(resultado.is_err());
}

#[test]
fn test_list_subdomains_vazio() {
    let mut db = setup();
    let eng = create_test_engagement(&mut db);
    let target = create_test_target(&mut db, &eng.id);

    let lista = list_subdomains(&db, &target.id).unwrap();
    assert!(lista.is_empty());
}

#[test]
fn test_list_subdomains() {
    let mut db = setup();
    let eng = create_test_engagement(&mut db);
    let target = create_test_target(&mut db, &eng.id);

    create_subdomain(&mut db,
        NewSubdomain {
            target_id: target.id.clone(),
            subdomain: "api.empresa.com".to_string(),
            status_code: Some(200),
            title: None,
        },
    )
    .unwrap();

    create_subdomain(&mut db,
        NewSubdomain {
            target_id: target.id.clone(),
            subdomain: "admin.empresa.com".to_string(),
            status_code: Some(403),
            title: None,
        },
    )
    .unwrap();

    let lista = list_subdomains(&db, &target.id).unwrap();
    assert_eq!(lista.len(), 2);
}

#[test]
fn test_list_subdomains_isolado_por_target() {
    let mut db = setup();
    let eng = create_test_engagement(&mut db);

    let target1 = create_target(&mut db,
        NewTarget {
            engagement_id: eng.id.clone(),
            domain: "empresa1.com".to_string(),
        },
    )
    .unwrap();

    let target2 = create_target(&mut db,
        NewTarget {
            engagement_id: eng.id.clone(),
            domain: "empresa2.com".to_string(),
        },
    )
    .unwrap();

    create_subdomain(&mut db,
        NewSubdomain {
            target_id: target1.id.clone(),
            subdomain: "api.empresa1.com".to_string(),
            status_code: None,
            title: None,
        },
    )
    .unwrap();

    create_subdomain(&mut db,
        NewSubdomain {
            target_id: target2.id.clone(),
            subdomain: "api.empresa2.com".to_string(),
            status_code: None,
            title: None,
        },
    )
    .unwrap();

    let subs1 = list_subdomains(&db, &target1.id).unwrap();
    let subs2 = list_subdomains(&db, &target2.id).unwrap();

    assert_eq!(subs1.len(), 1);
    assert_eq!(subs2.len(), 1);
    assert_eq!(subs1[0].subdomain, "api.empresa1.com");
    assert_eq!(subs2[0].subdomain, "api.empresa2.com");
}

#[test]
fn test_get_subdomain_existente() {
    let mut db = setup();
    let eng = create_test_engagement(&mut db);
    let target = create_test_target(&mut db, &eng.id);

    let criado = create_subdomain(&mut db,
        NewSubdomain {
            target_id: target.id.clone(),
            subdomain: "dev.empresa.com".to_string(),
            status_code: Some(200),
            title: Some("Dev".to_string()),
        },
    )
    .unwrap();

    let encontrado = get_subdomain(&db, &criado.id).unwrap();
    assert!(encontrado.is_some());
    assert_eq!(encontrado.unwrap().subdomain, "dev.empresa.com");
}

#[test]
fn test_get_subdomain_inexistente() {
    let mut db = setup();
    let resultado = get_subdomain(&db, "id-inexistente").unwrap();
    assert!(resultado.is_none());
}

#[test]
fn test_update_subdomain_status_e_notes() {
    let mut db = setup();
    let eng = create_test_engagement(&mut db);
    let target = create_test_target(&mut db, &eng.id);

    let criado = create_subdomain(&mut db,
        NewSubdomain {
            target_id: target.id.clone(),
            subdomain: "login.empresa.com".to_string(),
            status_code: Some(200),
            title: None,
        },
    )
    .unwrap();

    let atualizado = update_subdomain(&mut db,
        &criado.id,
        UpdateSubdomain {
            status: Some(SubdomainStatus::Vulnerable),
            notes: Some("Tela de login com SQLi".to_string()),
            status_code: None,
            title: None,
            subdomain: None,
        },
    )
    .unwrap();

    assert_eq!(atualizado.status, SubdomainStatus::Vulnerable);
    assert_eq!(atualizado.notes, Some("Tela de login com SQLi".to_string()));
    // status_code não mudou
    assert_eq!(atualizado.status_code, Some(200));
}

#[test]
fn test_delete_subdomain() {
    let mut db = setup();
    let eng = create_test_engagement(&mut db);
    let target = create_test_target(&mut db, &eng.id);

    let criado = create_subdomain(&mut db,
        NewSubdomain {
            target_id: target.id.clone(),
            subdomain: "old.empresa.com".to_string(),
            status_code: None,
            title: None,
        },
    )
    .unwrap();

    delete_subdomain(&mut db, &criado.id).unwrap();

    let resultado = get_subdomain(&db, &criado.id).unwrap();
    assert!(resultado.is_none());
}

#[test]
fn test_list_subdomains_por_status() {
    let mut db = setup();
    let eng = create_test_engagement(&mut db);
    let target = create_test_target(&mut db, &eng.id);

    let sub1 = create_subdomain(&mut db,
        NewSubdomain {
            target_id: target.id.clone(),
            subdomain: "api.empresa.com".to_string(),
            status_code: None,
            title: None,
        },
    )
    .unwrap();

    create_subdomain(&mut db,
        NewSubdomain {
            target_id: target.id.clone(),
            subdomain: "admin.empresa.com".to_string(),
            status_code: None,
            title: None,
        },
    )
    .unwrap();

    // Marca apenas o primeiro como vulnerável
    update_subdomain(&mut db,
        &sub1.id,
        UpdateSubdomain {
            status: Some(SubdomainStatus::Vulnerable),
            notes: None,
            status_code: None,
            title: None,
            subdomain: None,
        },
    )
    .unwrap();

    let vulneraveis =
        list_subdomains_by_status(&db, &target.id, SubdomainStatus::Vulnerable).unwrap();

    assert_eq!(vulneraveis.len(), 1);
    assert_eq!(vulneraveis[0].subdomain, "api.empresa.com");
}

#[test]
fn test_delete_target_cascata_subdomains() {
    let mut db = setup();
    let eng = create_test_engagement(&mut db);
    let target = create_test_target(&mut db, &eng.id);

    create_subdomain(&mut db,
        NewSubdomain {
            target_id: target.id.clone(),
            subdomain: "api.empresa.com".to_string(),
            status_code: None,
            title: None,
        },
    )
    .unwrap();

    delete_target(&mut db, &target.id).unwrap();

    let lista = list_subdomains(&db, &target.id).unwrap();
    assert!(lista.is_empty());
}

// ─── Helper para subdomain ────────────────────────────────────────────────

fn create_test_subdomain(db: &mut Database, target_id: &str, subdomain: &str) -> Subdomain {
    create_subdomain(db,
        NewSubdomain {
            target_id: target_id.to_string(),
            subdomain: subdomain.to_string(),
            status_code: None,
            title: None,
        },
    )
    .unwrap()
}

// ─── Testes de Tag ────────────────────────────────────────────────────────

#[test]
fn test_create_tag() {
    let mut db = setup();
    let eng = create_test_engagement(&mut db);
    let target = create_test_target(&mut db, &eng.id);
    let sub = create_test_subdomain(&mut db, &target.id, "api.empresa.com");

    let tag = create_tag(&mut db,
        NewTag {
            subdomain_id: sub.id.clone(),
            name: "login-page".to_string(),
        },
    )
    .unwrap();

    assert!(!tag.id.is_empty());
    assert_eq!(tag.name, "login-page");
    assert_eq!(tag.subdomain_id, sub.id);
}

#[test]
fn test_tag_duplicada_falha() {
    let mut db = setup();
    let eng = create_test_engagement(&mut db);
    let target = create_test_target(&mut db, &eng.id);
    let sub = create_test_subdomain(&mut db, &target.id, "api.empresa.com");

    create_tag(&mut db,
        NewTag {
            subdomain_id: sub.id.clone(),
            name: "api-endpoint".to_string(),
        },
    )
    .unwrap();

    let resultado = create_tag(&mut db,
        NewTag {
            subdomain_id: sub.id.clone(),
            name: "api-endpoint".to_string(),
        },
    );

    assert!(resultado.is_err());
}

#[test]
fn test_mesma_tag_em_subdomains_diferentes() {
    let mut db = setup();
    let eng = create_test_engagement(&mut db);
    let target = create_test_target(&mut db, &eng.id);
    let sub1 = create_test_subdomain(&mut db, &target.id, "api.empresa.com");
    let sub2 = create_test_subdomain(&mut db, &target.id, "admin.empresa.com");

    // A mesma tag pode existir em subdomains diferentes
    create_tag(&mut db,
        NewTag {
            subdomain_id: sub1.id.clone(),
            name: "login-page".to_string(),
        },
    )
    .unwrap();

    let resultado = create_tag(&mut db,
        NewTag {
            subdomain_id: sub2.id.clone(),
            name: "login-page".to_string(),
        },
    );

    assert!(resultado.is_ok());
}

#[test]
fn test_list_tags_vazio() {
    let mut db = setup();
    let eng = create_test_engagement(&mut db);
    let target = create_test_target(&mut db, &eng.id);
    let sub = create_test_subdomain(&mut db, &target.id, "api.empresa.com");

    let lista = list_tags(&db, &sub.id).unwrap();
    assert!(lista.is_empty());
}

#[test]
fn test_list_tags() {
    let mut db = setup();
    let eng = create_test_engagement(&mut db);
    let target = create_test_target(&mut db, &eng.id);
    let sub = create_test_subdomain(&mut db, &target.id, "api.empresa.com");

    create_tag(&mut db,
        NewTag {
            subdomain_id: sub.id.clone(),
            name: "login-page".to_string(),
        },
    )
    .unwrap();

    create_tag(&mut db,
        NewTag {
            subdomain_id: sub.id.clone(),
            name: "interesting".to_string(),
        },
    )
    .unwrap();

    let lista = list_tags(&db, &sub.id).unwrap();
    assert_eq!(lista.len(), 2);
}

#[test]
fn test_delete_tag_por_id() {
    let mut db = setup();
    let eng = create_test_engagement(&mut db);
    let target = create_test_target(&mut db, &eng.id);
    let sub = create_test_subdomain(&mut db, &target.id, "api.empresa.com");

    let tag = create_tag(&mut db,
        NewTag {
            subdomain_id: sub.id.clone(),
            name: "outdated".to_string(),
        },
    )
    .unwrap();

    delete_tag(&mut db, &tag.id).unwrap();

    let lista = list_tags(&db, &sub.id).unwrap();
    assert!(lista.is_empty());
}

#[test]
fn test_delete_tag_por_nome() {
    let mut db = setup();
    let eng = create_test_engagement(&mut db);
    let target = create_test_target(&mut db, &eng.id);
    let sub = create_test_subdomain(&mut db, &target.id, "api.empresa.com");

    create_tag(&mut db,
        NewTag {
            subdomain_id: sub.id.clone(),
            name: "false-positive".to_string(),
        },
    )
    .unwrap();

    delete_tag_by_name(&mut db, &sub.id, "false-positive").unwrap();

    let lista = list_tags(&db, &sub.id).unwrap();
    assert!(lista.is_empty());
}

#[test]
fn test_delete_subdomain_cascata_tags() {
    let mut db = setup();
    let eng = create_test_engagement(&mut db);
    let target = create_test_target(&mut db, &eng.id);
    let sub = create_test_subdomain(&mut db, &target.id, "api.empresa.com");

    create_tag(&mut db,
        NewTag {
            subdomain_id: sub.id.clone(),
            name: "api-endpoint".to_string(),
        },
    )
    .unwrap();

    delete_subdomain(&mut db, &sub.id).unwrap();

    // Tags devem ter sido deletadas por CASCADE
    let lista = list_tags(&db, &sub.id).unwrap();
    assert!(lista.is_empty());
}

// ─── Testes de Technology ─────────────────────────────────────────────────

#[test]
fn test_create_technology() {
    let mut db = setup();
    let eng = create_test_engagement(&mut db);
    let target = create_test_target(&mut db, &eng.id);
    let sub = create_test_subdomain(&mut db, &target.id, "app.empresa.com");

    let tech = create_technology(&mut db,
        NewTechnology {
            subdomain_id: sub.id.clone(),
            name: "WordPress".to_string(),
            version: Some("6.4".to_string()),
        },
    )
    .unwrap();

    assert!(!tech.id.is_empty());
    assert_eq!(tech.name, "WordPress");
    assert_eq!(tech.version, Some("6.4".to_string()));
    assert_eq!(tech.subdomain_id, sub.id);
}

#[test]
fn test_create_technology_sem_versao() {
    let mut db = setup();
    let eng = create_test_engagement(&mut db);
    let target = create_test_target(&mut db, &eng.id);
    let sub = create_test_subdomain(&mut db, &target.id, "app.empresa.com");

    let tech = create_technology(&mut db,
        NewTechnology {
            subdomain_id: sub.id.clone(),
            name: "React".to_string(),
            version: None,
        },
    )
    .unwrap();

    assert_eq!(tech.version, None);
}

#[test]
fn test_list_technologies_vazio() {
    let mut db = setup();
    let eng = create_test_engagement(&mut db);
    let target = create_test_target(&mut db, &eng.id);
    let sub = create_test_subdomain(&mut db, &target.id, "app.empresa.com");

    let lista = list_technologies(&db, &sub.id).unwrap();
    assert!(lista.is_empty());
}

#[test]
fn test_list_technologies() {
    let mut db = setup();
    let eng = create_test_engagement(&mut db);
    let target = create_test_target(&mut db, &eng.id);
    let sub = create_test_subdomain(&mut db, &target.id, "app.empresa.com");

    create_technology(&mut db,
        NewTechnology {
            subdomain_id: sub.id.clone(),
            name: "WordPress".to_string(),
            version: Some("6.4".to_string()),
        },
    )
    .unwrap();

    create_technology(&mut db,
        NewTechnology {
            subdomain_id: sub.id.clone(),
            name: "jQuery".to_string(),
            version: Some("3.6".to_string()),
        },
    )
    .unwrap();

    let lista = list_technologies(&db, &sub.id).unwrap();
    assert_eq!(lista.len(), 2);
}

#[test]
fn test_delete_technology() {
    let mut db = setup();
    let eng = create_test_engagement(&mut db);
    let target = create_test_target(&mut db, &eng.id);
    let sub = create_test_subdomain(&mut db, &target.id, "app.empresa.com");

    let tech = create_technology(&mut db,
        NewTechnology {
            subdomain_id: sub.id.clone(),
            name: "Apache".to_string(),
            version: None,
        },
    )
    .unwrap();

    delete_technology(&mut db, &tech.id).unwrap();

    let lista = list_technologies(&db, &sub.id).unwrap();
    assert!(lista.is_empty());
}

#[test]
fn test_delete_subdomain_cascata_technologies() {
    let mut db = setup();
    let eng = create_test_engagement(&mut db);
    let target = create_test_target(&mut db, &eng.id);
    let sub = create_test_subdomain(&mut db, &target.id, "app.empresa.com");

    create_technology(&mut db,
        NewTechnology {
            subdomain_id: sub.id.clone(),
            name: "Nginx".to_string(),
            version: Some("1.24".to_string()),
        },
    )
    .unwrap();

    delete_subdomain(&mut db, &sub.id).unwrap();

    let lista = list_technologies(&db, &sub.id).unwrap();
    assert!(lista.is_empty());
}
