use simulado::domain::prova::{compor_id, compor_path_id, Prova, ProvaError};
use simulado::domain::questao::{Alternativa, Questao};

fn questao(id: &str, numero: u32, correta: &str) -> Questao {
    Questao {
        id: id.to_string(),
        area_id: "linguagens".to_string(),
        numero,
        enunciado: format!("Enunciado {}", numero),
        imagens: Vec::new(),
        alternativas: vec![
            Alternativa { id: "A".to_string(), texto: "a".to_string() },
            Alternativa { id: "B".to_string(), texto: "b".to_string() },
        ],
        resposta_correta: correta.to_string(),
    }
}

fn prova_com(ids: &[&str]) -> Prova {
    let questoes: Vec<Questao> = ids
        .iter()
        .enumerate()
        .map(|(i, id)| questao(id, (i + 1) as u32, "A"))
        .collect();
    Prova {
        schema_version: "1.0".to_string(),
        content_version: "2024.1".to_string(),
        vestibular: "ENEM".to_string(),
        ano: 2022,
        dia: Some(1),
        duracao_minutos: 330,
        total_questoes: questoes.len(),
        questoes,
    }
}

#[test]
fn a_well_formed_exam_is_valid() {
    let prova = prova_com(&["Q01", "Q02", "Q03", "Q04", "Q05"]);
    assert_eq!(prova.validate_schema(), Ok(()));
}

#[test]
fn an_exam_without_questions_is_valid() {
    let prova = prova_com(&[]);
    assert_eq!(prova.validate_schema(), Ok(()));
}

#[test]
fn another_schema_version_is_refused() {
    let mut prova = prova_com(&["Q01"]);
    prova.schema_version = "2.0".to_string();
    assert_eq!(
        prova.validate_schema(),
        Err(ProvaError::UnsupportedSchema("2.0".to_string()))
    );
}

#[test]
fn the_schema_version_is_looked_at_first() {
    let mut prova = prova_com(&["Q01", "Q01"]);
    prova.schema_version = "".to_string();
    prova.total_questoes = 7;
    assert_eq!(
        prova.validate_schema(),
        Err(ProvaError::UnsupportedSchema("".to_string()))
    );
}

#[test]
fn a_count_that_differs_from_the_list_is_refused() {
    let mut prova = prova_com(&["Q01", "Q02", "Q03", "Q04"]);
    prova.total_questoes = 5;
    assert_eq!(
        prova.validate_schema(),
        Err(ProvaError::InconsistentQuestionCount { expected: 5, actual: 4 })
    );
}

#[test]
fn a_duplicate_question_id_is_refused() {
    let prova = prova_com(&["Q01", "Q02", "Q01"]);
    assert_eq!(
        prova.validate_schema(),
        Err(ProvaError::DuplicateQuestionId("Q01".to_string()))
    );
}

#[test]
fn a_malformed_question_id_is_refused() {
    assert_eq!(
        prova_com(&["Q01", "X02"]).validate_schema(),
        Err(ProvaError::InvalidQuestionId("X02".to_string()))
    );
    assert_eq!(
        prova_com(&["Q"]).validate_schema(),
        Err(ProvaError::InvalidQuestionId("Q".to_string()))
    );
    assert_eq!(
        prova_com(&[""]).validate_schema(),
        Err(ProvaError::InvalidQuestionId("".to_string()))
    );
    assert_eq!(
        prova_com(&["q1"]).validate_schema(),
        Err(ProvaError::InvalidQuestionId("q1".to_string()))
    );
}

#[test]
fn a_question_id_needs_no_digits() {
    assert_eq!(prova_com(&["Qa", "Qé"]).validate_schema(), Ok(()));
}

#[test]
fn a_number_that_is_not_the_position_is_refused() {
    let mut prova = prova_com(&["Q01", "Q02", "Q03"]);
    prova.questoes[1].numero = 5;
    assert_eq!(
        prova.validate_schema(),
        Err(ProvaError::QuestionNumberMismatch { expected: 2, actual: 5, id: "Q02".to_string() })
    );
}

#[test]
fn the_first_faulty_question_is_reported() {
    let mut prova = prova_com(&["Q01", "Q02", "Q02", "bad"]);
    prova.questoes[1].numero = 9;
    assert_eq!(
        prova.validate_schema(),
        Err(ProvaError::QuestionNumberMismatch { expected: 2, actual: 9, id: "Q02".to_string() })
    );
}

#[test]
fn a_duplicate_is_reported_before_its_number() {
    let mut prova = prova_com(&["Q01", "Q01"]);
    prova.questoes[1].numero = 9;
    assert_eq!(
        prova.validate_schema(),
        Err(ProvaError::DuplicateQuestionId("Q01".to_string()))
    );
}

#[test]
fn exam_errors_in_words() {
    assert_eq!(
        ProvaError::UnsupportedSchema("2.0".to_string()).mensagem(),
        "Versão de schema não suportada: 2.0. Use '1.0'."
    );
    assert_eq!(
        ProvaError::InconsistentQuestionCount { expected: 5, actual: 4 }.mensagem(),
        "Número de questões inconsistente: esperado 5, encontrado 4"
    );
    assert_eq!(
        ProvaError::InvalidQuestionId("X1".to_string()).mensagem(),
        "ID de questão inválido: X1. Deve estar no formato Q01, Q02, etc."
    );
    assert_eq!(
        ProvaError::DuplicateQuestionId("Q01".to_string()).mensagem(),
        "ID de questão duplicado: Q01"
    );
    assert_eq!(
        ProvaError::QuestionNumberMismatch { expected: 12, actual: 100, id: "Q12".to_string() }
            .mensagem(),
        "Número da questão Q12 inconsistente: esperado 12, encontrado 100"
    );
}

#[test]
fn exam_ids() {
    let mut prova = prova_com(&["Q01"]);
    assert_eq!(prova.id(), "enem_2022_dia1");
    assert_eq!(prova.path_id(), "enem/2022_dia1");
    assert_eq!(prova.display_id(), "ENEM 2022 (Dia 1)");
    prova.dia = None;
    prova.vestibular = "Fuvest".to_string();
    prova.ano = 1999;
    assert_eq!(prova.id(), "fuvest_1999");
    assert_eq!(prova.path_id(), "fuvest/1999");
    assert_eq!(prova.display_id(), "Fuvest 1999");
}

#[test]
fn exam_ids_lower_case_beyond_ascii() {
    let mut prova = prova_com(&[]);
    prova.vestibular = "ÉCOLE".to_string();
    prova.ano = 0;
    prova.dia = Some(255);
    assert_eq!(prova.id(), "école_0_dia255");
    assert_eq!(prova.path_id(), "école/0_dia255");
    assert_eq!(prova.display_id(), "ÉCOLE 0 (Dia 255)");
}

#[test]
fn ids_from_a_given_base() {
    assert_eq!(compor_id("unicamp", 65535, None), "unicamp_65535");
    assert_eq!(compor_id("", 7, Some(0)), "_7_dia0");
    assert_eq!(compor_path_id("unicamp", 2020, Some(2)), "unicamp/2020_dia2");
    assert_eq!(compor_path_id("UNICAMP", 2020, None), "UNICAMP/2020");
}

#[test]
fn an_exam_knows_its_questions() {
    let prova = prova_com(&["Q01", "Q02", "Q03"]);
    assert!(prova.tem_questao("Q01"));
    assert!(prova.tem_questao("Q03"));
    assert!(!prova.tem_questao("Q04"));
    assert!(!prova.tem_questao("Q1"));
    assert!(!prova.tem_questao("q01"));
    assert!(!prova.tem_questao(""));
    assert!(!prova_com(&[]).tem_questao("Q01"));
}
