use simulado::domain::estado::ProgressoSimulado;
use simulado::texto::{analisar_numero, decimal, decimal_preenchido};

fn progresso(atual: &str, respondidas: usize, total: usize) -> ProgressoSimulado {
    ProgressoSimulado { questao_atual: atual.to_string(), respondidas, total }
}

#[test]
fn decimal_writing() {
    assert_eq!(decimal(0), "0");
    assert_eq!(decimal(7), "7");
    assert_eq!(decimal(10), "10");
    assert_eq!(decimal(1_234_567_890), "1234567890");
    assert_eq!(decimal(u64::MAX as u128), "18446744073709551615");
    assert_eq!(decimal(u64::MAX as u128 + 1), "18446744073709551616");
    assert_eq!(decimal(u128::MAX), "340282366920938463463374607431768211455");
}

#[test]
fn decimal_writing_with_zeros_in_front() {
    assert_eq!(decimal_preenchido(0, 0), "0");
    assert_eq!(decimal_preenchido(5, 1), "5");
    assert_eq!(decimal_preenchido(5, 2), "05");
    assert_eq!(decimal_preenchido(5, 4), "0005");
    assert_eq!(decimal_preenchido(42, 2), "42");
    assert_eq!(decimal_preenchido(100, 2), "100");
    assert_eq!(decimal_preenchido(0, 3), "000");
}

#[test]
fn reading_numbers() {
    assert_eq!(analisar_numero("0", 0), Some(0));
    assert_eq!(analisar_numero("007", 0), Some(7));
    assert_eq!(analisar_numero("12345", 0), Some(12345));
    assert_eq!(analisar_numero("Q12", 1), Some(12));
    assert_eq!(analisar_numero("+5", 0), Some(5));
    assert_eq!(analisar_numero("x+5", 1), Some(5));
    assert_eq!(analisar_numero("éé42", 2), Some(42));
}

#[test]
fn reading_what_is_no_number() {
    assert_eq!(analisar_numero("", 0), None);
    assert_eq!(analisar_numero("Q", 1), None);
    assert_eq!(analisar_numero("+", 0), None);
    assert_eq!(analisar_numero("-5", 0), None);
    assert_eq!(analisar_numero("++5", 0), None);
    assert_eq!(analisar_numero("5+", 0), None);
    assert_eq!(analisar_numero("12a", 0), None);
    assert_eq!(analisar_numero(" 12", 0), None);
    assert_eq!(analisar_numero("1 2", 0), None);
    assert_eq!(analisar_numero("１２", 0), None);
}

#[test]
fn reading_numbers_at_the_limit() {
    let max = usize::MAX.to_string();
    assert_eq!(analisar_numero(&max, 0), Some(usize::MAX));
    let mut acima = decimal(usize::MAX as u128 + 1);
    assert_eq!(analisar_numero(&acima, 0), None);
    acima.push('0');
    assert_eq!(analisar_numero(&acima, 0), None);
    assert_eq!(analisar_numero("99999999999999999999999999999999999999999", 0), None);
    assert_eq!(analisar_numero("99999999999999999999999999999999999999999x", 0), None);
    let zeros = format!("0000000000000000000000000000000{}", max);
    assert_eq!(analisar_numero(&zeros, 0), Some(usize::MAX));
}

#[test]
fn progress_in_range_is_valid() {
    assert_eq!(progresso("Q01", 0, 5).validate(), Ok(()));
    assert_eq!(progresso("Q05", 5, 5).validate(), Ok(()));
    assert_eq!(progresso("Q3", 2, 5).validate(), Ok(()));
    assert_eq!(progresso("Q+3", 2, 5).validate(), Ok(()));
    assert_eq!(progresso("Q100", 0, 100).validate(), Ok(()));
}

#[test]
fn progress_with_a_total_of_zero_is_valid_with_nothing_answered() {
    assert_eq!(progresso("Q01", 0, 0).validate(), Ok(()));
    assert_eq!(progresso("nonsense", 0, 0).validate(), Ok(()));
    assert_eq!(progresso("", 0, 0).validate(), Ok(()));
    assert_eq!(progresso("Q99", 0, 0).validate(), Ok(()));
}

#[test]
fn progress_with_answers_and_a_total_of_zero_is_refused() {
    let esperado = Err("Número de questões respondidas excede o total".to_string());
    assert_eq!(progresso("Q01", 3, 0).validate(), esperado);
    assert_eq!(progresso("Q01", 1, 0).validate(), esperado);
    assert_eq!(progresso("nonsense", 9, 0).validate(), esperado);
}

#[test]
fn progress_without_the_prefix_is_refused() {
    let esperado = Err("ID da questão deve começar com 'Q'".to_string());
    assert_eq!(progresso("01", 0, 5).validate(), esperado);
    assert_eq!(progresso("", 0, 5).validate(), esperado);
    assert_eq!(progresso("q01", 0, 5).validate(), esperado);
}

#[test]
fn progress_without_a_number_is_refused() {
    let esperado = Err("Número da questão inválido".to_string());
    assert_eq!(progresso("Q", 0, 5).validate(), esperado);
    assert_eq!(progresso("Qabc", 0, 5).validate(), esperado);
    assert_eq!(progresso("Q-1", 0, 5).validate(), esperado);
    assert_eq!(progresso("Q 1", 0, 5).validate(), esperado);
    assert_eq!(
        progresso("Q99999999999999999999999999", 0, 5).validate(),
        esperado
    );
}

#[test]
fn progress_out_of_range_is_refused() {
    assert_eq!(
        progresso("Q06", 0, 5).validate(),
        Err("Questão atual Q06 fora dos limites [1, 5]".to_string())
    );
    assert_eq!(
        progresso("Q00", 0, 120).validate(),
        Err("Questão atual Q00 fora dos limites [1, 120]".to_string())
    );
}

#[test]
fn progress_with_too_many_answers_is_refused() {
    assert_eq!(
        progresso("Q02", 6, 5).validate(),
        Err("Número de questões respondidas excede o total".to_string())
    );
}

#[test]
fn progress_complaints_come_in_order() {
    assert_eq!(
        progresso("x", 9, 5).validate(),
        Err("ID da questão deve começar com 'Q'".to_string())
    );
    assert_eq!(
        progresso("Q9", 9, 5).validate(),
        Err("Questão atual Q9 fora dos limites [1, 5]".to_string())
    );
}
