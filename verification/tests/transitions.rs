use simulado::domain::estado::{EstadoSimulado, EstadoSimuladoCompleto, ModoTempo};
use simulado::state::transitions::{
    decorrido_entre, finalizar, finalizar_em, iniciar, iniciar_em, pausar, pausar_em,
    retomada_segura, retomar, retomar_em, verificar_expiracao_tempo,
    verificar_expiracao_tempo_em, TransicaoErro,
};

fn em_andamento(inicio: i64, limite_minutos: u16, permitir: bool) -> EstadoSimuladoCompleto {
    let mut estado = EstadoSimuladoCompleto::default();
    estado.tempo.limite_minutos = limite_minutos;
    estado.configuracoes.permitir_ultrapassar_tempo = permitir;
    assert_eq!(iniciar_em(&mut estado, inicio), Ok(()));
    estado
}

#[test]
fn default_state_is_not_started() {
    let estado = EstadoSimuladoCompleto::default();
    assert_eq!(estado.estado, EstadoSimulado::NaoIniciado);
    assert_eq!(estado.modo_tempo, ModoTempo::Cronometrado);
    assert_eq!(estado.tempo.limite_minutos, 0);
    assert_eq!(estado.tempo.decorrido_segundos, 0);
    assert_eq!(estado.tempo.inicio, None);
    assert_eq!(estado.tempo.pausado_em, None);
    assert_eq!(estado.tempo.finalizado_em, None);
    assert_eq!(estado.progresso.questao_atual, "Q01");
    assert_eq!(estado.progresso.respondidas, 0);
    assert_eq!(estado.progresso.total, 0);
    assert!(estado.respostas.entradas().is_empty());
    assert!(estado.configuracoes.permitir_ultrapassar_tempo);
    assert!(estado.configuracoes.mostrar_gabarito_ao_final);
}

#[test]
fn start_sets_the_start_instant() {
    let mut estado = EstadoSimuladoCompleto::default();
    assert_eq!(iniciar_em(&mut estado, 1_700_000_000), Ok(()));
    assert_eq!(estado.estado, EstadoSimulado::EmAndamento);
    assert_eq!(estado.tempo.inicio, Some(1_700_000_000));
    assert_eq!(estado.tempo.pausado_em, None);
    assert_eq!(estado.tempo.decorrido_segundos, 0);
}

#[test]
fn start_twice_is_refused() {
    let mut estado = em_andamento(100, 0, true);
    assert_eq!(iniciar_em(&mut estado, 200), Err(TransicaoErro::EstadoInvalido));
    assert_eq!(estado.estado, EstadoSimulado::EmAndamento);
    assert_eq!(estado.tempo.inicio, Some(100));
}

#[test]
fn pause_on_not_started_is_refused() {
    let mut estado = EstadoSimuladoCompleto::default();
    assert_eq!(pausar_em(&mut estado, 10), Err(TransicaoErro::EstadoInvalido));
    assert_eq!(estado.estado, EstadoSimulado::NaoIniciado);
    assert_eq!(estado.tempo.pausado_em, None);
}

#[test]
fn resume_on_in_progress_is_refused() {
    let mut estado = em_andamento(100, 0, true);
    assert_eq!(retomar_em(&mut estado, 150), Err(TransicaoErro::EstadoInvalido));
    assert_eq!(estado.estado, EstadoSimulado::EmAndamento);
    assert_eq!(estado.tempo.inicio, Some(100));
}

#[test]
fn resume_on_not_started_is_refused() {
    let mut estado = EstadoSimuladoCompleto::default();
    assert_eq!(retomar_em(&mut estado, 150), Err(TransicaoErro::EstadoInvalido));
}

#[test]
fn finish_on_not_started_is_refused() {
    let mut estado = EstadoSimuladoCompleto::default();
    assert_eq!(finalizar_em(&mut estado, 150), Err(TransicaoErro::EstadoInvalido));
    assert_eq!(estado.tempo.finalizado_em, None);
}

#[test]
fn nothing_leaves_a_terminal_status() {
    let mut estado = em_andamento(100, 0, true);
    assert_eq!(finalizar_em(&mut estado, 160), Ok(()));
    assert_eq!(estado.estado, EstadoSimulado::Finalizado);
    assert_eq!(estado.tempo.finalizado_em, Some(160));
    assert_eq!(iniciar_em(&mut estado, 170), Err(TransicaoErro::EstadoInvalido));
    assert_eq!(pausar_em(&mut estado, 170), Err(TransicaoErro::EstadoInvalido));
    assert_eq!(retomar_em(&mut estado, 170), Err(TransicaoErro::EstadoInvalido));
    assert_eq!(finalizar_em(&mut estado, 170), Err(TransicaoErro::EstadoInvalido));
    assert_eq!(verificar_expiracao_tempo_em(&mut estado, 170), Ok(()));
    assert_eq!(estado.estado, EstadoSimulado::Finalizado);
    assert_eq!(estado.tempo.finalizado_em, Some(160));
    assert_eq!(estado.tempo.decorrido_segundos, 0);
}

#[test]
fn pause_records_the_elapsed_time_and_keeps_the_start() {
    let mut estado = em_andamento(1_000, 0, true);
    assert_eq!(pausar_em(&mut estado, 1_030), Ok(()));
    assert_eq!(estado.estado, EstadoSimulado::Pausado);
    assert_eq!(estado.tempo.decorrido_segundos, 30);
    assert_eq!(estado.tempo.inicio, Some(1_000));
    assert_eq!(estado.tempo.pausado_em, Some(1_030));
}

#[test]
fn pause_without_a_start_instant_is_refused() {
    let mut estado = EstadoSimuladoCompleto::default();
    estado.estado = EstadoSimulado::EmAndamento;
    assert_eq!(pausar_em(&mut estado, 10), Err(TransicaoErro::TempoNaoIniciado));
    assert_eq!(estado.estado, EstadoSimulado::EmAndamento);
    assert_eq!(estado.tempo.pausado_em, None);
}

#[test]
fn resume_without_instants_is_refused() {
    let mut estado = EstadoSimuladoCompleto::default();
    estado.estado = EstadoSimulado::Pausado;
    estado.tempo.inicio = Some(5);
    assert_eq!(retomar_em(&mut estado, 10), Err(TransicaoErro::TempoNaoIniciado));
    estado.tempo.inicio = None;
    estado.tempo.pausado_em = Some(7);
    assert_eq!(retomar_em(&mut estado, 10), Err(TransicaoErro::TempoNaoIniciado));
    assert_eq!(estado.estado, EstadoSimulado::Pausado);
    assert_eq!(estado.tempo.pausado_em, Some(7));
}

#[test]
fn pause_resume_round_trip_excludes_the_pause() {
    let t0: i64 = 1_700_000_000;
    let (dt, dp, dt2): (i64, i64, i64) = (30, 100, 45);
    let mut estado = em_andamento(t0, 0, true);
    assert_eq!(pausar_em(&mut estado, t0 + dt), Ok(()));
    assert_eq!(estado.tempo.decorrido_segundos, 30);
    assert_eq!(retomar_em(&mut estado, t0 + dt + dp), Ok(()));
    assert_eq!(estado.estado, EstadoSimulado::EmAndamento);
    assert_eq!(estado.tempo.inicio, Some(t0 + dp));
    assert_eq!(estado.tempo.pausado_em, None);
    assert_eq!(verificar_expiracao_tempo_em(&mut estado, t0 + dt + dp + dt2), Ok(()));
    assert_eq!(estado.tempo.decorrido_segundos, 75);
    assert_eq!(estado.estado, EstadoSimulado::EmAndamento);
}

#[test]
fn two_pauses_are_both_excluded() {
    let mut estado = em_andamento(0, 0, true);
    assert_eq!(pausar_em(&mut estado, 10), Ok(()));
    assert_eq!(retomar_em(&mut estado, 50), Ok(()));
    assert_eq!(pausar_em(&mut estado, 70), Ok(()));
    assert_eq!(estado.tempo.decorrido_segundos, 30);
    assert_eq!(retomar_em(&mut estado, 1_000), Ok(()));
    assert_eq!(verificar_expiracao_tempo_em(&mut estado, 1_005), Ok(()));
    assert_eq!(estado.tempo.decorrido_segundos, 35);
}

#[test]
fn finish_from_paused() {
    let mut estado = em_andamento(0, 0, true);
    assert_eq!(pausar_em(&mut estado, 10), Ok(()));
    assert_eq!(finalizar_em(&mut estado, 20), Ok(()));
    assert_eq!(estado.estado, EstadoSimulado::Finalizado);
    assert_eq!(estado.tempo.finalizado_em, Some(20));
    assert_eq!(estado.tempo.inicio, Some(0));
    assert_eq!(estado.tempo.decorrido_segundos, 10);
}

#[test]
fn expiry_without_overrun_ends_by_timeout() {
    let mut estado = em_andamento(5_000, 10, false);
    assert_eq!(verificar_expiracao_tempo_em(&mut estado, 5_600), Ok(()));
    assert_eq!(estado.estado, EstadoSimulado::FinalizadoPorTempo);
    assert_eq!(estado.tempo.finalizado_em, Some(5_600));
    assert_eq!(estado.tempo.decorrido_segundos, 600);
    assert_eq!(estado.modo_tempo, ModoTempo::Cronometrado);
}

#[test]
fn expiry_with_overrun_goes_on_without_limit() {
    let mut estado = em_andamento(5_000, 10, true);
    assert_eq!(verificar_expiracao_tempo_em(&mut estado, 5_600), Ok(()));
    assert_eq!(estado.estado, EstadoSimulado::EmAndamento);
    assert_eq!(estado.modo_tempo, ModoTempo::Livre);
    assert_eq!(estado.tempo.finalizado_em, None);
    assert_eq!(estado.tempo.decorrido_segundos, 600);
}

#[test]
fn one_second_before_the_limit_nothing_expires() {
    let mut estado = em_andamento(5_000, 10, false);
    assert_eq!(verificar_expiracao_tempo_em(&mut estado, 5_599), Ok(()));
    assert_eq!(estado.estado, EstadoSimulado::EmAndamento);
    assert_eq!(estado.modo_tempo, ModoTempo::Cronometrado);
    assert_eq!(estado.tempo.decorrido_segundos, 599);
    assert_eq!(estado.tempo.finalizado_em, None);
}

#[test]
fn a_limit_of_zero_never_expires() {
    let mut estado = em_andamento(0, 0, false);
    assert_eq!(verificar_expiracao_tempo_em(&mut estado, 1_000_000), Ok(()));
    assert_eq!(estado.estado, EstadoSimulado::EmAndamento);
    assert_eq!(estado.modo_tempo, ModoTempo::Cronometrado);
    assert_eq!(estado.tempo.decorrido_segundos, 1_000_000);
}

#[test]
fn expiry_check_is_a_no_op_when_paused_or_not_started() {
    let mut estado = EstadoSimuladoCompleto::default();
    assert_eq!(verificar_expiracao_tempo_em(&mut estado, 99), Ok(()));
    assert_eq!(estado.estado, EstadoSimulado::NaoIniciado);
    assert_eq!(estado.tempo.decorrido_segundos, 0);
    let mut pausado = em_andamento(0, 1, false);
    assert_eq!(pausar_em(&mut pausado, 10), Ok(()));
    assert_eq!(verificar_expiracao_tempo_em(&mut pausado, 10_000), Ok(()));
    assert_eq!(pausado.estado, EstadoSimulado::Pausado);
    assert_eq!(pausado.tempo.decorrido_segundos, 10);
    assert_eq!(pausado.tempo.finalizado_em, None);
}

#[test]
fn expiry_check_without_a_start_instant_is_refused() {
    let mut estado = EstadoSimuladoCompleto::default();
    estado.estado = EstadoSimulado::EmAndamento;
    assert_eq!(
        verificar_expiracao_tempo_em(&mut estado, 10),
        Err(TransicaoErro::TempoNaoIniciado)
    );
    assert_eq!(estado.tempo.decorrido_segundos, 0);
}

#[test]
fn elapsed_time_is_never_negative() {
    assert_eq!(decorrido_entre(100, 99), 0);
    assert_eq!(decorrido_entre(100, 100), 0);
    assert_eq!(decorrido_entre(100, 101), 1);
    assert_eq!(decorrido_entre(-50, 50), 100);
    let mut estado = em_andamento(1_000, 10, false);
    assert_eq!(verificar_expiracao_tempo_em(&mut estado, 900), Ok(()));
    assert_eq!(estado.tempo.decorrido_segundos, 0);
    assert_eq!(estado.estado, EstadoSimulado::EmAndamento);
}

#[test]
fn elapsed_time_stays_at_the_top_of_the_counter() {
    assert_eq!(decorrido_entre(0, 4_294_967_294), 4_294_967_294);
    assert_eq!(decorrido_entre(0, 4_294_967_295), 4_294_967_295);
    assert_eq!(decorrido_entre(0, 4_294_967_296), 4_294_967_295);
    assert_eq!(decorrido_entre(0, 4_294_967_301), 4_294_967_295);
    assert_eq!(decorrido_entre(i64::MIN, i64::MAX), 4_294_967_295);
    assert_eq!(decorrido_entre(-1, i64::MAX), 4_294_967_295);
}

#[test]
fn a_limit_reached_long_ago_still_expires() {
    let mut estado = em_andamento(0, 65_535, false);
    assert_eq!(verificar_expiracao_tempo_em(&mut estado, 4_294_967_296 + 5), Ok(()));
    assert_eq!(estado.estado, EstadoSimulado::FinalizadoPorTempo);
    assert_eq!(estado.tempo.decorrido_segundos, 4_294_967_295);
    assert_eq!(estado.tempo.finalizado_em, Some(4_294_967_301));
}

#[test]
fn resume_is_safe_for_ordinary_instants() {
    let mut estado = em_andamento(1_700_000_000, 0, true);
    assert_eq!(pausar_em(&mut estado, 1_700_000_100), Ok(()));
    assert!(retomada_segura(&estado.tempo));
    estado.tempo.inicio = Some(i64::MAX);
    estado.tempo.pausado_em = Some(0);
    assert!(!retomada_segura(&estado.tempo));
    estado.tempo.inicio = Some(i64::MIN);
    estado.tempo.pausado_em = Some(1);
    assert!(!retomada_segura(&estado.tempo));
    estado.tempo.pausado_em = None;
    assert!(retomada_segura(&estado.tempo));
}

#[test]
fn transitions_on_the_clock() {
    let mut estado = EstadoSimuladoCompleto::default();
    assert_eq!(pausar(&mut estado), Err(TransicaoErro::EstadoInvalido));
    assert_eq!(iniciar(&mut estado), Ok(()));
    assert_eq!(estado.estado, EstadoSimulado::EmAndamento);
    let inicio = estado.tempo.inicio.expect("started");
    assert!(inicio > 1_600_000_000);
    assert_eq!(retomar(&mut estado), Err(TransicaoErro::EstadoInvalido));
    assert_eq!(verificar_expiracao_tempo(&mut estado), Ok(()));
    assert!(estado.tempo.decorrido_segundos < 60);
    assert_eq!(pausar(&mut estado), Ok(()));
    assert_eq!(estado.estado, EstadoSimulado::Pausado);
    let pausado_em = estado.tempo.pausado_em.expect("paused");
    assert!(pausado_em >= inicio);
    assert!(retomada_segura(&estado.tempo));
    assert_eq!(retomar(&mut estado), Ok(()));
    assert_eq!(estado.estado, EstadoSimulado::EmAndamento);
    assert!(estado.tempo.inicio.expect("started") >= inicio);
    assert_eq!(estado.tempo.pausado_em, None);
    assert_eq!(finalizar(&mut estado), Ok(()));
    assert_eq!(estado.estado, EstadoSimulado::Finalizado);
    assert!(estado.tempo.finalizado_em.expect("finished") >= pausado_em);
}

#[test]
fn transition_errors_in_words() {
    assert_eq!(
        TransicaoErro::EstadoInvalido.mensagem(),
        "Estado inválido para esta transição"
    );
    assert_eq!(TransicaoErro::TempoNaoIniciado.mensagem(), "Tempo não foi iniciado");
}

#[test]
fn status_predicates() {
    assert!(EstadoSimulado::EmAndamento.pode_avancar());
    assert!(!EstadoSimulado::Pausado.pode_avancar());
    assert!(EstadoSimulado::EmAndamento.pode_pausar());
    assert!(!EstadoSimulado::NaoIniciado.pode_pausar());
    assert!(EstadoSimulado::Pausado.pode_retomar());
    assert!(!EstadoSimulado::EmAndamento.pode_retomar());
    assert!(EstadoSimulado::EmAndamento.esta_ativo());
    assert!(EstadoSimulado::Pausado.esta_ativo());
    assert!(!EstadoSimulado::NaoIniciado.esta_ativo());
    assert!(!EstadoSimulado::Finalizado.esta_ativo());
    assert!(!EstadoSimulado::FinalizadoPorTempo.esta_ativo());
    assert_eq!(EstadoSimulado::NaoIniciado.nome(), "NaoIniciado");
    assert_eq!(EstadoSimulado::EmAndamento.nome(), "EmAndamento");
    assert_eq!(EstadoSimulado::Pausado.nome(), "Pausado");
    assert_eq!(EstadoSimulado::Finalizado.nome(), "Finalizado");
    assert_eq!(EstadoSimulado::FinalizadoPorTempo.nome(), "FinalizadoPorTempo");
}
