//! Start, pause, resume, finish and expiry of an attempt, with the clock
//! arithmetic that they carry.

use vstd::prelude::*;
use vstd::string::*;
use crate::domain::estado::{EstadoSimulado, EstadoSimuladoCompleto, ModoTempo, TempoSimulado};
use crate::relogio::{agora, leitura_do_relogio, INSTANTE_MAXIMO};

verus! {

/// Why a transition was refused.
#[derive(Clone, Copy, Debug, PartialEq, Eq, Structural)]
pub enum TransicaoErro {
    /// The attempt is in a status from which the transition does not start.
    EstadoInvalido,
    /// The clock has no instant that the arithmetic needs.
    TempoNaoIniciado,
}

impl TransicaoErro {
    pub open spec fn mensagem_spec(&self) -> Seq<char> {
        match self {
            TransicaoErro::EstadoInvalido => "Estado inválido para esta transição"@,
            TransicaoErro::TempoNaoIniciado => "Tempo não foi iniciado"@,
        }
    }

    /// The error in words.
    pub fn mensagem(&self) -> (r: String)
        ensures
            r@ == self.mensagem_spec(),
    {
        match self {
            TransicaoErro::EstadoInvalido => String::from_str(
                "Estado inválido para esta transição",
            ),
            TransicaoErro::TempoNaoIniciado => String::from_str("Tempo não foi iniciado"),
        }
    }
}

/// Seconds of active time at `agora`, counted from `inicio`: never negative,
/// and held at the largest value of the counter once that is reached.
pub open spec fn decorrido_spec(inicio: i64, agora: i64) -> u32 {
    if agora <= inicio {
        0
    } else if agora - inicio >= u32::MAX {
        u32::MAX
    } else {
        (agora - inicio) as u32
    }
}

/// Computes `decorrido_spec`.
pub fn decorrido_entre(inicio: i64, agora: i64) -> (r: u32)
    ensures
        r == decorrido_spec(inicio, agora),
{
    if agora <= inicio {
        0
    } else {
        let d: i128 = agora as i128 - inicio as i128;
        if d >= u32::MAX as i128 {
            u32::MAX
        } else {
            d as u32
        }
    }
}

/// Active time does not run backwards: measured from one start instant, a
/// later instant gives no less. Up to the largest value of the counter it
/// is the time since the start instant.
pub proof fn lema_decorrido_monotono(inicio: i64, antes: i64, depois: i64)
    requires
        antes <= depois,
    ensures
        decorrido_spec(inicio, antes) <= decorrido_spec(inicio, depois),
        0 <= depois - inicio <= u32::MAX ==> decorrido_spec(inicio, depois) == depois - inicio,
{
}

/// What a transition did, given what it had to do: on success the state is
/// the new one, on refusal the error is reported and the state is untouched.
pub open spec fn cumpre(
    r: Result<(), TransicaoErro>,
    antes: EstadoSimuladoCompleto,
    depois: EstadoSimuladoCompleto,
    devido: Result<EstadoSimuladoCompleto, TransicaoErro>,
) -> bool {
    match devido {
        Ok(s) => r is Ok && depois == s,
        Err(e) => r == Err::<(), TransicaoErro>(e) && depois == antes,
    }
}

/// Start: only from `NaoIniciado`; the clock starts at `agora`.
pub open spec fn iniciar_spec(s: EstadoSimuladoCompleto, agora: i64) -> Result<
    EstadoSimuladoCompleto,
    TransicaoErro,
> {
    if s.estado != EstadoSimulado::NaoIniciado {
        Err(TransicaoErro::EstadoInvalido)
    } else {
        Ok(
            EstadoSimuladoCompleto {
                estado: EstadoSimulado::EmAndamento,
                tempo: TempoSimulado { inicio: Some(agora), ..s.tempo },
                ..s
            },
        )
    }
}

/// Pause: only from `EmAndamento`; the active time so far is recorded and
/// the start instant stays.
pub open spec fn pausar_spec(s: EstadoSimuladoCompleto, agora: i64) -> Result<
    EstadoSimuladoCompleto,
    TransicaoErro,
> {
    if s.estado != EstadoSimulado::EmAndamento {
        Err(TransicaoErro::EstadoInvalido)
    } else {
        match s.tempo.inicio {
            None => Err(TransicaoErro::TempoNaoIniciado),
            Some(inicio) => Ok(
                EstadoSimuladoCompleto {
                    estado: EstadoSimulado::Pausado,
                    tempo: TempoSimulado {
                        decorrido_segundos: decorrido_spec(inicio, agora),
                        pausado_em: Some(agora),
                        ..s.tempo
                    },
                    ..s
                },
            ),
        }
    }
}

/// Whether the start instant, moved forward by the pause that ends at
/// `agora`, is still an instant that the clock's counter can hold.
pub open spec fn retomada_cabe(t: TempoSimulado, agora: i64) -> bool {
    match (t.inicio, t.pausado_em) {
        (Some(inicio), Some(pausado_em)) => i64::MIN <= inicio + (agora - pausado_em)
            <= i64::MAX,
        _ => true,
    }
}

/// Resume: only from `Pausado`; the start instant moves forward by the length
/// of the pause, so that time from it again counts active time only.
pub open spec fn retomar_spec(s: EstadoSimuladoCompleto, agora: i64) -> Result<
    EstadoSimuladoCompleto,
    TransicaoErro,
> {
    if s.estado != EstadoSimulado::Pausado {
        Err(TransicaoErro::EstadoInvalido)
    } else {
        match (s.tempo.pausado_em, s.tempo.inicio) {
            (Some(pausado_em), Some(inicio)) => Ok(
                EstadoSimuladoCompleto {
                    estado: EstadoSimulado::EmAndamento,
                    tempo: TempoSimulado {
                        inicio: Some((inicio + (agora - pausado_em)) as i64),
                        pausado_em: None,
                        ..s.tempo
                    },
                    ..s
                },
            ),
            _ => Err(TransicaoErro::TempoNaoIniciado),
        }
    }
}

/// Finish: from `EmAndamento` or `Pausado`.
pub open spec fn finalizar_spec(s: EstadoSimuladoCompleto, agora: i64) -> Result<
    EstadoSimuladoCompleto,
    TransicaoErro,
> {
    if s.estado == EstadoSimulado::EmAndamento || s.estado == EstadoSimulado::Pausado {
        Ok(
            EstadoSimuladoCompleto {
                estado: EstadoSimulado::Finalizado,
                tempo: TempoSimulado { finalizado_em: Some(agora), ..s.tempo },
                ..s
            },
        )
    } else {
        Err(TransicaoErro::EstadoInvalido)
    }
}

/// The time limit in seconds; 0 means none.
pub open spec fn limite_segundos_spec(t: TempoSimulado) -> int {
    t.limite_minutos * 60
}

/// Expiry: nothing happens outside `EmAndamento`. Inside it the active time
/// is measured; once it has reached a limit, the attempt either goes on
/// without limit or ends by timeout, as its settings say.
pub open spec fn verificar_expiracao_tempo_spec(s: EstadoSimuladoCompleto, agora: i64) -> Result<
    EstadoSimuladoCompleto,
    TransicaoErro,
> {
    if s.estado != EstadoSimulado::EmAndamento {
        Ok(s)
    } else {
        match s.tempo.inicio {
            None => Err(TransicaoErro::TempoNaoIniciado),
            Some(inicio) => {
                let decorrido = decorrido_spec(inicio, agora);
                let limite = limite_segundos_spec(s.tempo);
                let medido = TempoSimulado { decorrido_segundos: decorrido, ..s.tempo };
                if limite > 0 && decorrido >= limite {
                    if s.configuracoes.permitir_ultrapassar_tempo {
                        Ok(
                            EstadoSimuladoCompleto {
                                modo_tempo: ModoTempo::Livre,
                                tempo: medido,
                                ..s
                            },
                        )
                    } else {
                        Ok(
                            EstadoSimuladoCompleto {
                                estado: EstadoSimulado::FinalizadoPorTempo,
                                tempo: TempoSimulado { finalizado_em: Some(agora), ..medido },
                                ..s
                            },
                        )
                    }
                } else {
                    Ok(EstadoSimuladoCompleto { tempo: medido, ..s })
                }
            },
        }
    }
}

/// Starts the attempt at the instant `agora`.
pub fn iniciar_em(estado: &mut EstadoSimuladoCompleto, agora: i64) -> (r: Result<
    (),
    TransicaoErro,
>)
    ensures
        cumpre(r, *old(estado), *final(estado), iniciar_spec(*old(estado), agora)),
{
    if estado.estado != EstadoSimulado::NaoIniciado {
        return Err(TransicaoErro::EstadoInvalido);
    }
    estado.tempo.inicio = Some(agora);
    estado.estado = EstadoSimulado::EmAndamento;
    Ok(())
}

/// Pauses the attempt at the instant `agora`.
pub fn pausar_em(estado: &mut EstadoSimuladoCompleto, agora: i64) -> (r: Result<
    (),
    TransicaoErro,
>)
    ensures
        cumpre(r, *old(estado), *final(estado), pausar_spec(*old(estado), agora)),
{
    if estado.estado != EstadoSimulado::EmAndamento {
        return Err(TransicaoErro::EstadoInvalido);
    }
    match estado.tempo.inicio {
        Some(inicio) => {
            estado.tempo.decorrido_segundos = decorrido_entre(inicio, agora);
        },
        None => {
            return Err(TransicaoErro::TempoNaoIniciado);
        },
    }
    estado.tempo.pausado_em = Some(agora);
    estado.estado = EstadoSimulado::Pausado;
    Ok(())
}

/// Resumes the attempt at the instant `agora`.
pub fn retomar_em(estado: &mut EstadoSimuladoCompleto, agora: i64) -> (r: Result<
    (),
    TransicaoErro,
>)
    requires
        old(estado).estado == EstadoSimulado::Pausado ==> retomada_cabe(old(estado).tempo, agora),
    ensures
        cumpre(r, *old(estado), *final(estado), retomar_spec(*old(estado), agora)),
{
    if estado.estado != EstadoSimulado::Pausado {
        return Err(TransicaoErro::EstadoInvalido);
    }
    let pausado_em = match estado.tempo.pausado_em {
        Some(p) => p,
        None => {
            return Err(TransicaoErro::TempoNaoIniciado);
        },
    };
    let inicio = match estado.tempo.inicio {
        Some(i) => i,
        None => {
            return Err(TransicaoErro::TempoNaoIniciado);
        },
    };
    let novo: i128 = inicio as i128 + (agora as i128 - pausado_em as i128);
    estado.tempo.inicio = Some(novo as i64);
    estado.tempo.pausado_em = None;
    estado.estado = EstadoSimulado::EmAndamento;
    Ok(())
}

/// Finishes the attempt at the instant `agora`.
pub fn finalizar_em(estado: &mut EstadoSimuladoCompleto, agora: i64) -> (r: Result<
    (),
    TransicaoErro,
>)
    ensures
        cumpre(r, *old(estado), *final(estado), finalizar_spec(*old(estado), agora)),
{
    match estado.estado {
        EstadoSimulado::EmAndamento | EstadoSimulado::Pausado => {
            estado.tempo.finalizado_em = Some(agora);
            estado.estado = EstadoSimulado::Finalizado;
            Ok(())
        },
        _ => Err(TransicaoErro::EstadoInvalido),
    }
}

/// Measures the active time at the instant `agora` and applies the limit.
pub fn verificar_expiracao_tempo_em(estado: &mut EstadoSimuladoCompleto, agora: i64) -> (r:
    Result<(), TransicaoErro>)
    ensures
        cumpre(
            r,
            *old(estado),
            *final(estado),
            verificar_expiracao_tempo_spec(*old(estado), agora),
        ),
{
    if estado.estado != EstadoSimulado::EmAndamento {
        return Ok(());
    }
    let inicio = match estado.tempo.inicio {
        Some(i) => i,
        None => {
            return Err(TransicaoErro::TempoNaoIniciado);
        },
    };
    let decorrido = decorrido_entre(inicio, agora);
    estado.tempo.decorrido_segundos = decorrido;
    let limite_segundos: u32 = estado.tempo.limite_minutos as u32 * 60;
    if limite_segundos > 0 && decorrido >= limite_segundos {
        if estado.configuracoes.permitir_ultrapassar_tempo {
            estado.modo_tempo = ModoTempo::Livre;
        } else {
            finalizar_por_tempo(estado, agora);
        }
    }
    Ok(())
}

fn finalizar_por_tempo(estado: &mut EstadoSimuladoCompleto, agora: i64)
    ensures
        *final(estado) == (EstadoSimuladoCompleto {
            estado: EstadoSimulado::FinalizadoPorTempo,
            tempo: TempoSimulado { finalizado_em: Some(agora), ..old(estado).tempo },
            ..*old(estado)
        }),
{
    estado.tempo.finalizado_em = Some(agora);
    estado.estado = EstadoSimulado::FinalizadoPorTempo;
}

/// Whether the attempt can be resumed whatever the clock reads: the moved
/// start instant fits at both ends of the clock's range, and so in between.
pub open spec fn retomada_segura_spec(t: TempoSimulado) -> bool {
    retomada_cabe(t, 0) && retomada_cabe(t, INSTANTE_MAXIMO)
}

/// Computes `retomada_segura_spec`.
pub fn retomada_segura(t: &TempoSimulado) -> (r: bool)
    ensures
        r == retomada_segura_spec(*t),
{
    match (t.inicio, t.pausado_em) {
        (Some(inicio), Some(pausado_em)) => {
            let base: i128 = inicio as i128 - pausado_em as i128;
            let max: i128 = INSTANTE_MAXIMO as i128;
            i64::MIN as i128 <= base && base + max <= i64::MAX as i128
        },
        _ => true,
    }
}

/// Starts the attempt at the instant that the clock reads.
pub fn iniciar(estado: &mut EstadoSimuladoCompleto) -> (r: Result<(), TransicaoErro>)
    ensures
        exists|agora: i64| #[trigger]
            leitura_do_relogio(agora) && cumpre(
                r,
                *old(estado),
                *final(estado),
                iniciar_spec(*old(estado), agora),
            ),
{
    let t = agora();
    iniciar_em(estado, t)
}

/// Pauses the attempt at the instant that the clock reads.
pub fn pausar(estado: &mut EstadoSimuladoCompleto) -> (r: Result<(), TransicaoErro>)
    ensures
        exists|agora: i64| #[trigger]
            leitura_do_relogio(agora) && cumpre(
                r,
                *old(estado),
                *final(estado),
                pausar_spec(*old(estado), agora),
            ),
{
    let t = agora();
    pausar_em(estado, t)
}

/// Resumes the attempt at the instant that the clock reads.
pub fn retomar(estado: &mut EstadoSimuladoCompleto) -> (r: Result<(), TransicaoErro>)
    requires
        old(estado).estado == EstadoSimulado::Pausado ==> retomada_segura_spec(old(estado).tempo),
    ensures
        exists|agora: i64| #[trigger]
            leitura_do_relogio(agora) && cumpre(
                r,
                *old(estado),
                *final(estado),
                retomar_spec(*old(estado), agora),
            ),
{
    let t = agora();
    retomar_em(estado, t)
}

/// Finishes the attempt at the instant that the clock reads.
pub fn finalizar(estado: &mut EstadoSimuladoCompleto) -> (r: Result<(), TransicaoErro>)
    ensures
        exists|agora: i64| #[trigger]
            leitura_do_relogio(agora) && cumpre(
                r,
                *old(estado),
                *final(estado),
                finalizar_spec(*old(estado), agora),
            ),
{
    let t = agora();
    finalizar_em(estado, t)
}

/// Measures the active time at the instant that the clock reads and applies
/// the limit. Nothing calls this by itself: the host polls it.
pub fn verificar_expiracao_tempo(estado: &mut EstadoSimuladoCompleto) -> (r: Result<
    (),
    TransicaoErro,
>)
    ensures
        exists|agora: i64| #[trigger]
            leitura_do_relogio(agora) && cumpre(
                r,
                *old(estado),
                *final(estado),
                verificar_expiracao_tempo_spec(*old(estado), agora),
            ),
{
    let t = agora();
    verificar_expiracao_tempo_em(estado, t)
}

/// A transition is refused with `EstadoInvalido` exactly when the attempt is
/// in a status that it does not start from, whatever the instant.
pub proof fn lema_origem_invalida(s: EstadoSimuladoCompleto, agora: i64)
    ensures
        iniciar_spec(s, agora) == Err::<EstadoSimuladoCompleto, TransicaoErro>(
            TransicaoErro::EstadoInvalido,
        ) <==> s.estado != EstadoSimulado::NaoIniciado,
        pausar_spec(s, agora) == Err::<EstadoSimuladoCompleto, TransicaoErro>(
            TransicaoErro::EstadoInvalido,
        ) <==> s.estado != EstadoSimulado::EmAndamento,
        retomar_spec(s, agora) == Err::<EstadoSimuladoCompleto, TransicaoErro>(
            TransicaoErro::EstadoInvalido,
        ) <==> s.estado != EstadoSimulado::Pausado,
        finalizar_spec(s, agora) == Err::<EstadoSimuladoCompleto, TransicaoErro>(
            TransicaoErro::EstadoInvalido,
        ) <==> !(s.estado == EstadoSimulado::EmAndamento || s.estado == EstadoSimulado::Pausado),
        !(verificar_expiracao_tempo_spec(s, agora) == Err::<
            EstadoSimuladoCompleto,
            TransicaoErro,
        >(TransicaoErro::EstadoInvalido)),
{
}

/// A terminal status is final: every transition from it is refused, and the
/// expiry check leaves the attempt as it is.
pub proof fn lema_terminal(s: EstadoSimuladoCompleto, agora: i64)
    requires
        s.estado.terminal(),
    ensures
        iniciar_spec(s, agora) is Err,
        pausar_spec(s, agora) is Err,
        retomar_spec(s, agora) is Err,
        finalizar_spec(s, agora) is Err,
        verificar_expiracao_tempo_spec(s, agora) == Ok::<EstadoSimuladoCompleto, TransicaoErro>(s),
{
}

/// Every transition keeps the clock coherent: a start instant is present
/// exactly outside `NaoIniciado`. A transition changes the status only when
/// it succeeds.
pub proof fn lema_relogio_coerente(s: EstadoSimuladoCompleto, agora: i64)
    requires
        s.relogio_coerente(),
    ensures
        iniciar_spec(s, agora) is Ok ==> iniciar_spec(s, agora)->Ok_0.relogio_coerente(),
        pausar_spec(s, agora) is Ok ==> pausar_spec(s, agora)->Ok_0.relogio_coerente(),
        retomar_spec(s, agora) is Ok ==> retomar_spec(s, agora)->Ok_0.relogio_coerente(),
        finalizar_spec(s, agora) is Ok ==> finalizar_spec(s, agora)->Ok_0.relogio_coerente(),
        verificar_expiracao_tempo_spec(s, agora) is Ok ==> verificar_expiracao_tempo_spec(
            s,
            agora,
        )->Ok_0.relogio_coerente(),
{
}

/// A limit that is reached takes effect: an attempt in progress whose time
/// since the start instant has reached its limit does not stay timed. It
/// goes on without limit where overrun is allowed, and else ends by timeout
/// at `agora`. Before the limit, or without one, the check only measures.
pub proof fn lema_expiracao(s: EstadoSimuladoCompleto, agora: i64)
    requires
        s.estado == EstadoSimulado::EmAndamento,
        s.tempo.inicio is Some,
    ensures
        verificar_expiracao_tempo_spec(s, agora) is Ok,
        ({
            let depois = verificar_expiracao_tempo_spec(s, agora)->Ok_0;
            let limite = limite_segundos_spec(s.tempo);
            let passado = agora - s.tempo.inicio->Some_0;
            &&& limite > 0 && passado >= limite && s.configuracoes.permitir_ultrapassar_tempo ==> {
                &&& depois.estado == EstadoSimulado::EmAndamento
                &&& depois.modo_tempo == ModoTempo::Livre
                &&& depois.tempo.finalizado_em == s.tempo.finalizado_em
            }
            &&& limite > 0 && passado >= limite && !s.configuracoes.permitir_ultrapassar_tempo ==> {
                &&& depois.estado == EstadoSimulado::FinalizadoPorTempo
                &&& depois.tempo.finalizado_em == Some(agora)
                &&& depois.modo_tempo == s.modo_tempo
            }
            &&& limite == 0 || passado < limite ==> {
                &&& depois.estado == EstadoSimulado::EmAndamento
                &&& depois.modo_tempo == s.modo_tempo
                &&& depois.tempo.finalizado_em == s.tempo.finalizado_em
            }
        }),
{
}

/// A pause does not count. An attempt starts at `t0`, is paused at `t1`,
/// resumed at `t2` and measured at `t3`: the four moves succeed, the pause
/// records the time from `t0` to `t1`, and the measure is that time plus the
/// time from `t2` to `t3`. The active time must fit the counter.
pub proof fn lema_pausa_nao_conta(s0: EstadoSimuladoCompleto, t0: i64, t1: i64, t2: i64, t3: i64)
    requires
        s0.estado == EstadoSimulado::NaoIniciado,
        t0 <= t1 <= t2 <= t3,
        (t1 - t0) + (t3 - t2) <= u32::MAX,
    ensures
        iniciar_spec(s0, t0) is Ok,
        pausar_spec(iniciar_spec(s0, t0)->Ok_0, t1) is Ok,
        pausar_spec(iniciar_spec(s0, t0)->Ok_0, t1)->Ok_0.tempo.decorrido_segundos == t1 - t0,
        retomada_cabe(pausar_spec(iniciar_spec(s0, t0)->Ok_0, t1)->Ok_0.tempo, t2),
        retomar_spec(pausar_spec(iniciar_spec(s0, t0)->Ok_0, t1)->Ok_0, t2) is Ok,
        verificar_expiracao_tempo_spec(
            retomar_spec(pausar_spec(iniciar_spec(s0, t0)->Ok_0, t1)->Ok_0, t2)->Ok_0,
            t3,
        ) is Ok,
        verificar_expiracao_tempo_spec(
            retomar_spec(pausar_spec(iniciar_spec(s0, t0)->Ok_0, t1)->Ok_0, t2)->Ok_0,
            t3,
        )->Ok_0.tempo.decorrido_segundos == (t1 - t0) + (t3 - t2),
{
    let s1 = iniciar_spec(s0, t0)->Ok_0;
    let s2 = pausar_spec(s1, t1)->Ok_0;
    let s3 = retomar_spec(s2, t2)->Ok_0;
    assert(s1.tempo.inicio == Some(t0));
    assert(s2.tempo.inicio == Some(t0));
    assert(s2.tempo.pausado_em == Some(t1));
    assert(s3.tempo.inicio == Some((t0 + (t2 - t1)) as i64));
    assert(s3.estado == EstadoSimulado::EmAndamento);
}

} // verus!
