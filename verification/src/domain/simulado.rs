//! The record of one attempt, as it is stored.

use vstd::prelude::*;
use crate::domain::estado::{
    ConfiguracoesSimulado,
    EstadoSimulado,
    EstadoSimuladoCompleto,
    ModoTempo,
    TempoSimulado,
};

verus! {

/// One attempt at an exam. Instants are whole seconds since the Unix epoch.
#[derive(Clone, Debug)]
pub struct Simulado {
    /// 0 until the attempt is stored for the first time.
    pub id: i64,
    pub prova_id: String,
    pub vestibular: String,
    pub ano: i32,
    /// The time limit in minutes.
    pub tempo_limite: i32,
    pub iniciado_em: Option<i64>,
    pub finalizado_em: Option<i64>,
    pub estado_completo: EstadoSimuladoCompleto,
}

/// The limit that the clock of a new attempt gets: the minutes asked for,
/// kept to the 16 bits of the clock's limit.
pub open spec fn limite_do_relogio(duracao_minutos: i32) -> u16 {
    duracao_minutos as u16
}

impl Simulado {
    /// A new attempt is not stored, not started, has the first question open
    /// and no answers, and its clock has the limit asked for.
    pub open spec fn e_novo(
        &self,
        prova_id: Seq<char>,
        vestibular: Seq<char>,
        ano: i32,
        duracao_minutos: i32,
    ) -> bool {
        &&& self.id == 0
        &&& self.prova_id@ == prova_id
        &&& self.vestibular@ == vestibular
        &&& self.ano == ano
        &&& self.tempo_limite == duracao_minutos
        &&& self.iniciado_em is None
        &&& self.finalizado_em is None
        &&& self.estado_completo.estado == EstadoSimulado::NaoIniciado
        &&& self.estado_completo.modo_tempo == ModoTempo::Cronometrado
        &&& self.estado_completo.tempo == (TempoSimulado {
            limite_minutos: limite_do_relogio(duracao_minutos),
            decorrido_segundos: 0,
            inicio: None,
            pausado_em: None,
            finalizado_em: None,
        })
        &&& self.estado_completo.progresso.questao_atual@ == "Q01"@
        &&& self.estado_completo.progresso.respondidas == 0
        &&& self.estado_completo.progresso.total == 0
        &&& self.estado_completo.respostas@ == Map::<Seq<char>, Option<Seq<char>>>::empty()
        &&& self.estado_completo.respostas.bem_formada()
        &&& self.estado_completo.contagem_coerente()
        &&& self.estado_completo.configuracoes == (ConfiguracoesSimulado {
            permitir_ultrapassar_tempo: true,
            mostrar_gabarito_ao_final: true,
        })
    }

    /// Makes the record of a new attempt.
    pub fn novo(prova_id: String, vestibular: String, ano: i32, duracao_minutos: i32) -> (r: Self)
        ensures
            r.e_novo(prova_id@, vestibular@, ano, duracao_minutos),
    {
        let mut estado = EstadoSimuladoCompleto::default();
        estado.tempo.limite_minutos = #[verifier::truncate]
        (duracao_minutos as u16);
        Simulado {
            id: 0,
            prova_id,
            vestibular,
            ano,
            tempo_limite: duracao_minutos,
            iniciado_em: None,
            finalizado_em: None,
            estado_completo: estado,
        }
    }

    /// The state of the attempt.
    pub fn estado(&self) -> (r: &EstadoSimuladoCompleto)
        ensures
            *r == self.estado_completo,
    {
        &self.estado_completo
    }

    /// Puts a new state in place of the attempt's state.
    pub fn set_estado(&mut self, estado: EstadoSimuladoCompleto)
        ensures
            *final(self) == (Simulado { estado_completo: estado, ..*old(self) }),
    {
        self.estado_completo = estado;
    }
}

} // verus!
