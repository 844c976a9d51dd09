//! The state of one attempt: its status, clock, progress and settings.

use vstd::prelude::*;
use vstd::string::*;
use crate::domain::respostas::Respostas;
use crate::texto::{analisar_numero, decimal, decimal_spec, numero_spec};

verus! {

/// Where an attempt stands in its life cycle.
#[derive(Clone, Copy, Debug, PartialEq, Eq, Structural)]
pub enum EstadoSimulado {
    NaoIniciado,
    EmAndamento,
    Pausado,
    Finalizado,
    FinalizadoPorTempo,
}

/// Whether the clock still limits the attempt.
#[derive(Clone, Copy, Debug, PartialEq, Eq, Structural)]
pub enum ModoTempo {
    Cronometrado,
    Livre,
}

/// The clock of an attempt. Instants are whole seconds since the Unix epoch.
#[derive(Clone, Copy, Debug, PartialEq, Eq, Structural)]
pub struct TempoSimulado {
    /// The time limit in minutes; 0 means no limit.
    pub limite_minutos: u16,
    /// Seconds of active time, as last measured.
    pub decorrido_segundos: u32,
    /// The instant from which active time is counted.
    pub inicio: Option<i64>,
    pub pausado_em: Option<i64>,
    pub finalizado_em: Option<i64>,
}

/// Which question is open and how many are answered.
#[derive(Clone, Debug)]
pub struct ProgressoSimulado {
    /// The open question, as `Q` and its ordinal, for example `Q12`.
    pub questao_atual: String,
    pub respondidas: usize,
    pub total: usize,
}

#[derive(Clone, Copy, Debug, PartialEq, Eq, Structural)]
pub struct ConfiguracoesSimulado {
    pub permitir_ultrapassar_tempo: bool,
    pub mostrar_gabarito_ao_final: bool,
}

/// Everything that is known of one attempt.
#[derive(Clone, Debug)]
pub struct EstadoSimuladoCompleto {
    pub estado: EstadoSimulado,
    pub modo_tempo: ModoTempo,
    pub tempo: TempoSimulado,
    pub progresso: ProgressoSimulado,
    pub respostas: Respostas,
    pub configuracoes: ConfiguracoesSimulado,
}

impl EstadoSimuladoCompleto {
    /// The clock has a start instant exactly when the attempt has left
    /// `NaoIniciado`.
    pub open spec fn relogio_coerente(&self) -> bool {
        (self.estado == EstadoSimulado::NaoIniciado) != (self.tempo.inicio is Some)
    }

    /// The count of answered questions is the number of questions that are
    /// recorded with an alternative, each question recorded once.
    pub open spec fn contagem_coerente(&self) -> bool {
        self.respostas.bem_formada() && self.progresso.respondidas
            == self.respostas.respondidas_spec()
    }
}

impl EstadoSimulado {
    /// No transition leaves a terminal status.
    pub open spec fn terminal(&self) -> bool {
        *self == EstadoSimulado::Finalizado || *self == EstadoSimulado::FinalizadoPorTempo
    }

    pub fn pode_avancar(&self) -> (r: bool)
        ensures
            r == (*self == EstadoSimulado::EmAndamento),
    {
        matches!(self, Self::EmAndamento)
    }

    pub fn pode_pausar(&self) -> (r: bool)
        ensures
            r == (*self == EstadoSimulado::EmAndamento),
    {
        matches!(self, Self::EmAndamento)
    }

    pub fn pode_retomar(&self) -> (r: bool)
        ensures
            r == (*self == EstadoSimulado::Pausado),
    {
        matches!(self, Self::Pausado)
    }

    pub fn esta_ativo(&self) -> (r: bool)
        ensures
            r == (*self == EstadoSimulado::EmAndamento || *self == EstadoSimulado::Pausado),
    {
        matches!(self, Self::EmAndamento | Self::Pausado)
    }

    /// The name of the status, as text.
    pub fn nome(&self) -> (r: String)
        ensures
            r@ == self.nome_spec(),
    {
        match self {
            Self::NaoIniciado => String::from_str("NaoIniciado"),
            Self::EmAndamento => String::from_str("EmAndamento"),
            Self::Pausado => String::from_str("Pausado"),
            Self::Finalizado => String::from_str("Finalizado"),
            Self::FinalizadoPorTempo => String::from_str("FinalizadoPorTempo"),
        }
    }

    pub open spec fn nome_spec(&self) -> Seq<char> {
        match self {
            Self::NaoIniciado => "NaoIniciado"@,
            Self::EmAndamento => "EmAndamento"@,
            Self::Pausado => "Pausado"@,
            Self::Finalizado => "Finalizado"@,
            Self::FinalizadoPorTempo => "FinalizadoPorTempo"@,
        }
    }
}

/// The ordinal that progress text carries: the `Q` taken off, the rest read
/// as an unsigned number. `None` where the text has no such form.
pub open spec fn ordinal_do_progresso(id: Seq<char>) -> Option<nat> {
    if id.len() == 0 || id[0] != 'Q' {
        None
    } else {
        numero_spec(id.skip(1))
    }
}

impl ProgressoSimulado {
    /// The progress invariant: no more questions are answered than there
    /// are, and, unless the total is 0, the open question's ordinal lies in
    /// `1..=total`.
    pub open spec fn valido(&self) -> bool {
        self.respondidas <= self.total && (self.total == 0 || match ordinal_do_progresso(
            self.questao_atual@,
        ) {
            Some(n) => 1 <= n <= self.total,
            None => false,
        })
    }

    /// The complaint that `validate` makes, if any.
    pub open spec fn erro_spec(&self) -> Option<Seq<char>> {
        let id = self.questao_atual@;
        if self.total == 0 {
            if self.respondidas > 0 {
                Some("Número de questões respondidas excede o total"@)
            } else {
                None
            }
        } else if id.len() == 0 || id[0] != 'Q' {
            Some("ID da questão deve começar com 'Q'"@)
        } else if numero_spec(id.skip(1)) is None {
            Some("Número da questão inválido"@)
        } else if numero_spec(id.skip(1))->Some_0 < 1 || numero_spec(id.skip(1))->Some_0
            > self.total {
            Some(
                "Questão atual "@ + id + " fora dos limites [1, "@ + decimal_spec(
                    self.total as nat,
                ) + "]"@,
            )
        } else if self.respondidas > self.total {
            Some("Número de questões respondidas excede o total"@)
        } else {
            None
        }
    }

    /// Checks the progress invariant and says what is wrong with it.
    pub fn validate(&self) -> (r: Result<(), String>)
        ensures
            r is Ok <==> self.valido(),
            match r {
                Ok(_) => self.erro_spec() is None,
                Err(m) => self.erro_spec() == Some(m@),
            },
    {
        if self.total == 0 {
            if self.respondidas > 0 {
                return Err(String::from_str("Número de questões respondidas excede o total"));
            }
            return Ok(());
        }
        let id = self.questao_atual.as_str();
        let len = id.unicode_len();
        if len == 0 || id.get_char(0) != 'Q' {
            return Err(String::from_str("ID da questão deve começar com 'Q'"));
        }
        let numero_atual = match analisar_numero(id, 1) {
            Some(n) => n,
            None => {
                return Err(String::from_str("Número da questão inválido"));
            },
        };
        if numero_atual < 1 || numero_atual > self.total {
            let mut m = String::from_str("Questão atual ");
            m.append(id);
            m.append(" fora dos limites [1, ");
            let t = decimal(self.total as u128);
            m.append(t.as_str());
            m.append("]");
            return Err(m);
        }
        if self.respondidas > self.total {
            return Err(String::from_str("Número de questões respondidas excede o total"));
        }
        Ok(())
    }
}

impl Default for TempoSimulado {
    fn default() -> (r: Self)
        ensures
            r == (TempoSimulado {
                limite_minutos: 0,
                decorrido_segundos: 0,
                inicio: None,
                pausado_em: None,
                finalizado_em: None,
            }),
    {
        Self {
            limite_minutos: 0,
            decorrido_segundos: 0,
            inicio: None,
            pausado_em: None,
            finalizado_em: None,
        }
    }
}

impl Default for ProgressoSimulado {
    fn default() -> (r: Self)
        ensures
            r.questao_atual@ == "Q01"@,
            r.respondidas == 0,
            r.total == 0,
            r.valido(),
    {
        Self { questao_atual: String::from_str("Q01"), respondidas: 0, total: 0 }
    }
}

impl Default for ConfiguracoesSimulado {
    fn default() -> (r: Self)
        ensures
            r == (ConfiguracoesSimulado {
                permitir_ultrapassar_tempo: true,
                mostrar_gabarito_ao_final: true,
            }),
    {
        Self { permitir_ultrapassar_tempo: true, mostrar_gabarito_ao_final: true }
    }
}

impl Default for EstadoSimuladoCompleto {
    /// An attempt that has not started: no limit, the first question open,
    /// nothing answered, overrun allowed.
    fn default() -> (r: Self)
        ensures
            r.estado == EstadoSimulado::NaoIniciado,
            r.modo_tempo == ModoTempo::Cronometrado,
            r.tempo == (TempoSimulado {
                limite_minutos: 0,
                decorrido_segundos: 0,
                inicio: None,
                pausado_em: None,
                finalizado_em: None,
            }),
            r.progresso.questao_atual@ == "Q01"@,
            r.progresso.respondidas == 0,
            r.progresso.total == 0,
            r.respostas@ == Map::<Seq<char>, Option<Seq<char>>>::empty(),
            r.respostas.bem_formada(),
            r.configuracoes == (ConfiguracoesSimulado {
                permitir_ultrapassar_tempo: true,
                mostrar_gabarito_ao_final: true,
            }),
            r.progresso.valido(),
            r.relogio_coerente(),
            r.contagem_coerente(),
    {
        Self {
            estado: EstadoSimulado::NaoIniciado,
            modo_tempo: ModoTempo::Cronometrado,
            tempo: TempoSimulado::default(),
            progresso: ProgressoSimulado::default(),
            respostas: Respostas::new(),
            configuracoes: ConfiguracoesSimulado::default(),
        }
    }
}

} // verus!
