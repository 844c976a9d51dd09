//! Starting, pausing, resuming and finishing an attempt, moving between its
//! questions, recording answers, and scoring it.

use vstd::prelude::*;
use vstd::string::*;
use crate::domain::estado::{
    ConfiguracoesSimulado,
    EstadoSimulado,
    EstadoSimuladoCompleto,
    ModoTempo,
    ProgressoSimulado,
    TempoSimulado,
};
use crate::domain::prova::Prova;
use crate::domain::questao::Questao;
use crate::domain::respostas::{escolha_spec, ja_registrada, rotulo_spec};
use crate::domain::simulado::{limite_do_relogio, Simulado};
use crate::relogio::{agora, leitura_do_relogio, rfc3339, texto_rfc3339};
use crate::state::transitions::{
    finalizar_em,
    finalizar_spec,
    iniciar_em,
    pausar_em,
    pausar_spec,
    retomada_cabe,
    retomada_segura_spec,
    retomar_em,
    retomar_spec,
    verificar_expiracao_tempo_em,
    verificar_expiracao_tempo_spec,
    TransicaoErro,
};
use crate::texto::{
    analisar_numero,
    decimal_preenchido,
    decimal_preenchido_spec,
    decimal_spec,
    e_digito,
    lema_decimal,
    lema_preenchido,
    lema_zeros_iniciais,
    numero_spec,
    zeros_iniciais,
};

verus! {

/// Why an operation on an attempt was refused.
#[derive(Clone, Copy, Debug, PartialEq, Eq, Structural)]
pub enum ServicoErro {
    /// The attempt is in a status from which the operation does not start.
    EstadoInvalido,
    /// The clock of the attempt has no start instant.
    TempoNaoIniciado,
    /// The id of the open question carries no ordinal.
    QuestaoAtualInvalida,
    /// There is no question before the first.
    JaNaPrimeiraQuestao,
    /// The exam has no question with the id that the move leads to.
    QuestaoNaoEncontrada,
}

impl ServicoErro {
    pub open spec fn de_transicao(e: TransicaoErro) -> ServicoErro {
        match e {
            TransicaoErro::EstadoInvalido => ServicoErro::EstadoInvalido,
            TransicaoErro::TempoNaoIniciado => ServicoErro::TempoNaoIniciado,
        }
    }

    /// The error of a refused transition, as an error of the operation.
    pub fn from_transicao(e: TransicaoErro) -> (r: ServicoErro)
        ensures
            r == ServicoErro::de_transicao(e),
    {
        match e {
            TransicaoErro::EstadoInvalido => ServicoErro::EstadoInvalido,
            TransicaoErro::TempoNaoIniciado => ServicoErro::TempoNaoIniciado,
        }
    }

    pub open spec fn mensagem_spec(&self) -> Seq<char> {
        match self {
            ServicoErro::EstadoInvalido => "Estado inválido para esta transição"@,
            ServicoErro::TempoNaoIniciado => "Tempo não foi iniciado"@,
            ServicoErro::QuestaoAtualInvalida => "ID da questão inválido"@,
            ServicoErro::JaNaPrimeiraQuestao => "Já está na primeira questão"@,
            ServicoErro::QuestaoNaoEncontrada => "Questão não encontrada na prova"@,
        }
    }

    /// The error in words.
    pub fn mensagem(&self) -> (r: String)
        ensures
            r@ == self.mensagem_spec(),
    {
        match self {
            ServicoErro::EstadoInvalido => String::from_str("Estado inválido para esta transição"),
            ServicoErro::TempoNaoIniciado => String::from_str("Tempo não foi iniciado"),
            ServicoErro::QuestaoAtualInvalida => String::from_str("ID da questão inválido"),
            ServicoErro::JaNaPrimeiraQuestao => String::from_str("Já está na primeira questão"),
            ServicoErro::QuestaoNaoEncontrada => String::from_str(
                "Questão não encontrada na prova",
            ),
        }
    }
}

/// The ordinal of a question id: the `Q` and the zeros after it taken off,
/// what is left read as an unsigned number. `None` where the id does not
/// start with `Q`, nothing is left, or what is left writes no number.
pub open spec fn ordinal_spec(id: Seq<char>) -> Option<nat> {
    if id.len() == 0 || id[0] != 'Q' {
        None
    } else {
        let resto = id.skip(1);
        let corpo = resto.skip(zeros_iniciais(resto) as int);
        if corpo.len() == 0 {
            None
        } else {
            numero_spec(corpo)
        }
    }
}

/// Reads the ordinal of a question id.
pub fn extrair_numero_questao(questao_id: &str) -> (r: Option<usize>)
    ensures
        match r {
            Some(n) => ordinal_spec(questao_id@) == Some(n as nat),
            None => ordinal_spec(questao_id@) is None,
        },
{
    let len = questao_id.unicode_len();
    if len == 0 || questao_id.get_char(0) != 'Q' {
        return None;
    }
    let ghost resto = questao_id@.skip(1);
    let mut i: usize = 1;
    while i < len && questao_id.get_char(i) == '0'
        invariant
            1 <= i <= len,
            len == questao_id@.len(),
            resto == questao_id@.skip(1),
            forall|k: int| 0 <= k < i - 1 ==> resto[k] == '0',
        decreases len - i,
    {
        i += 1;
    }
    proof {
        lema_zeros_iniciais(resto, i - 1);
        assert(resto.skip(i - 1) =~= questao_id@.skip(i as int));
    }
    if i == len {
        return None;
    }
    analisar_numero(questao_id, i)
}

/// The id of the question with ordinal `n`, its number written with at least
/// `largura` digits.
pub open spec fn id_da_questao_spec(n: nat, largura: nat) -> Seq<char> {
    "Q"@ + decimal_preenchido_spec(n, largura)
}

/// Writes the id of the question with ordinal `n`.
pub fn id_da_questao(n: u128, largura: usize) -> (r: String)
    ensures
        r@ == id_da_questao_spec(n as nat, largura as nat),
{
    let mut id = String::from_str("Q");
    let d = decimal_preenchido(n, largura);
    id.append(d.as_str());
    id
}

/// How many digits the ids of an exam carry: as many characters as follow
/// the `Q` in the id of its first question; 2 for an exam without questions.
pub open spec fn largura_spec(prova: &Prova) -> nat {
    if prova.questoes@.len() == 0 {
        2
    } else if prova.questoes@[0].id@.len() == 0 {
        0
    } else {
        (prova.questoes@[0].id@.len() - 1) as nat
    }
}

/// Computes `largura_spec`.
pub fn largura_dos_ids(prova: &Prova) -> (r: usize)
    ensures
        r == largura_spec(prova),
{
    if prova.questoes.len() == 0 {
        2
    } else {
        let len = prova.questoes[0].id.as_str().unicode_len();
        if len == 0 {
            0
        } else {
            len - 1
        }
    }
}

/// The ordinal from which a move back starts. The exam is not needed to
/// tell: the open question must carry an ordinal, and one above 1.
pub open spec fn origem_da_volta_spec(atual: Seq<char>) -> Result<nat, ServicoErro> {
    match ordinal_spec(atual) {
        None => Err(ServicoErro::QuestaoAtualInvalida),
        Some(n) => if n <= 1 {
            Err(ServicoErro::JaNaPrimeiraQuestao)
        } else {
            Ok(n)
        },
    }
}

/// The ordinal from which a move forward starts: the open question must
/// carry one.
pub open spec fn origem_do_avanco_spec(atual: Seq<char>) -> Result<nat, ServicoErro> {
    match ordinal_spec(atual) {
        None => Err(ServicoErro::QuestaoAtualInvalida),
        Some(n) => Ok(n),
    }
}

/// Where a move to the question before the open one leads: the id of the
/// question with the ordinal before, written as the exam writes its ids.
pub open spec fn anterior_spec(atual: Seq<char>, prova: &Prova) -> Result<Seq<char>, ServicoErro> {
    match origem_da_volta_spec(atual) {
        Err(e) => Err(e),
        Ok(n) => {
            let alvo = id_da_questao_spec((n - 1) as nat, largura_spec(prova));
            if prova.tem_questao_spec(alvo) {
                Ok(alvo)
            } else {
                Err(ServicoErro::QuestaoNaoEncontrada)
            }
        },
    }
}

/// Where a move to the question after the open one leads.
pub open spec fn proxima_spec(atual: Seq<char>, prova: &Prova) -> Result<Seq<char>, ServicoErro> {
    match origem_do_avanco_spec(atual) {
        Err(e) => Err(e),
        Ok(n) => {
            let alvo = id_da_questao_spec(n + 1, largura_spec(prova));
            if prova.tem_questao_spec(alvo) {
                Ok(alvo)
            } else {
                Err(ServicoErro::QuestaoNaoEncontrada)
            }
        },
    }
}

/// Tells, before the exam is at hand, whether the attempt can move back at
/// all, and from which ordinal.
pub fn origem_da_volta(simulado: &Simulado) -> (r: Result<usize, ServicoErro>)
    ensures
        match r {
            Ok(n) => origem_da_volta_spec(simulado.estado_completo.progresso.questao_atual@)
                == Ok::<nat, ServicoErro>(n as nat),
            Err(e) => origem_da_volta_spec(simulado.estado_completo.progresso.questao_atual@)
                == Err::<nat, ServicoErro>(e),
        },
{
    match extrair_numero_questao(simulado.estado_completo.progresso.questao_atual.as_str()) {
        None => Err(ServicoErro::QuestaoAtualInvalida),
        Some(n) => if n <= 1 {
            Err(ServicoErro::JaNaPrimeiraQuestao)
        } else {
            Ok(n)
        },
    }
}

/// Tells, before the exam is at hand, whether the attempt can move forward
/// at all, and from which ordinal.
pub fn origem_do_avanco(simulado: &Simulado) -> (r: Result<usize, ServicoErro>)
    ensures
        match r {
            Ok(n) => origem_do_avanco_spec(simulado.estado_completo.progresso.questao_atual@)
                == Ok::<nat, ServicoErro>(n as nat),
            Err(e) => origem_do_avanco_spec(simulado.estado_completo.progresso.questao_atual@)
                == Err::<nat, ServicoErro>(e),
        },
{
    match extrair_numero_questao(simulado.estado_completo.progresso.questao_atual.as_str()) {
        None => Err(ServicoErro::QuestaoAtualInvalida),
        Some(n) => Ok(n),
    }
}

/// The record `antes` with another question open and nothing else changed.
pub open spec fn com_questao_atual(antes: Simulado, depois: Simulado) -> bool {
    depois == (Simulado {
        estado_completo: EstadoSimuladoCompleto {
            progresso: ProgressoSimulado {
                questao_atual: depois.estado_completo.progresso.questao_atual,
                ..antes.estado_completo.progresso
            },
            ..antes.estado_completo
        },
        ..antes
    })
}

/// What a move between questions did, given where it had to lead: on
/// success the question it leads to is open and nothing else has changed, on
/// refusal the error is reported and the record is untouched.
pub open spec fn moveu(
    r: Result<(), ServicoErro>,
    antes: Simulado,
    depois: Simulado,
    devido: Result<Seq<char>, ServicoErro>,
) -> bool {
    match devido {
        Ok(alvo) => {
            &&& r is Ok
            &&& depois.estado_completo.progresso.questao_atual@ == alvo
            &&& com_questao_atual(antes, depois)
        },
        Err(e) => r == Err::<(), ServicoErro>(e) && depois == antes,
    }
}

/// Opens the question before the open one. `prova` is the exam that the
/// attempt is taken on.
pub fn voltar_questao(simulado: &mut Simulado, prova: &Prova) -> (r: Result<(), ServicoErro>)
    ensures
        moveu(
            r,
            *old(simulado),
            *final(simulado),
            anterior_spec(old(simulado).estado_completo.progresso.questao_atual@, prova),
        ),
{
    let atual_numero = match origem_da_volta(simulado) {
        Ok(n) => n,
        Err(e) => {
            return Err(e);
        },
    };
    let questao_anterior = id_da_questao((atual_numero - 1) as u128, largura_dos_ids(prova));
    if !prova.tem_questao(questao_anterior.as_str()) {
        return Err(ServicoErro::QuestaoNaoEncontrada);
    }
    simulado.estado_completo.progresso.questao_atual = questao_anterior;
    Ok(())
}

/// Opens the question after the open one. `prova` is the exam that the
/// attempt is taken on.
pub fn avancar_questao(simulado: &mut Simulado, prova: &Prova) -> (r: Result<(), ServicoErro>)
    ensures
        moveu(
            r,
            *old(simulado),
            *final(simulado),
            proxima_spec(old(simulado).estado_completo.progresso.questao_atual@, prova),
        ),
{
    let atual_numero = match origem_do_avanco(simulado) {
        Ok(n) => n,
        Err(e) => {
            return Err(e);
        },
    };
    let proxima_questao = id_da_questao(atual_numero as u128 + 1, largura_dos_ids(prova));
    if !prova.tem_questao(proxima_questao.as_str()) {
        return Err(ServicoErro::QuestaoNaoEncontrada);
    }
    simulado.estado_completo.progresso.questao_atual = proxima_questao;
    Ok(())
}

/// Writing and reading agree: the id written for an ordinal from 1 up that
/// fits a `usize` carries that ordinal, whatever the width.
pub proof fn lema_id_ida_e_volta(n: nat, largura: nat)
    requires
        1 <= n <= usize::MAX,
    ensures
        ordinal_spec(id_da_questao_spec(n, largura)) == Some(n),
{
    reveal_strlit("Q");
    let p = decimal_preenchido_spec(n, largura);
    let id = id_da_questao_spec(n, largura);
    lema_decimal(n);
    lema_preenchido(n, largura);
    assert(id[0] == 'Q');
    assert(id.skip(1) =~= p);
    let d = decimal_spec(n);
    assert(d[0] != '+') by {
        assert(e_digito(d[0]));
    }
}

/// A move that succeeds opens a question of the exam, and where the ordinal
/// it leads to fits a `usize`, the question opened carries that ordinal: one
/// more than the open question's on the way forward, one less on the way
/// back.
pub proof fn lema_vizinha(atual: Seq<char>, prova: &Prova)
    ensures
        proxima_spec(atual, prova) is Ok ==> {
            &&& ordinal_spec(atual) is Some
            &&& prova.tem_questao_spec(proxima_spec(atual, prova)->Ok_0)
            &&& ordinal_spec(atual)->Some_0 < usize::MAX ==> ordinal_spec(
                proxima_spec(atual, prova)->Ok_0,
            ) == Some(ordinal_spec(atual)->Some_0 + 1)
        },
        anterior_spec(atual, prova) is Ok ==> {
            &&& ordinal_spec(atual) is Some
            &&& ordinal_spec(atual)->Some_0 >= 2
            &&& prova.tem_questao_spec(anterior_spec(atual, prova)->Ok_0)
            &&& ordinal_spec(anterior_spec(atual, prova)->Ok_0) == Some(
                (ordinal_spec(atual)->Some_0 - 1) as nat,
            )
        },
{
    if proxima_spec(atual, prova) is Ok {
        let n = ordinal_spec(atual)->Some_0;
        if n < usize::MAX {
            lema_id_ida_e_volta(n + 1, largura_spec(prova));
        }
    }
    if anterior_spec(atual, prova) is Ok {
        let n = ordinal_spec(atual)->Some_0;
        lema_ordinal_cabe(atual);
        lema_id_ida_e_volta((n - 1) as nat, largura_spec(prova));
    }
}

/// An ordinal read from an id fits a `usize`.
pub proof fn lema_ordinal_cabe(id: Seq<char>)
    ensures
        ordinal_spec(id) is Some ==> ordinal_spec(id)->Some_0 <= usize::MAX,
{
}

/// The count of answered questions after an answer is recorded: one more
/// where the question becomes answered, one less (never below 0) where it
/// becomes unanswered, else the same.
pub open spec fn respondidas_apos(respondidas: int, era_respondida: bool, fica_respondida: bool) -> int {
    if !era_respondida && fica_respondida {
        respondidas + 1
    } else if era_respondida && !fica_respondida {
        if respondidas == 0 {
            0
        } else {
            respondidas - 1
        }
    } else {
        respondidas
    }
}

/// The record `antes` with other answers and another count of answered
/// questions, and nothing else changed.
pub open spec fn com_respostas(antes: Simulado, depois: Simulado) -> bool {
    depois == (Simulado {
        estado_completo: EstadoSimuladoCompleto {
            progresso: ProgressoSimulado {
                respondidas: depois.estado_completo.progresso.respondidas,
                ..antes.estado_completo.progresso
            },
            respostas: depois.estado_completo.respostas,
            ..antes.estado_completo
        },
        ..antes
    })
}

/// Records the alternative chosen for a question, or with `None` that the
/// question has no answer, and keeps the count of answered questions.
pub fn registrar_resposta(
    simulado: &mut Simulado,
    questao_id: String,
    alternativa: Option<String>,
)
    requires
        escolha_spec(old(simulado).estado_completo.respostas@, questao_id@) is None
            && alternativa is Some ==> old(simulado).estado_completo.progresso.respondidas
            < usize::MAX,
    ensures
        final(simulado).estado_completo.respostas@ == old(simulado).estado_completo.respostas@.insert(questao_id@, rotulo_spec(alternativa)),
        ja_registrada(old(simulado).estado_completo.respostas@, questao_id@, rotulo_spec(alternativa))
            ==> final(simulado).estado_completo.respostas@ == old(simulado).estado_completo.respostas@ && final(simulado).estado_completo.progresso.respondidas
            == old(simulado).estado_completo.progresso.respondidas,
        final(simulado).estado_completo.progresso.respondidas == respondidas_apos(
            old(simulado).estado_completo.progresso.respondidas as int,
            escolha_spec(old(simulado).estado_completo.respostas@, questao_id@) is Some,
            alternativa is Some,
        ),
        old(simulado).estado_completo.respostas.bem_formada() ==> final(simulado).estado_completo.respostas.bem_formada(),
        old(simulado).estado_completo.contagem_coerente() ==> final(simulado).estado_completo.contagem_coerente(),
        com_respostas(*old(simulado), *final(simulado)),
{
    let era_respondida = simulado.estado_completo.respostas.alternativa(
        questao_id.as_str(),
    ).is_some();
    let agora_respondida = alternativa.is_some();
    if !era_respondida && agora_respondida {
        simulado.estado_completo.progresso.respondidas += 1;
    } else if era_respondida && !agora_respondida {
        if simulado.estado_completo.progresso.respondidas > 0 {
            simulado.estado_completo.progresso.respondidas -= 1;
        }
    }
    simulado.estado_completo.respostas.inserir(questao_id, alternativa);
}

/// Recording the same answer twice in a row changes the count of answered
/// questions at most once: after the first time the answer is on record, so
/// the second time is admitted whatever the count, and the count and the
/// answers stay.
pub proof fn lema_registro_repetido(
    respondidas: int,
    respostas: Map<Seq<char>, Option<Seq<char>>>,
    questao_id: Seq<char>,
    alternativa: Option<Seq<char>>,
)
    ensures
        ({
            let uma = respondidas_apos(
                respondidas,
                escolha_spec(respostas, questao_id) is Some,
                alternativa is Some,
            );
            let depois = respostas.insert(questao_id, alternativa);
            &&& respondidas_apos(
                uma,
                escolha_spec(depois, questao_id) is Some,
                alternativa is Some,
            ) == uma
            &&& depois.insert(questao_id, alternativa) == depois
            &&& ja_registrada(depois, questao_id, alternativa)
            &&& !(escolha_spec(depois, questao_id) is None && alternativa is Some)
        }),
{
    let depois = respostas.insert(questao_id, alternativa);
    assert(depois.insert(questao_id, alternativa) =~= depois);
}

/// A record that was made for an exam and started at `agora`.
pub open spec fn e_iniciado(
    s: Simulado,
    prova_id: Seq<char>,
    vestibular: Seq<char>,
    ano: i32,
    duracao_minutos: i32,
    agora: i64,
) -> bool {
    &&& s.id == 0
    &&& s.prova_id@ == prova_id
    &&& s.vestibular@ == vestibular
    &&& s.ano == ano
    &&& s.tempo_limite == duracao_minutos
    &&& s.iniciado_em == Some(agora)
    &&& s.finalizado_em is None
    &&& s.estado_completo.estado == EstadoSimulado::EmAndamento
    &&& s.estado_completo.modo_tempo == ModoTempo::Cronometrado
    &&& s.estado_completo.tempo == (TempoSimulado {
        limite_minutos: limite_do_relogio(duracao_minutos),
        decorrido_segundos: 0,
        inicio: Some(agora),
        pausado_em: None,
        finalizado_em: None,
    })
    &&& s.estado_completo.progresso.questao_atual@ == "Q01"@
    &&& s.estado_completo.progresso.respondidas == 0
    &&& s.estado_completo.progresso.total == 0
    &&& s.estado_completo.respostas@ == Map::<Seq<char>, Option<Seq<char>>>::empty()
    &&& s.estado_completo.respostas.bem_formada()
    &&& s.estado_completo.contagem_coerente()
    &&& s.estado_completo.configuracoes == (ConfiguracoesSimulado {
        permitir_ultrapassar_tempo: true,
        mostrar_gabarito_ao_final: true,
    })
}

/// Makes the record of an attempt that starts at the instant `agora`. The
/// caller stores it, which gives it its id.
pub fn iniciar_simulado_em(
    prova_id: String,
    vestibular: String,
    ano: i32,
    duracao_minutos: i32,
    agora: i64,
) -> (r: Simulado)
    ensures
        e_iniciado(r, prova_id@, vestibular@, ano, duracao_minutos, agora),
{
    let mut simulado = Simulado::novo(prova_id, vestibular, ano, duracao_minutos);
    let iniciado = iniciar_em(&mut simulado.estado_completo, agora);
    assert(iniciado is Ok);
    simulado.iniciado_em = Some(agora);
    simulado
}

/// Makes the record of an attempt that starts at the instant that the clock
/// reads.
pub fn iniciar_simulado(prova_id: String, vestibular: String, ano: i32, duracao_minutos: i32) -> (r:
    Simulado)
    ensures
        exists|agora: i64| #[trigger]
            leitura_do_relogio(agora) && e_iniciado(
                r,
                prova_id@,
                vestibular@,
                ano,
                duracao_minutos,
                agora,
            ),
{
    let t = agora();
    iniciar_simulado_em(prova_id, vestibular, ano, duracao_minutos, t)
}

/// What an operation that moves the state machine did, given what the
/// transition had to do: on success the record carries the new state and
/// nothing else has changed, on refusal the error is reported and the record
/// is untouched.
pub open spec fn aplicou(
    r: Result<(), ServicoErro>,
    antes: Simulado,
    depois: Simulado,
    devido: Result<EstadoSimuladoCompleto, TransicaoErro>,
) -> bool {
    match devido {
        Ok(s) => r is Ok && depois == (Simulado { estado_completo: s, ..antes }),
        Err(e) => r == Err::<(), ServicoErro>(ServicoErro::de_transicao(e)) && depois == antes,
    }
}

/// Pauses the attempt at the instant `agora`.
pub fn pausar_simulado_em(simulado: &mut Simulado, agora: i64) -> (r: Result<(), ServicoErro>)
    ensures
        aplicou(
            r,
            *old(simulado),
            *final(simulado),
            pausar_spec(old(simulado).estado_completo, agora),
        ),
{
    match pausar_em(&mut simulado.estado_completo, agora) {
        Ok(_) => Ok(()),
        Err(e) => Err(ServicoErro::from_transicao(e)),
    }
}

/// Pauses the attempt at the instant that the clock reads.
pub fn pausar_simulado(simulado: &mut Simulado) -> (r: Result<(), ServicoErro>)
    ensures
        exists|agora: i64| #[trigger]
            leitura_do_relogio(agora) && aplicou(
                r,
                *old(simulado),
                *final(simulado),
                pausar_spec(old(simulado).estado_completo, agora),
            ),
{
    let t = agora();
    pausar_simulado_em(simulado, t)
}

/// What resuming has to do: an attempt whose clock has no start instant is
/// refused before anything else is looked at.
pub open spec fn retomar_simulado_spec(s: EstadoSimuladoCompleto, agora: i64) -> Result<
    EstadoSimuladoCompleto,
    TransicaoErro,
> {
    if s.tempo.inicio is None {
        Err(TransicaoErro::TempoNaoIniciado)
    } else {
        retomar_spec(s, agora)
    }
}

/// Resumes the attempt at the instant `agora`.
pub fn retomar_simulado_em(simulado: &mut Simulado, agora: i64) -> (r: Result<(), ServicoErro>)
    requires
        old(simulado).estado_completo.estado == EstadoSimulado::Pausado ==> retomada_cabe(
            old(simulado).estado_completo.tempo,
            agora,
        ),
    ensures
        aplicou(
            r,
            *old(simulado),
            *final(simulado),
            retomar_simulado_spec(old(simulado).estado_completo, agora),
        ),
{
    if simulado.estado_completo.tempo.inicio.is_none() {
        return Err(ServicoErro::TempoNaoIniciado);
    }
    match retomar_em(&mut simulado.estado_completo, agora) {
        Ok(_) => Ok(()),
        Err(e) => Err(ServicoErro::from_transicao(e)),
    }
}

/// Resumes the attempt at the instant that the clock reads.
pub fn retomar_simulado(simulado: &mut Simulado) -> (r: Result<(), ServicoErro>)
    requires
        old(simulado).estado_completo.estado == EstadoSimulado::Pausado ==> retomada_segura_spec(
            old(simulado).estado_completo.tempo,
        ),
    ensures
        exists|agora: i64| #[trigger]
            leitura_do_relogio(agora) && aplicou(
                r,
                *old(simulado),
                *final(simulado),
                retomar_simulado_spec(old(simulado).estado_completo, agora),
            ),
{
    let t = agora();
    retomar_simulado_em(simulado, t)
}

/// What finishing did, given what the transition had to do: on success the
/// record carries the new state and `agora` as the instant it was finished.
pub open spec fn finalizou(
    r: Result<(), ServicoErro>,
    antes: Simulado,
    depois: Simulado,
    devido: Result<EstadoSimuladoCompleto, TransicaoErro>,
    agora: i64,
) -> bool {
    match devido {
        Ok(s) => r is Ok && depois == (Simulado {
            estado_completo: s,
            finalizado_em: Some(agora),
            ..antes
        }),
        Err(e) => r == Err::<(), ServicoErro>(ServicoErro::de_transicao(e)) && depois == antes,
    }
}

/// Finishes the attempt at the instant `agora`.
pub fn finalizar_simulado_em(simulado: &mut Simulado, agora: i64) -> (r: Result<(), ServicoErro>)
    ensures
        finalizou(
            r,
            *old(simulado),
            *final(simulado),
            finalizar_spec(old(simulado).estado_completo, agora),
            agora,
        ),
{
    match finalizar_em(&mut simulado.estado_completo, agora) {
        Ok(_) => {
            simulado.finalizado_em = Some(agora);
            Ok(())
        },
        Err(e) => Err(ServicoErro::from_transicao(e)),
    }
}

/// Finishes the attempt at the instant that the clock reads.
pub fn finalizar_simulado(simulado: &mut Simulado) -> (r: Result<(), ServicoErro>)
    ensures
        exists|agora: i64| #[trigger]
            leitura_do_relogio(agora) && finalizou(
                r,
                *old(simulado),
                *final(simulado),
                finalizar_spec(old(simulado).estado_completo, agora),
                agora,
            ),
{
    let t = agora();
    finalizar_simulado_em(simulado, t)
}

/// Brings the measured time of the attempt up to the instant `agora`, by the
/// expiry check: the one place where active time is computed.
pub fn atualizar_tempo_em(simulado: &mut Simulado, agora: i64) -> (r: Result<(), ServicoErro>)
    ensures
        aplicou(
            r,
            *old(simulado),
            *final(simulado),
            verificar_expiracao_tempo_spec(old(simulado).estado_completo, agora),
        ),
{
    match verificar_expiracao_tempo_em(&mut simulado.estado_completo, agora) {
        Ok(_) => Ok(()),
        Err(e) => Err(ServicoErro::from_transicao(e)),
    }
}

/// Brings the measured time of the attempt up to the instant that the clock
/// reads.
pub fn atualizar_tempo(simulado: &mut Simulado) -> (r: Result<(), ServicoErro>)
    ensures
        exists|agora: i64| #[trigger]
            leitura_do_relogio(agora) && aplicou(
                r,
                *old(simulado),
                *final(simulado),
                verificar_expiracao_tempo_spec(old(simulado).estado_completo, agora),
            ),
{
    let t = agora();
    atualizar_tempo_em(simulado, t)
}

/// The state of the attempt, as it is.
pub fn obter_estado(simulado: &Simulado) -> (r: &EstadoSimuladoCompleto)
    ensures
        *r == simulado.estado_completo,
{
    simulado.estado()
}

/// How one question was answered, held against the answer key.
#[derive(Clone, Debug, PartialEq, Eq)]
pub struct DetalheQuestao {
    pub questao_id: String,
    pub numero: u32,
    /// The alternative chosen, if any.
    pub resposta_usuario: Option<String>,
    /// The correct alternative.
    pub gabarito: String,
    pub acertou: bool,
}

/// `DetalheQuestao` with its texts as sequences of characters.
pub struct DetalheVista {
    pub questao_id: Seq<char>,
    pub numero: u32,
    pub resposta_usuario: Option<Seq<char>>,
    pub gabarito: Seq<char>,
    pub acertou: bool,
}

impl View for DetalheQuestao {
    type V = DetalheVista;

    open spec fn view(&self) -> DetalheVista {
        DetalheVista {
            questao_id: self.questao_id@,
            numero: self.numero,
            resposta_usuario: rotulo_spec(self.resposta_usuario),
            gabarito: self.gabarito@,
            acertou: self.acertou,
        }
    }
}

/// The score of an attempt. The percentage is `acertos` over
/// `total_questoes`, times 100, and 0 for an exam without questions.
#[derive(Clone, Debug, PartialEq, Eq)]
pub struct ResultadoSimulado {
    pub total_questoes: usize,
    pub acertos: usize,
    pub erros: usize,
    /// One entry for each question, in the order of the exam.
    pub detalhes: Vec<DetalheQuestao>,
}

/// `ResultadoSimulado` with its details as a sequence of their views.
pub struct ResultadoVista {
    pub total_questoes: usize,
    pub acertos: usize,
    pub erros: usize,
    pub detalhes: Seq<DetalheVista>,
}

impl View for ResultadoSimulado {
    type V = ResultadoVista;

    open spec fn view(&self) -> ResultadoVista {
        ResultadoVista {
            total_questoes: self.total_questoes,
            acertos: self.acertos,
            erros: self.erros,
            detalhes: Seq::new(self.detalhes@.len(), |i: int| self.detalhes@[i]@),
        }
    }
}

/// A question is answered correctly where an alternative was chosen for it
/// and its label is, character for character, that of the correct one.
pub open spec fn acertou_spec(respostas: Map<Seq<char>, Option<Seq<char>>>, q: Questao) -> bool {
    escolha_spec(respostas, q.id@) == Some(q.resposta_correta@)
}

/// The detail of one question.
pub open spec fn detalhe_spec(
    respostas: Map<Seq<char>, Option<Seq<char>>>,
    q: Questao,
) -> DetalheVista {
    DetalheVista {
        questao_id: q.id@,
        numero: q.numero,
        resposta_usuario: escolha_spec(respostas, q.id@),
        gabarito: q.resposta_correta@,
        acertou: acertou_spec(respostas, q),
    }
}

/// How many of the first `n` questions are answered correctly.
pub open spec fn acertos_spec(
    respostas: Map<Seq<char>, Option<Seq<char>>>,
    qs: Seq<Questao>,
    n: nat,
) -> nat
    decreases n,
{
    if n == 0 {
        0
    } else {
        acertos_spec(respostas, qs, (n - 1) as nat) + if acertou_spec(respostas, qs[n - 1]) {
            1nat
        } else {
            0nat
        }
    }
}

/// The score of a set of answers on an exam whose count of questions is the
/// one it declares.
pub open spec fn resultado_spec(
    respostas: Map<Seq<char>, Option<Seq<char>>>,
    prova: &Prova,
) -> ResultadoVista {
    let qs = prova.questoes@;
    let acertos = acertos_spec(respostas, qs, qs.len());
    ResultadoVista {
        total_questoes: prova.total_questoes,
        acertos: acertos as usize,
        erros: (prova.total_questoes - acertos) as usize,
        detalhes: Seq::new(qs.len(), |i: int| detalhe_spec(respostas, qs[i])),
    }
}

/// Scores the attempt against the answer key of the exam. Neither is
/// changed.
pub fn calcular_resultado(simulado: &Simulado, prova: &Prova) -> (r: ResultadoSimulado)
    requires
        prova.questoes@.len() == prova.total_questoes,
    ensures
        r@ == resultado_spec(simulado.estado_completo.respostas@, prova),
        r.detalhes@.len() == prova.questoes@.len(),
        r.acertos + r.erros == r.total_questoes,
{
    let respostas = &simulado.estado_completo.respostas;
    let mut acertos: usize = 0;
    let mut detalhes: Vec<DetalheQuestao> = Vec::new();
    let n = prova.questoes.len();
    let mut i: usize = 0;
    while i < n
        invariant
            i <= n,
            n == prova.questoes@.len(),
            acertos == acertos_spec(respostas@, prova.questoes@, i as nat),
            acertos <= i,
            detalhes@.len() == i,
            forall|k: int|
                0 <= k < i ==> (#[trigger] detalhes@[k])@ == detalhe_spec(
                    respostas@,
                    prova.questoes@[k],
                ),
        decreases n - i,
    {
        let questao = &prova.questoes[i];
        let escolha = respostas.alternativa(questao.id.as_str());
        let (resposta_usuario, acertou) = match escolha {
            Some(a) => (Some(a.clone()), *a == questao.resposta_correta),
            None => (None, false),
        };
        if acertou {
            acertos += 1;
        }
        detalhes.push(
            DetalheQuestao {
                questao_id: questao.id.clone(),
                numero: questao.numero,
                resposta_usuario,
                gabarito: questao.resposta_correta.clone(),
                acertou,
            },
        );
        i += 1;
    }
    let total = prova.total_questoes;
    let erros = total - acertos;
    let r = ResultadoSimulado { total_questoes: total, acertos, erros, detalhes };
    assert(r@.detalhes =~= resultado_spec(respostas@, prova).detalhes);
    r
}

/// Scoring is a function of the answers and the exam: two results for the
/// same answers and the same exam are the same.
pub proof fn lema_resultado_determinado(
    a: ResultadoSimulado,
    b: ResultadoSimulado,
    respostas: Map<Seq<char>, Option<Seq<char>>>,
    prova: &Prova,
)
    requires
        a@ == resultado_spec(respostas, prova),
        b@ == resultado_spec(respostas, prova),
    ensures
        a@ == b@,
{
}

/// One line of the list of attempts.
#[derive(Clone, Debug, PartialEq, Eq)]
pub struct SimuladoResumo {
    pub id: i64,
    pub vestibular: String,
    pub ano: i32,
    /// The instant the attempt was started, as RFC 3339 text.
    pub iniciado_em: Option<String>,
    /// The name of the status.
    pub estado: String,
}

/// Whether `r` is the line for the attempt `s`, given the text of its start.
pub open spec fn e_resumo_de(r: SimuladoResumo, s: Simulado, iniciado_em: Option<Seq<char>>) -> bool {
    &&& r.id == s.id
    &&& r.vestibular@ == s.vestibular@
    &&& r.ano == s.ano
    &&& rotulo_spec(r.iniciado_em) == iniciado_em
    &&& r.estado@ == s.estado_completo.estado.nome_spec()
}

/// The text of the start of an attempt: none for one that has no start
/// instant, or whose start instant is beyond the calendar.
pub open spec fn texto_do_inicio(s: Simulado) -> Option<Seq<char>> {
    match s.iniciado_em {
        Some(t) => texto_rfc3339(t),
        None => None,
    }
}

/// Makes the line for an attempt from the text of its start.
pub fn resumir(simulado: &Simulado, iniciado_em: Option<String>) -> (r: SimuladoResumo)
    ensures
        e_resumo_de(r, *simulado, rotulo_spec(iniciado_em)),
{
    SimuladoResumo {
        id: simulado.id,
        vestibular: simulado.vestibular.clone(),
        ano: simulado.ano,
        iniciado_em,
        estado: simulado.estado_completo.estado.nome(),
    }
}

/// Lists the attempts: one line for each, in the order given.
pub fn listar_simulados(todos: &Vec<Simulado>) -> (r: Vec<SimuladoResumo>)
    ensures
        r@.len() == todos@.len(),
        forall|i: int|
            0 <= i < r@.len() ==> e_resumo_de(
                #[trigger] r@[i],
                todos@[i],
                texto_do_inicio(todos@[i]),
            ),
{
    let mut resumos: Vec<SimuladoResumo> = Vec::new();
    let mut i: usize = 0;
    while i < todos.len()
        invariant
            i <= todos@.len(),
            resumos@.len() == i,
            forall|k: int|
                0 <= k < i ==> e_resumo_de(
                    #[trigger] resumos@[k],
                    todos@[k],
                    texto_do_inicio(todos@[k]),
                ),
        decreases todos@.len() - i,
    {
        let sim = &todos[i];
        let iniciado_em = match sim.iniciado_em {
            Some(t) => rfc3339(t),
            None => None,
        };
        resumos.push(resumir(sim, iniciado_em));
        i += 1;
    }
    resumos
}

} // verus!
