//! An exam: its questions in order, with the answer key.

use vstd::prelude::*;
use vstd::string::*;
use crate::domain::questao::Questao;
use crate::texto::{decimal, decimal_spec};

verus! {

/// What is wrong with an exam.
#[derive(Clone, Debug, PartialEq, Eq)]
#[allow(inconsistent_fields)]
pub enum ProvaError {
    UnsupportedSchema(String),
    InconsistentQuestionCount { expected: usize, actual: usize },
    InvalidQuestionId(String),
    DuplicateQuestionId(String),
    QuestionNumberMismatch { expected: u32, actual: u32, id: String },
}

/// `ProvaError` with its texts as sequences of characters.
#[allow(inconsistent_fields)]
pub enum FalhaDeProva {
    UnsupportedSchema(Seq<char>),
    InconsistentQuestionCount { expected: usize, actual: usize },
    InvalidQuestionId(Seq<char>),
    DuplicateQuestionId(Seq<char>),
    QuestionNumberMismatch { expected: u32, actual: u32, id: Seq<char> },
}

impl View for ProvaError {
    type V = FalhaDeProva;

    open spec fn view(&self) -> FalhaDeProva {
        match self {
            ProvaError::UnsupportedSchema(s) => FalhaDeProva::UnsupportedSchema(s@),
            ProvaError::InconsistentQuestionCount { expected, actual } => {
                FalhaDeProva::InconsistentQuestionCount { expected: *expected, actual: *actual }
            },
            ProvaError::InvalidQuestionId(s) => FalhaDeProva::InvalidQuestionId(s@),
            ProvaError::DuplicateQuestionId(s) => FalhaDeProva::DuplicateQuestionId(s@),
            ProvaError::QuestionNumberMismatch { expected, actual, id } => {
                FalhaDeProva::QuestionNumberMismatch {
                    expected: *expected,
                    actual: *actual,
                    id: id@,
                }
            },
        }
    }
}

impl FalhaDeProva {
    /// The failure in words.
    pub open spec fn mensagem_spec(self) -> Seq<char> {
        match self {
            FalhaDeProva::UnsupportedSchema(s) => "Versão de schema não suportada: "@ + s
                + ". Use '1.0'."@,
            FalhaDeProva::InconsistentQuestionCount { expected, actual } => {
                "Número de questões inconsistente: esperado "@ + decimal_spec(expected as nat)
                    + ", encontrado "@ + decimal_spec(actual as nat)
            },
            FalhaDeProva::InvalidQuestionId(s) => "ID de questão inválido: "@ + s
                + ". Deve estar no formato Q01, Q02, etc."@,
            FalhaDeProva::DuplicateQuestionId(s) => "ID de questão duplicado: "@ + s,
            FalhaDeProva::QuestionNumberMismatch { expected, actual, id } => {
                "Número da questão "@ + id + " inconsistente: esperado "@ + decimal_spec(
                    expected as nat,
                ) + ", encontrado "@ + decimal_spec(actual as nat)
            },
        }
    }
}

impl ProvaError {
    /// The error in words.
    pub fn mensagem(&self) -> (r: String)
        ensures
            r@ == self@.mensagem_spec(),
    {
        match self {
            ProvaError::UnsupportedSchema(s) => {
                let mut m = String::from_str("Versão de schema não suportada: ");
                m.append(s.as_str());
                m.append(". Use '1.0'.");
                m
            },
            ProvaError::InconsistentQuestionCount { expected, actual } => {
                let mut m = String::from_str("Número de questões inconsistente: esperado ");
                let e = decimal(*expected as u128);
                m.append(e.as_str());
                m.append(", encontrado ");
                let a = decimal(*actual as u128);
                m.append(a.as_str());
                m
            },
            ProvaError::InvalidQuestionId(s) => {
                let mut m = String::from_str("ID de questão inválido: ");
                m.append(s.as_str());
                m.append(". Deve estar no formato Q01, Q02, etc.");
                m
            },
            ProvaError::DuplicateQuestionId(s) => {
                let mut m = String::from_str("ID de questão duplicado: ");
                m.append(s.as_str());
                m
            },
            ProvaError::QuestionNumberMismatch { expected, actual, id } => {
                let mut m = String::from_str("Número da questão ");
                m.append(id.as_str());
                m.append(" inconsistente: esperado ");
                let e = decimal(*expected as u128);
                m.append(e.as_str());
                m.append(", encontrado ");
                let a = decimal(*actual as u128);
                m.append(a.as_str());
                m
            },
        }
    }
}

#[derive(Clone, Debug)]
pub struct Prova {
    pub schema_version: String,
    pub content_version: String,
    /// The name of the exam series.
    pub vestibular: String,
    pub ano: u16,
    /// The day of the exam, where it has more than one.
    pub dia: Option<u8>,
    pub duracao_minutos: u16,
    /// How many questions the exam says it has.
    pub total_questoes: usize,
    pub questoes: Vec<Questao>,
}

/// A question id must be `Q` and at least one more character.
pub open spec fn id_malformado(id: Seq<char>) -> bool {
    id.len() < 2 || id[0] != 'Q'
}

/// What is wrong with the question at index `i`, given those before it: a
/// malformed id, an id that an earlier question has, or a number that is not
/// the position counted from 1; in this order.
pub open spec fn falha_da_questao(qs: Seq<Questao>, i: int) -> Option<FalhaDeProva> {
    let q = qs[i];
    if id_malformado(q.id@) {
        Some(FalhaDeProva::InvalidQuestionId(q.id@))
    } else if exists|j: int| 0 <= j < i && (#[trigger] qs[j]).id@ == q.id@ {
        Some(FalhaDeProva::DuplicateQuestionId(q.id@))
    } else if q.numero != (i + 1) as u32 {
        Some(
            FalhaDeProva::QuestionNumberMismatch {
                expected: (i + 1) as u32,
                actual: q.numero,
                id: q.id@,
            },
        )
    } else {
        None
    }
}

/// The failure of the first faulty question among the first `n`.
pub open spec fn falha_ate(qs: Seq<Questao>, n: nat) -> Option<FalhaDeProva>
    decreases n,
{
    if n == 0 {
        None
    } else {
        match falha_ate(qs, (n - 1) as nat) {
            Some(f) => Some(f),
            None => falha_da_questao(qs, n - 1),
        }
    }
}

/// Once a question is faulty, looking at more questions changes nothing.
pub proof fn lema_falha_fica(qs: Seq<Questao>, k: nat, n: nat)
    requires
        k <= n,
        falha_ate(qs, k) is Some,
    ensures
        falha_ate(qs, n) == falha_ate(qs, k),
    decreases n,
{
    if n > k {
        lema_falha_fica(qs, k, (n - 1) as nat);
    }
}

/// Where the first `n` questions have no fault, each of them is well formed,
/// differs from those before it and carries its position as its number.
pub proof fn lema_sem_falha(qs: Seq<Questao>, n: nat, i: int)
    requires
        falha_ate(qs, n) is None,
        0 <= i < n,
    ensures
        falha_da_questao(qs, i) is None,
        !id_malformado(qs[i].id@),
        forall|j: int| 0 <= j < i ==> (#[trigger] qs[j]).id@ != qs[i].id@,
        qs[i].numero == (i + 1) as u32,
    decreases n,
{
    if i < n - 1 {
        lema_sem_falha(qs, (n - 1) as nat, i);
    }
}

/// The id of an exam, from the lower-cased series name.
pub open spec fn id_spec(base: Seq<char>, ano: u16, dia: Option<u8>) -> Seq<char> {
    let corpo = base + "_"@ + decimal_spec(ano as nat);
    match dia {
        Some(d) => corpo + "_dia"@ + decimal_spec(d as nat),
        None => corpo,
    }
}

/// The path of an exam below the exams directory, from the lower-cased
/// series name.
pub open spec fn path_id_spec(base: Seq<char>, ano: u16, dia: Option<u8>) -> Seq<char> {
    let arquivo = match dia {
        Some(d) => decimal_spec(ano as nat) + "_dia"@ + decimal_spec(d as nat),
        None => decimal_spec(ano as nat),
    };
    base + "/"@ + arquivo
}

/// The name of an exam for a reader.
pub open spec fn display_id_spec(vestibular: Seq<char>, ano: u16, dia: Option<u8>) -> Seq<char> {
    let corpo = vestibular + " "@ + decimal_spec(ano as nat);
    match dia {
        Some(d) => corpo + " (Dia "@ + decimal_spec(d as nat) + ")"@,
        None => corpo,
    }
}

/// The lower-case form of a text.
pub uninterp spec fn minusculas_spec(s: Seq<char>) -> Seq<char>;

/// Calls `str::to_lowercase`. Not proved: that the text returned is
/// `minusculas_spec` of the text given, a name for what that function
/// computes from its argument alone.
#[verifier::external_body]
fn minusculas(s: &str) -> (r: String)
    ensures
        r@ == minusculas_spec(s@),
{
    s.to_lowercase()
}

/// Builds the id of an exam from the lower-cased series name.
pub fn compor_id(base: &str, ano: u16, dia: Option<u8>) -> (r: String)
    ensures
        r@ == id_spec(base@, ano, dia),
{
    let mut id = String::from_str(base);
    id.append("_");
    let a = decimal(ano as u128);
    id.append(a.as_str());
    if let Some(d) = dia {
        id.append("_dia");
        let t = decimal(d as u128);
        id.append(t.as_str());
    }
    id
}

/// Builds the path of an exam from the lower-cased series name.
pub fn compor_path_id(base: &str, ano: u16, dia: Option<u8>) -> (r: String)
    ensures
        r@ == path_id_spec(base@, ano, dia),
{
    let mut arquivo = decimal(ano as u128);
    if let Some(d) = dia {
        arquivo.append("_dia");
        let t = decimal(d as u128);
        arquivo.append(t.as_str());
    }
    let mut id = String::from_str(base);
    id.append("/");
    id.append(arquivo.as_str());
    id
}

impl Prova {
    /// What `validate_schema` finds wrong, if anything: the schema version,
    /// then the count of questions, then the first faulty question.
    pub open spec fn falha_spec(&self) -> Option<FalhaDeProva> {
        if self.schema_version@ != "1.0"@ {
            Some(FalhaDeProva::UnsupportedSchema(self.schema_version@))
        } else if self.questoes@.len() != self.total_questoes {
            Some(
                FalhaDeProva::InconsistentQuestionCount {
                    expected: self.total_questoes,
                    actual: self.questoes@.len() as usize,
                },
            )
        } else {
            falha_ate(self.questoes@, self.questoes@.len())
        }
    }

    /// The exam invariant: nothing is wrong with it.
    pub open spec fn valida(&self) -> bool {
        self.falha_spec() is None
    }

    /// Whether some question of the exam has this id.
    pub open spec fn tem_questao_spec(&self, questao_id: Seq<char>) -> bool {
        exists|i: int| 0 <= i < self.questoes@.len() && (#[trigger] self.questoes@[i]).id@
            == questao_id
    }

    /// What validity means: the schema version is the supported one, the
    /// declared count is the length of the list, and each question has a
    /// well-formed id that no earlier question has and carries its position,
    /// counted from 1, as its number.
    pub proof fn lema_valida(&self, i: int)
        requires
            self.valida(),
            0 <= i < self.questoes@.len(),
        ensures
            self.schema_version@ == "1.0"@,
            self.total_questoes == self.questoes@.len(),
            !id_malformado(self.questoes@[i].id@),
            forall|j: int| 0 <= j < i ==> (#[trigger] self.questoes@[j]).id@ != self.questoes@[i].id@,
            self.questoes@[i].numero == (i + 1) as u32,
            self.tem_questao_spec(self.questoes@[i].id@),
    {
        lema_sem_falha(self.questoes@, self.questoes@.len(), i);
    }

    /// Checks the exam invariant and reports the first thing wrong.
    pub fn validate_schema(&self) -> (r: Result<(), ProvaError>)
        ensures
            r is Ok <==> self.valida(),
            match r {
                Ok(_) => self.falha_spec() is None,
                Err(e) => self.falha_spec() == Some(e@),
            },
    {
        let suportada = String::from_str("1.0");
        if self.schema_version != suportada {
            return Err(ProvaError::UnsupportedSchema(self.schema_version.clone()));
        }
        if self.questoes.len() != self.total_questoes {
            return Err(
                ProvaError::InconsistentQuestionCount {
                    expected: self.total_questoes,
                    actual: self.questoes.len(),
                },
            );
        }
        let n = self.questoes.len();
        let mut i: usize = 0;
        while i < n
            invariant
                i <= n,
                n == self.questoes@.len(),
                self.schema_version@ == "1.0"@,
                self.questoes@.len() == self.total_questoes,
                falha_ate(self.questoes@, i as nat) is None,
            decreases n - i,
        {
            let questao = &self.questoes[i];
            let id = questao.id.as_str();
            let len = id.unicode_len();
            if len < 2 || id.get_char(0) != 'Q' {
                proof {
                    lema_falha_fica(self.questoes@, (i + 1) as nat, n as nat);
                }
                return Err(ProvaError::InvalidQuestionId(questao.id.clone()));
            }
            let mut j: usize = 0;
            while j < i
                invariant
                    j <= i < n,
                    n == self.questoes@.len(),
                    *questao == self.questoes@[i as int],
                    forall|k: int| 0 <= k < j ==> (#[trigger] self.questoes@[k]).id@ != questao.id@,
                    falha_ate(self.questoes@, i as nat) is None,
                    !id_malformado(questao.id@),
                    self.schema_version@ == "1.0"@,
                    self.questoes@.len() == self.total_questoes,
                decreases i - j,
            {
                if self.questoes[j].id == questao.id {
                    proof {
                        lema_falha_fica(self.questoes@, (i + 1) as nat, n as nat);
                    }
                    return Err(ProvaError::DuplicateQuestionId(questao.id.clone()));
                }
                j += 1;
            }
            let esperado: u32 = #[verifier::truncate]
            ((i + 1) as u32);
            if questao.numero != esperado {
                proof {
                    lema_falha_fica(self.questoes@, (i + 1) as nat, n as nat);
                }
                return Err(
                    ProvaError::QuestionNumberMismatch {
                        expected: esperado,
                        actual: questao.numero,
                        id: questao.id.clone(),
                    },
                );
            }
            i += 1;
        }
        Ok(())
    }

    /// Whether some question of the exam has this id.
    pub fn tem_questao(&self, questao_id: &str) -> (r: bool)
        ensures
            r == self.tem_questao_spec(questao_id@),
    {
        let k = String::from_str(questao_id);
        let mut i: usize = 0;
        while i < self.questoes.len()
            invariant
                i <= self.questoes@.len(),
                k@ == questao_id@,
                forall|j: int| 0 <= j < i ==> (#[trigger] self.questoes@[j]).id@ != questao_id@,
            decreases self.questoes@.len() - i,
        {
            if self.questoes[i].id == k {
                return true;
            }
            i += 1;
        }
        false
    }

    /// The id of the exam: the series name in lower case, the year and, if
    /// there is one, the day.
    pub fn id(&self) -> (r: String)
        ensures
            r@ == id_spec(minusculas_spec(self.vestibular@), self.ano, self.dia),
    {
        let base = minusculas(self.vestibular.as_str());
        compor_id(base.as_str(), self.ano, self.dia)
    }

    /// The path of the exam below the exams directory.
    pub fn path_id(&self) -> (r: String)
        ensures
            r@ == path_id_spec(minusculas_spec(self.vestibular@), self.ano, self.dia),
    {
        let base = minusculas(self.vestibular.as_str());
        compor_path_id(base.as_str(), self.ano, self.dia)
    }

    /// The name of the exam for a reader.
    pub fn display_id(&self) -> (r: String)
        ensures
            r@ == display_id_spec(self.vestibular@, self.ano, self.dia),
    {
        let mut id = String::from_str(self.vestibular.as_str());
        id.append(" ");
        let a = decimal(self.ano as u128);
        id.append(a.as_str());
        if let Some(d) = self.dia {
            id.append(" (Dia ");
            let t = decimal(d as u128);
            id.append(t.as_str());
            id.append(")");
        }
        id
    }
}

} // verus!
