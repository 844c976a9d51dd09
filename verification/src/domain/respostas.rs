//! The answers given in an attempt, by question.

use vstd::prelude::*;
use vstd::string::*;

verus! {

/// One answer: a question and the alternative chosen for it, if any.
#[derive(Clone, Debug, PartialEq, Eq)]
pub struct Resposta {
    pub questao_id: String,
    pub alternativa: Option<String>,
}

/// The text of an optional label.
pub open spec fn rotulo_spec(a: Option<String>) -> Option<Seq<char>> {
    match a {
        Some(s) => Some(s@),
        None => None,
    }
}

/// The map that a list of answers stands for. Where a question occurs more
/// than once, its first entry counts.
pub open spec fn mapa_de(s: Seq<Resposta>) -> Map<Seq<char>, Option<Seq<char>>>
    decreases s.len(),
{
    if s.len() == 0 {
        Map::empty()
    } else {
        mapa_de(s.skip(1)).insert(s[0].questao_id@, rotulo_spec(s[0].alternativa))
    }
}

/// No question occurs twice in the list.
pub open spec fn chaves_distintas(s: Seq<Resposta>) -> bool {
    forall|i: int, j: int|
        0 <= i < j < s.len() ==> (#[trigger] s[i]).questao_id@ != (#[trigger] s[j]).questao_id@
}

/// A question that no entry names is not in the map.
pub proof fn lema_sem_chave(s: Seq<Resposta>, k: Seq<char>)
    requires
        forall|i: int| 0 <= i < s.len() ==> (#[trigger] s[i]).questao_id@ != k,
    ensures
        !mapa_de(s).dom().contains(k),
    decreases s.len(),
{
    if s.len() > 0 {
        let r = s.skip(1);
        assert forall|i: int| 0 <= i < r.len() implies (#[trigger] r[i]).questao_id@ != k by {
            assert(r[i] == s[i + 1]);
        }
        lema_sem_chave(r, k);
        assert(s[0].questao_id@ != k);
    }
}

/// The first entry that names a question gives its value in the map.
pub proof fn lema_primeira(s: Seq<Resposta>, i: int, k: Seq<char>)
    requires
        0 <= i < s.len(),
        s[i].questao_id@ == k,
        forall|j: int| 0 <= j < i ==> (#[trigger] s[j]).questao_id@ != k,
    ensures
        mapa_de(s).dom().contains(k),
        mapa_de(s)[k] == rotulo_spec(s[i].alternativa),
    decreases i,
{
    if i > 0 {
        let r = s.skip(1);
        assert forall|j: int| 0 <= j < i - 1 implies (#[trigger] r[j]).questao_id@ != k by {
            assert(r[j] == s[j + 1]);
        }
        assert(r[i - 1] == s[i]);
        lema_primeira(r, i - 1, k);
        assert(s[0].questao_id@ != k);
    }
}

/// An entry for a new question, added at the end, adds it to the map.
pub proof fn lema_acrescenta(s: Seq<Resposta>, e: Resposta)
    requires
        forall|i: int| 0 <= i < s.len() ==> (#[trigger] s[i]).questao_id@ != e.questao_id@,
    ensures
        mapa_de(s.push(e)) == mapa_de(s).insert(e.questao_id@, rotulo_spec(e.alternativa)),
    decreases s.len(),
{
    let t = s.push(e);
    if s.len() == 0 {
        assert(t.skip(1) =~= Seq::<Resposta>::empty());
        assert(mapa_de(t.skip(1)) =~= Map::<Seq<char>, Option<Seq<char>>>::empty());
        assert(mapa_de(t) =~= mapa_de(s).insert(e.questao_id@, rotulo_spec(e.alternativa)));
    } else {
        let r = s.skip(1);
        assert forall|i: int| 0 <= i < r.len() implies (#[trigger] r[i]).questao_id@
            != e.questao_id@ by {
            assert(r[i] == s[i + 1]);
        }
        lema_acrescenta(r, e);
        assert(t.skip(1) =~= r.push(e));
        assert(t[0] == s[0]);
        assert(s[0].questao_id@ != e.questao_id@);
        assert(mapa_de(t) =~= mapa_de(s).insert(e.questao_id@, rotulo_spec(e.alternativa)));
    }
}

/// Replacing the first entry of a question gives the question its new value.
pub proof fn lema_substitui(s: Seq<Resposta>, i: int, e: Resposta)
    requires
        0 <= i < s.len(),
        s[i].questao_id@ == e.questao_id@,
        forall|j: int| 0 <= j < i ==> (#[trigger] s[j]).questao_id@ != e.questao_id@,
    ensures
        mapa_de(s.update(i, e)) == mapa_de(s).insert(e.questao_id@, rotulo_spec(e.alternativa)),
    decreases i,
{
    let t = s.update(i, e);
    if i == 0 {
        assert(t.skip(1) =~= s.skip(1));
        assert(mapa_de(t) =~= mapa_de(s).insert(e.questao_id@, rotulo_spec(e.alternativa)));
    } else {
        let r = s.skip(1);
        assert forall|j: int| 0 <= j < i - 1 implies (#[trigger] r[j]).questao_id@
            != e.questao_id@ by {
            assert(r[j] == s[j + 1]);
        }
        assert(r[i - 1] == s[i]);
        lema_substitui(r, i - 1, e);
        assert(t.skip(1) =~= r.update(i - 1, e));
        assert(t[0] == s[0]);
        assert(s[0].questao_id@ != e.questao_id@);
        assert(mapa_de(t) =~= mapa_de(s).insert(e.questao_id@, rotulo_spec(e.alternativa)));
    }
}

/// 1 for an entry with an alternative, 0 for one without.
pub open spec fn vale(e: Resposta) -> nat {
    if e.alternativa is Some {
        1
    } else {
        0
    }
}

/// How many entries of the list have an alternative.
pub open spec fn quantas_com_alternativa(s: Seq<Resposta>) -> nat
    decreases s.len(),
{
    if s.len() == 0 {
        0
    } else {
        quantas_com_alternativa(s.drop_last()) + vale(s.last())
    }
}

/// An entry added at the end counts for what it is.
pub proof fn lema_quantas_acrescenta(s: Seq<Resposta>, e: Resposta)
    ensures
        quantas_com_alternativa(s.push(e)) == quantas_com_alternativa(s) + vale(e),
{
    assert(s.push(e).drop_last() =~= s);
}

/// An entry put in place of another counts in its place.
pub proof fn lema_quantas_substitui(s: Seq<Resposta>, i: int, e: Resposta)
    requires
        0 <= i < s.len(),
    ensures
        quantas_com_alternativa(s.update(i, e)) + vale(s[i]) == quantas_com_alternativa(s) + vale(
            e,
        ),
    decreases s.len(),
{
    let t = s.update(i, e);
    if i == s.len() - 1 {
        assert(t.drop_last() =~= s.drop_last());
    } else {
        lema_quantas_substitui(s.drop_last(), i, e);
        assert(t.drop_last() =~= s.drop_last().update(i, e));
    }
}

/// The answers of an attempt: a map from question to the alternative chosen,
/// where a question may also be recorded with no alternative.
#[derive(Clone, Debug)]
pub struct Respostas {
    entradas: Vec<Resposta>,
}

impl View for Respostas {
    type V = Map<Seq<char>, Option<Seq<char>>>;

    closed spec fn view(&self) -> Map<Seq<char>, Option<Seq<char>>> {
        mapa_de(self.entradas@)
    }
}

impl Respostas {
    /// The entries, in the order in which their questions were first recorded.
    pub closed spec fn entradas_spec(&self) -> Seq<Resposta> {
        self.entradas@
    }

    /// The invariant: each question has at most one entry.
    pub closed spec fn bem_formada(&self) -> bool {
        chaves_distintas(self.entradas@)
    }

    /// How many questions are recorded with an alternative.
    pub closed spec fn respondidas_spec(&self) -> nat {
        quantas_com_alternativa(self.entradas@)
    }

    /// The map is the one that the entries stand for, and the count of
    /// answered questions is that of the entries with an alternative.
    pub proof fn lema_vista(&self)
        ensures
            self@ == mapa_de(self.entradas_spec()),
            self.bem_formada() == chaves_distintas(self.entradas_spec()),
            self.respondidas_spec() == quantas_com_alternativa(self.entradas_spec()),
    {
    }

    pub fn new() -> (r: Self)
        ensures
            r@ == Map::<Seq<char>, Option<Seq<char>>>::empty(),
            r.entradas_spec().len() == 0,
            r.bem_formada(),
            r.respondidas_spec() == 0,
    {
        Respostas { entradas: Vec::new() }
    }

    /// The entries, for a caller that stores or lists them.
    pub fn entradas(&self) -> (r: &Vec<Resposta>)
        ensures
            r@ == self.entradas_spec(),
    {
        &self.entradas
    }

    fn posicao(&self, questao_id: &String) -> (r: Option<usize>)
        ensures
            match r {
                Some(i) => {
                    &&& i < self.entradas@.len()
                    &&& self.entradas@[i as int].questao_id@ == questao_id@
                    &&& forall|j: int|
                        0 <= j < i ==> (#[trigger] self.entradas@[j]).questao_id@ != questao_id@
                },
                None => forall|j: int|
                    0 <= j < self.entradas@.len() ==> (#[trigger] self.entradas@[j]).questao_id@
                        != questao_id@,
            },
    {
        let mut i: usize = 0;
        while i < self.entradas.len()
            invariant
                i <= self.entradas@.len(),
                forall|j: int|
                    0 <= j < i ==> (#[trigger] self.entradas@[j]).questao_id@ != questao_id@,
            decreases self.entradas@.len() - i,
        {
            if self.entradas[i].questao_id == *questao_id {
                return Some(i);
            }
            i += 1;
        }
        None
    }

    /// Whether the question has an entry, with or without an alternative.
    pub fn contem(&self, questao_id: &str) -> (r: bool)
        ensures
            r == self@.dom().contains(questao_id@),
    {
        let k = String::from_str(questao_id);
        match self.posicao(&k) {
            Some(i) => {
                proof {
                    lema_primeira(self.entradas@, i as int, k@);
                }
                true
            },
            None => {
                proof {
                    lema_sem_chave(self.entradas@, k@);
                }
                false
            },
        }
    }

    /// The alternative chosen for the question: `None` where the question has
    /// no entry or its entry has no alternative.
    pub fn alternativa(&self, questao_id: &str) -> (r: Option<&String>)
        ensures
            match r {
                Some(a) => escolha_spec(self@, questao_id@) == Some(a@),
                None => escolha_spec(self@, questao_id@) is None,
            },
    {
        let k = String::from_str(questao_id);
        match self.posicao(&k) {
            Some(i) => {
                proof {
                    lema_primeira(self.entradas@, i as int, k@);
                }
                self.entradas[i].alternativa.as_ref()
            },
            None => {
                proof {
                    lema_sem_chave(self.entradas@, k@);
                }
                None
            },
        }
    }

    /// Records the alternative for the question, in place of what was
    /// recorded for it before.
    pub fn inserir(&mut self, questao_id: String, alternativa: Option<String>)
        ensures
            final(self)@ == old(self)@.insert(questao_id@, rotulo_spec(alternativa)),
            ja_registrada(old(self)@, questao_id@, rotulo_spec(alternativa)) ==> final(self)@
                == old(self)@,
            old(self).bem_formada() ==> final(self).bem_formada(),
            final(self).respondidas_spec() + (if escolha_spec(old(self)@, questao_id@) is Some {
                1nat
            } else {
                0nat
            }) == old(self).respondidas_spec() + (if alternativa is Some {
                1nat
            } else {
                0nat
            }),
    {
        proof {
            if ja_registrada(self@, questao_id@, rotulo_spec(alternativa)) {
                assert(self@.insert(questao_id@, rotulo_spec(alternativa)) =~= self@);
            }
        }
        let achada = self.posicao(&questao_id);
        let e = Resposta { questao_id, alternativa };
        match achada {
            Some(i) => {
                proof {
                    lema_substitui(self.entradas@, i as int, e);
                    lema_primeira(self.entradas@, i as int, e.questao_id@);
                    lema_quantas_substitui(self.entradas@, i as int, e);
                }
                let ghost antes = self.entradas@;
                self.entradas.set(i, e);
                proof {
                    if chaves_distintas(antes) {
                        let depois = self.entradas@;
                        assert forall|a: int, b: int| 0 <= a < b < depois.len() implies (
                        #[trigger] depois[a]).questao_id@ != (#[trigger] depois[b]).questao_id@ by {
                            assert(depois[a].questao_id@ == antes[a].questao_id@);
                            assert(depois[b].questao_id@ == antes[b].questao_id@);
                        }
                    }
                }
            },
            None => {
                proof {
                    lema_acrescenta(self.entradas@, e);
                    lema_sem_chave(self.entradas@, e.questao_id@);
                    lema_quantas_acrescenta(self.entradas@, e);
                }
                let ghost antes = self.entradas@;
                self.entradas.push(e);
                proof {
                    if chaves_distintas(antes) {
                        let depois = self.entradas@;
                        assert forall|a: int, b: int| 0 <= a < b < depois.len() implies (
                        #[trigger] depois[a]).questao_id@ != (#[trigger] depois[b]).questao_id@ by {
                            if b < antes.len() {
                                assert(depois[a] == antes[a]);
                                assert(depois[b] == antes[b]);
                            } else {
                                assert(depois[a] == antes[a]);
                            }
                        }
                    }
                }
            },
        }
    }
}

/// Whether the map already records exactly this for the question.
pub open spec fn ja_registrada(
    m: Map<Seq<char>, Option<Seq<char>>>,
    k: Seq<char>,
    a: Option<Seq<char>>,
) -> bool {
    m.dom().contains(k) && m[k] == a
}

/// The alternative that a map of answers holds for a question: `None` where
/// the question is not in the map or is recorded without an alternative.
pub open spec fn escolha_spec(m: Map<Seq<char>, Option<Seq<char>>>, k: Seq<char>) -> Option<
    Seq<char>,
> {
    if m.dom().contains(k) {
        m[k]
    } else {
        None
    }
}

} // verus!
