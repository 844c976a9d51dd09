//! One question of an exam.

use vstd::prelude::*;

verus! {

/// One labelled choice of a question.
#[derive(Clone, Debug)]
pub struct Alternativa {
    /// The label: `A`, `B`, ...
    pub id: String,
    pub texto: String,
}

#[derive(Clone, Debug)]
pub struct Questao {
    /// `Q` and the ordinal, for example `Q01`.
    pub id: String,
    pub area_id: String,
    /// The ordinal, counted from 1.
    pub numero: u32,
    pub enunciado: String,
    /// Paths of the images, relative to the assets.
    pub imagens: Vec<String>,
    pub alternativas: Vec<Alternativa>,
    /// The label of the correct alternative.
    pub resposta_correta: String,
}

} // verus!
