//! The data of an exam and of one attempt at it.

pub mod estado;
pub mod prova;
pub mod questao;
pub mod respostas;
pub mod simulado;
