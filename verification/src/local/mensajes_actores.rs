//! Mensajes intercambiados entre el guardian y el local

use vstd::prelude::*;

use crate::pedido::Pedido;

verus! {

/// Mensajes que envia el guardian al local para notificar el resultado
/// de determinado pedido
#[derive(Clone, Copy, Debug, PartialEq, Eq, Structural)]
pub enum Respuestas {
    PedidoConcretado(usize),
    StockInsuficiente(usize),
    ProductoNoDisponible(usize),
}

/// Mensaje que envia el local a si mismo, para responder ante un
/// pedido concretado
#[derive(Clone, Copy, Debug, PartialEq, Eq, Structural)]
pub struct PedidoConcretado {
    pub id: usize,
}

impl PedidoConcretado {
    pub fn new(id: usize) -> (r: Self)
        ensures
            r.id == id,
    {
        Self { id }
    }
}

/// Mensaje que envia el local a si mismo, para responder ante un
/// stock insuficiente
#[derive(Clone, Copy, Debug, PartialEq, Eq, Structural)]
pub struct StockInsuficiente {
    pub id: usize,
}

impl StockInsuficiente {
    pub fn new(id: usize) -> (r: Self)
        ensures
            r.id == id,
    {
        Self { id }
    }
}

/// Mensaje que envia el local a si mismo, para responder ante un
/// producto no disponible (sin stock)
#[derive(Clone, Copy, Debug, PartialEq, Eq, Structural)]
pub struct ProductoNoDisponible {
    pub id: usize,
}

impl ProductoNoDisponible {
    pub fn new(id: usize) -> (r: Self)
        ensures
            r.id == id,
    {
        Self { id }
    }
}

/// Mensaje que envia el local al guardian para descontar directamente
/// el stock de un pedido, confirmandolo. La respuesta vuelve como valor
/// de retorno del guardian, en lugar de viajar a una direccion
#[derive(Clone, Copy, Debug, PartialEq, Eq, Structural)]
pub struct Descontar {
    pub pedido: Pedido,
    pub id: usize,
}

impl Descontar {
    pub fn new(pedido: Pedido, id: usize) -> (r: Self)
        ensures
            r.pedido == pedido,
            r.id == id,
    {
        Self { pedido, id }
    }
}

} // verus!
