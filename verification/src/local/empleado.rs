//! Lo necesario para poder llevar a cabo pedidos propios de un local.
//! El empleado recibe pedidos locales y se los pasa al guardian como
//! mensajes de descuento directo; el resultado vuelve como una
//! respuesta del guardian, que quien lo ejecuta muestra por pantalla.

use vstd::prelude::*;

use crate::local::mensajes_actores::Descontar;
use crate::pedido::Pedido;

verus! {

/// Estructura de empleado; el guardian al que le habla queda en manos
/// de quien arma el local
#[derive(Clone, Copy, Debug, PartialEq, Eq, Structural)]
pub struct Empleado;

/// Mensaje para que el empleado procese un pedido local,
/// identificandolo por su posicion en la lista de pedidos
#[derive(Clone, Copy, Debug, PartialEq, Eq, Structural)]
pub struct TomarPedido {
    pub pedido: Pedido,
    pub id_pedido: usize,
}

impl TomarPedido {
    pub fn new(pedido: Pedido, id_pedido: usize) -> (r: Self)
        ensures
            r.pedido == pedido,
            r.id_pedido == id_pedido,
    {
        Self { pedido, id_pedido }
    }
}

impl Empleado {
    /// Crea un nuevo empleado
    pub fn new() -> (r: Self) {
        Self
    }

    /// Toma un pedido local y arma el mensaje de descuento directo que
    /// le corresponde pasar al guardian
    pub fn tomar_pedido(&self, msg: TomarPedido) -> (r: Descontar)
        ensures
            r.pedido == msg.pedido,
            r.id == msg.id_pedido,
    {
        Descontar::new(msg.pedido, msg.id_pedido)
    }
}

} // verus!
