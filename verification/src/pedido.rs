//! Estructura de pedidos, los cuales son enviados entre los distintos
//! procesos del sistema, junto con su codificacion a bytes

use vstd::prelude::*;

use crate::errores::ErrorMensaje;

verus! {

/// Byte alto de un entero de 16 bits en notacion big-endian
pub open spec fn alto_u16(x: u16) -> u8 {
    (x / 256) as u8
}

/// Byte bajo de un entero de 16 bits en notacion big-endian
pub open spec fn bajo_u16(x: u16) -> u8 {
    (x % 256) as u8
}

/// Entero de 16 bits leido de dos bytes en notacion big-endian
pub open spec fn u16_de_bytes(a: u8, b: u8) -> u16 {
    (a as int * 256 + b as int) as u16
}

/// Separa un entero de 16 bits en sus dos bytes big-endian
pub fn u16_a_bytes(x: u16) -> (r: (u8, u8))
    ensures
        r.0 == alto_u16(x),
        r.1 == bajo_u16(x),
        u16_de_bytes(r.0, r.1) == x,
{
    ((x / 256) as u8, (x % 256) as u8)
}

/// Reconstruye un entero de 16 bits desde sus dos bytes big-endian
pub fn bytes_a_u16(a: u8, b: u8) -> (r: u16)
    ensures
        r == u16_de_bytes(a, b),
{
    (a as u16) * 256 + (b as u16)
}

/// Un pedido esta definido por un id de producto, y una cantidad de
/// producto a pedir
#[derive(Clone, Copy, Debug, PartialEq, Eq, Structural)]
pub struct Pedido {
    pub id_producto: u16,
    pub cantidad: u8,
}

/// Codificacion de un pedido: id de producto big-endian y cantidad
pub open spec fn spec_pedido_bytes(p: Pedido) -> Seq<u8> {
    seq![alto_u16(p.id_producto), bajo_u16(p.id_producto), p.cantidad]
}

/// Decodificacion de un pedido desde un prefijo de tres bytes; los bytes
/// que sobren al final se ignoran
pub open spec fn spec_decodificar_pedido(buf: Seq<u8>) -> Option<Pedido> {
    if buf.len() < 3 {
        None
    } else {
        Some(Pedido { id_producto: u16_de_bytes(buf[0], buf[1]), cantidad: buf[2] })
    }
}

impl Pedido {
    /// Identificador del producto, para contratos
    pub open spec fn spec_producto(self) -> u16 {
        self.id_producto
    }

    /// Cantidad pedida, para contratos
    pub open spec fn spec_cantidad(self) -> u8 {
        self.cantidad
    }

    /// Crea un nuevo pedido con los parametros dados
    pub fn new(id_producto: u16, cantidad: u8) -> (r: Self)
        ensures
            r.spec_producto() == id_producto,
            r.spec_cantidad() == cantidad,
    {
        Self { id_producto, cantidad }
    }

    /// Obtiene el ID del producto
    pub fn get_id(&self) -> (r: u16)
        ensures
            r == self.spec_producto(),
    {
        self.id_producto
    }

    /// Obtiene la cantidad de producto a pedir
    pub fn get_amount(&self) -> (r: u8)
        ensures
            r == self.spec_cantidad(),
    {
        self.cantidad
    }

    /// Convierte bytes en un pedido valido, para que pueda ser enviado
    /// a traves de la red de forma correcta
    pub fn from_bytes(buf: &[u8]) -> (r: Result<Self, ErrorMensaje>)
        ensures
            match r {
                Ok(p) => spec_decodificar_pedido(buf@) == Some(p),
                Err(e) => {
                    &&& spec_decodificar_pedido(buf@) is None
                    &&& e == ErrorMensaje::MensajeInvalido
                },
            },
    {
        if buf.len() < 3 {
            return Err(ErrorMensaje::MensajeInvalido);
        }
        let id_producto = bytes_a_u16(buf[0], buf[1]);
        let cantidad = buf[2];
        Ok(Self { id_producto, cantidad })
    }

    /// Convierte un pedido en un vector de bytes, para que pueda ser enviado
    /// a traves de la red de forma correcta
    pub fn as_bytes(&self) -> (r: Vec<u8>)
        ensures
            r@ == spec_pedido_bytes(*self),
    {
        let mut buf_message: Vec<u8> = Vec::new();
        let (alto, bajo) = u16_a_bytes(self.id_producto);
        buf_message.push(alto);
        buf_message.push(bajo);
        buf_message.push(self.cantidad);
        proof {
            assert(buf_message@ =~= spec_pedido_bytes(*self));
        }
        buf_message
    }
}

/// La decodificacion de la codificacion de un pedido devuelve el mismo pedido
pub proof fn lemma_pedido_ida_y_vuelta(p: Pedido)
    ensures
        spec_decodificar_pedido(spec_pedido_bytes(p)) == Some(p),
{
}

} // verus!
