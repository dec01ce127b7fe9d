//! Estructura util que permite enviar señales a una direccion derivada
//! de un identificador para que corte su señal, o que la retorne.
//! El envio efectivo por el socket queda fuera de la parte verificada;
//! aqui se decide que byte viaja y a que direccion.

use vstd::prelude::*;

use crate::mensajes::{spec_codigo_tipo, TipoMensaje};
use crate::{direccion_con_puerto, id_a_dir_local, id_a_dir_medico, CANTIDAD_LOCALES};

verus! {

/// Estructura que envia mensajes de aviso a un local. Contiene el
/// identificador del local al que se desea avisar, y un flag de si lo
/// debe matar o revivir
#[derive(Clone, Copy, Debug, PartialEq, Eq, Structural)]
pub struct Dios {
    pub id: u16,
    pub kill: bool,
}

impl Dios {
    /// Crea la señal para el local dado
    pub fn new(id: u16, kill: bool) -> (r: Self)
        ensures
            r.id == id,
            r.kill == kill,
    {
        Self { id, kill }
    }

    /// Datagrama de la señal: un unico byte, el del tipo que mata o
    /// el del tipo que revive
    pub fn datagrama(&self) -> (r: Vec<u8>)
        ensures
            r@ == seq![
                spec_codigo_tipo(
                    if self.kill {
                        TipoMensaje::Matar
                    } else {
                        TipoMensaje::Revivir
                    },
                ),
            ],
    {
        let tipo = if self.kill {
            TipoMensaje::Matar
        } else {
            TipoMensaje::Revivir
        };
        let mut buf: Vec<u8> = Vec::new();
        buf.push(tipo.codigo());
        proof {
            assert(buf@ =~= seq![
                spec_codigo_tipo(
                    if self.kill {
                        TipoMensaje::Matar
                    } else {
                        TipoMensaje::Revivir
                    },
                ),
            ]);
        }
        buf
    }

    /// Direccion a la que viaja la señal: la principal del local para
    /// matarlo, la de su medico para revivirlo
    pub fn direccion_objetivo(&self) -> (r: String)
        requires
            self.id < CANTIDAD_LOCALES as u16,
        ensures
            self.kill ==> r@ == direccion_con_puerto((9000 + self.id) as u16),
            !self.kill ==> r@ == direccion_con_puerto((10000 + self.id) as u16),
    {
        if self.kill {
            id_a_dir_local(self.id)
        } else {
            id_a_dir_medico(self.id)
        }
    }
}

} // verus!
