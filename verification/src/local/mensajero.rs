//! Estructura de un mensajero, encargado del envio de mensajes hacia el
//! resto de los locales y ecommerces.
//!
//! El mensajero es una maquina de tres estados: conectado (tiene su
//! socket), desconectado (sin socket: todo envio falla) y muerto
//! (frenado). El socket en si vive fuera de la parte verificada; aqui
//! se decide que responde el mensajero en cada estado. La autorizacion
//! se decide al momento de despachar el envio: un envio autorizado
//! antes de una desconexion puede completarse; los posteriores se
//! rechazan.

use vstd::prelude::*;

use crate::errores::ErrorMensajero;

verus! {

/// Estados por los que pasa un mensajero a lo largo de su vida
#[derive(Clone, Copy, Debug, PartialEq, Eq, Structural)]
pub enum EstadoMensajero {
    Conectado,
    Desconectado,
    Muerto,
}

/// Estructura encargada de realizar el envio de mensajes hacia
/// otros procesos
pub struct Mensajero {
    pub estado: EstadoMensajero,
}

/// Mensaje para realizar un envio de datos a la direccion pasada
pub struct Enviar {
    pub mensaje: Vec<u8>,
    pub destino: String,
}

impl Enviar {
    pub fn new(mensaje: Vec<u8>, destino: String) -> (r: Self)
        ensures
            r.mensaje@ == mensaje@,
            r.destino@ == destino@,
    {
        Self { mensaje, destino }
    }
}

/// Mensaje para frenar la conexion a internet del mensajero
#[derive(Clone, Copy, Debug, PartialEq, Eq, Structural)]
pub struct Desconectar;

/// Mensaje que permite devolver la conexion; el socket nuevo por el que
/// mandar los mensajes queda en manos de quien hace los envios
#[derive(Clone, Copy, Debug, PartialEq, Eq, Structural)]
pub struct Reconectar;

impl Reconectar {
    pub fn new() -> (r: Self) {
        Self
    }
}

/// Mensaje que frena al mensajero tras no poder recuperarse de una
/// falla en la conectividad
#[derive(Clone, Copy, Debug, PartialEq, Eq, Structural)]
pub struct Matar;

impl Mensajero {
    /// Crea un mensajero, conectado desde el comienzo
    pub fn new() -> (r: Self)
        ensures
            r.estado == EstadoMensajero::Conectado,
    {
        Self { estado: EstadoMensajero::Conectado }
    }

    /// Estado en el que se encuentra el mensajero
    pub fn estado_actual(&self) -> (r: EstadoMensajero)
        ensures
            r == self.estado,
    {
        self.estado
    }

    /// Decide si un envio puede salir: solo un mensajero conectado
    /// llega a la red; desconectado o muerto, el envio falla como
    /// caida de conexion
    pub fn autorizar_envio(&self, _msg: &Enviar) -> (r: Result<(), ErrorMensajero>)
        ensures
            r == (match self.estado {
                EstadoMensajero::Conectado => Ok::<(), ErrorMensajero>(()),
                _ => Err::<(), ErrorMensajero>(ErrorMensajero::InternetCaido),
            }),
    {
        match self.estado {
            EstadoMensajero::Conectado => Ok(()),
            _ => Err(ErrorMensajero::InternetCaido),
        }
    }

    /// Traduce el resultado del envio efectivo por el socket: si la
    /// entrega fallo, el destino es inaccesible
    pub fn concluir_envio(&self, entregado: bool) -> (r: Result<(), ErrorMensajero>)
        requires
            self.estado == EstadoMensajero::Conectado,
        ensures
            r == (if entregado {
                Ok::<(), ErrorMensajero>(())
            } else {
                Err::<(), ErrorMensajero>(ErrorMensajero::DestinoInaccesible)
            }),
    {
        if entregado {
            Ok(())
        } else {
            Err(ErrorMensajero::DestinoInaccesible)
        }
    }

    /// Suelta la conexion: los envios posteriores seran rechazados.
    /// Un mensajero muerto ya no atiende mensajes
    pub fn desconectar(&mut self, _msg: Desconectar)
        ensures
            final(self).estado == (if old(self).estado == EstadoMensajero::Muerto {
                EstadoMensajero::Muerto
            } else {
                EstadoMensajero::Desconectado
            }),
    {
        if self.estado != EstadoMensajero::Muerto {
            self.estado = EstadoMensajero::Desconectado;
        }
    }

    /// Devuelve la conexion; quien envia debe tener un socket nuevo.
    /// Un mensajero muerto ya no atiende mensajes
    pub fn reconectar(&mut self, _msg: Reconectar)
        ensures
            final(self).estado == (if old(self).estado == EstadoMensajero::Muerto {
                EstadoMensajero::Muerto
            } else {
                EstadoMensajero::Conectado
            }),
    {
        if self.estado != EstadoMensajero::Muerto {
            self.estado = EstadoMensajero::Conectado;
        }
    }

    /// Frena el mensajero de forma definitiva
    pub fn matar(&mut self, _msg: Matar)
        ensures
            final(self).estado == EstadoMensajero::Muerto,
    {
        self.estado = EstadoMensajero::Muerto;
    }
}

} // verus!
