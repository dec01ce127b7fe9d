//! Manejo apropiado de los pedidos de un ecommerce.
//!
//! El handler lleva las dos tablas compartidas del cliente: los pedidos
//! pendientes de desenlace y los acks recibidos. Las esperas con plazo,
//! el socket y el hilo lector viven fuera de la parte verificada; aqui
//! se decide que hacer con cada datagrama y con cada vencimiento.

use std::collections::{HashMap, HashSet};
use vstd::prelude::*;

use crate::errores::ErrorEcommerce;
use crate::mensajes::{
    spec_decodificar_ack_ecommerce, spec_decodificar_mensaje_servidor, spec_id_respuesta,
    spec_tipo_de_byte, AckEcommerce, MensajeEcommerce, MensajesServidor, TipoMensaje,
};
use crate::pedido::Pedido;
use crate::CANTIDAD_LOCALES;

verus! {

broadcast use vstd::std_specs::hash::group_hash_axioms;

/// Lo que el lector del ecommerce encuentra al decodificar un
/// datagrama recibido
pub enum DatagramaCliente {
    /// Acuse de recibo de un pedido enviado
    Ack(AckEcommerce),
    /// Veredicto final de un pedido
    Respuesta(MensajesServidor),
    /// Sin tipo, tipo inexistente o cuerpo corto: se ignora
    Invalido,
    /// Un tipo valido que a un ecommerce nunca le llega
    Inesperado,
}

/// Decodifica un datagrama entrante del ecommerce y lo clasifica
pub fn clasificar_datagrama_cliente(buf: &[u8]) -> (r: DatagramaCliente)
    ensures
        ({
            let hay_tipo = buf@.len() >= 1 && spec_tipo_de_byte(buf@[0]) is Some;
            match r {
                DatagramaCliente::Ack(a) => {
                    &&& hay_tipo
                    &&& spec_tipo_de_byte(buf@[0]) == Some(TipoMensaje::AckEcommerce)
                    &&& spec_decodificar_ack_ecommerce(buf@.skip(1)) == Some(a)
                },
                DatagramaCliente::Respuesta(m) => {
                    &&& hay_tipo
                    &&& spec_tipo_de_byte(buf@[0]) == Some(TipoMensaje::MensajeServidor)
                    &&& spec_decodificar_mensaje_servidor(buf@.skip(1)) == Some(m)
                },
                DatagramaCliente::Invalido => {
                    ||| !hay_tipo
                    ||| (spec_tipo_de_byte(buf@[0]) == Some(TipoMensaje::AckEcommerce)
                        && spec_decodificar_ack_ecommerce(buf@.skip(1)) is None)
                    ||| (spec_tipo_de_byte(buf@[0]) == Some(TipoMensaje::MensajeServidor)
                        && spec_decodificar_mensaje_servidor(buf@.skip(1)) is None)
                },
                DatagramaCliente::Inesperado => {
                    &&& hay_tipo
                    &&& spec_tipo_de_byte(buf@[0]) != Some(TipoMensaje::AckEcommerce)
                    &&& spec_tipo_de_byte(buf@[0]) != Some(TipoMensaje::MensajeServidor)
                },
            }
        }),
{
    let tipo = match TipoMensaje::from_bytes(buf) {
        Ok(t) => t,
        Err(_) => {
            return DatagramaCliente::Invalido;
        },
    };
    let (_, cuerpo) = buf.split_at(1);
    proof {
        assert(cuerpo@ =~= buf@.skip(1));
    }
    match tipo {
        TipoMensaje::AckEcommerce => match AckEcommerce::from_bytes(cuerpo) {
            Ok(a) => DatagramaCliente::Ack(a),
            Err(_) => DatagramaCliente::Invalido,
        },
        TipoMensaje::MensajeServidor => match MensajesServidor::from_bytes(cuerpo) {
            Ok(m) => DatagramaCliente::Respuesta(m),
            Err(_) => DatagramaCliente::Invalido,
        },
        _ => DatagramaCliente::Inesperado,
    }
}

/// Estructura que maneja el envio de pedidos a los locales, junto con
/// la lectura de acuses de recibo y de finalizacion
pub struct Handler {
    pub pedidos_pendientes: HashMap<u16, Pedido>,
    pub acks: HashSet<u16>,
}

impl Handler {
    /// Inicializa un handler con sus dos tablas vacias; el socket y el
    /// hilo que lee de el quedan en manos de quien lo ejecuta
    pub fn new() -> (r: Self)
        ensures
            r.pedidos_pendientes@ == Map::<u16, Pedido>::empty(),
            r.acks@ == Set::<u16>::empty(),
    {
        Self { pedidos_pendientes: HashMap::new(), acks: HashSet::new() }
    }

    /// Procesa un ack proveniente del local, dejando constancia para
    /// el hilo que lo espera
    pub fn procesar_ack_ecommerce(&mut self, ack: AckEcommerce)
        ensures
            final(self).acks@ == old(self).acks@.insert(ack.id_pedido),
            final(self).pedidos_pendientes@ == old(self).pedidos_pendientes@,
    {
        self.acks.insert(ack.id_pedido);
    }

    /// Procesa un mensaje proveniente del servidor, y devuelve el id
    /// del pedido asociado; el resultado se muestra por pantalla fuera
    /// de aca
    pub fn procesar_mensaje_servidor(&self, mensaje: &MensajesServidor) -> (r: u16)
        ensures
            r == spec_id_respuesta(*mensaje),
    {
        match mensaje {
            MensajesServidor::PedidoExitoso(id) => *id,
            MensajesServidor::PedidoCancelado(id) => *id,
            MensajesServidor::NoHayStock(id) => *id,
        }
    }

    /// Anota un pedido como pendiente de desenlace
    pub fn registrar_pendiente(&mut self, id_pedido: u16, pedido: Pedido)
        ensures
            final(self).pedidos_pendientes@ == old(self).pedidos_pendientes@.insert(
                id_pedido,
                pedido,
            ),
            final(self).acks@ == old(self).acks@,
    {
        self.pedidos_pendientes.insert(id_pedido, pedido);
    }

    /// Quita un pedido de la tabla de pendientes al llegar su
    /// veredicto. Un veredicto repetido, cuyo pedido ya no esta en la
    /// tabla, se descarta sin cambiar nada
    pub fn quitar_pendiente(&mut self, id_pedido: u16) -> (r: bool)
        ensures
            r == old(self).pedidos_pendientes@.contains_key(id_pedido),
            final(self).pedidos_pendientes@ == old(self).pedidos_pendientes@.remove(id_pedido),
            final(self).acks@ == old(self).acks@,
            !old(self).pedidos_pendientes@.contains_key(id_pedido) ==> final(self).pedidos_pendientes@
                == old(self).pedidos_pendientes@,
    {
        let r = self.pedidos_pendientes.remove(&id_pedido).is_some();
        proof {
            if !old(self).pedidos_pendientes@.contains_key(id_pedido) {
                assert(old(self).pedidos_pendientes@.remove(id_pedido)
                    =~= old(self).pedidos_pendientes@);
            }
        }
        r
    }

    /// Consume el ack esperado por un pedido, si ya llego. Quien
    /// espera vuelve a preguntar tras cada notificacion, hasta que
    /// llegue o se venza el plazo
    pub fn tomar_ack(&mut self, id_pedido: u16) -> (r: bool)
        ensures
            r == old(self).acks@.contains(id_pedido),
            final(self).acks@ == old(self).acks@.remove(id_pedido),
            final(self).pedidos_pendientes@ == old(self).pedidos_pendientes@,
    {
        self.acks.remove(&id_pedido)
    }

    /// Devuelve el id de la tienda mas cercana al ecommerce (modelado
    /// con un random).
    /// Relies on rand's `Rng::gen_range`, que con un rango `a..b`
    /// devuelve un valor uniforme en `[a, b)`.
    #[verifier::external_body]
    pub fn encontrar_tienda_cercana() -> (r: u16)
        ensures
            r < CANTIDAD_LOCALES as u16,
    {
        rand::Rng::gen_range(&mut rand::thread_rng(), 0..CANTIDAD_LOCALES) as u16
    }

    /// Valida un pedido y arma el mensaje con el que viaja a la
    /// tienda: los pedidos de cantidad cero se rechazan sin trafico
    /// # Errors
    /// * `ErrorEcommerce::CantidadCero` si la cantidad pedida es cero
    pub fn procesar_pedido(&self, id_pedido: usize, pedido: Pedido) -> (r: Result<
        MensajeEcommerce,
        ErrorEcommerce,
    >)
        requires
            id_pedido <= u16::MAX as usize,
        ensures
            pedido.cantidad == 0 ==> r == Err::<MensajeEcommerce, ErrorEcommerce>(
                ErrorEcommerce::CantidadCero,
            ),
            pedido.cantidad != 0 ==> r == Ok::<MensajeEcommerce, ErrorEcommerce>(
                MensajeEcommerce { id_pedido: id_pedido as u16, pedido },
            ),
    {
        if pedido.get_amount() == 0 {
            return Err(ErrorEcommerce::CantidadCero);
        }
        Ok(MensajeEcommerce::new(id_pedido as u16, pedido))
    }
}

/// Estados por los que pasa el envio de un pedido a una tienda
#[derive(Clone, Copy, Debug, PartialEq, Eq, Structural)]
pub enum EstadoEnvio {
    /// Se envio el pedido y se espera el acuse de recibo de la tienda
    EsperandoAck,
    /// Llego el ack; se espera el veredicto final del pedido
    EsperandoDesenlace,
    /// Llego el veredicto: el envio termino
    Terminado,
}

/// Lo que le puede pasar a un envio mientras espera
#[derive(Clone, Copy, Debug, PartialEq, Eq, Structural)]
pub enum EventoEnvio {
    /// Llego el acuse de recibo de la tienda
    AckRecibido,
    /// Se vencio el plazo del acuse de recibo
    AckVencido,
    /// Llego el veredicto final del pedido
    DesenlaceRecibido,
    /// Se vencio el plazo del veredicto final
    DesenlaceVencido,
}

/// Lo que corresponde hacer tras cada evento
#[derive(Clone, Copy, Debug, PartialEq, Eq, Structural)]
pub enum AccionEnvio {
    /// Anotar el pedido como pendiente y esperar su veredicto
    RegistrarYEsperar,
    /// Reenviar el pedido completo a la tienda indicada
    Reenviar(u16),
    /// Nada mas que hacer
    Nada,
}

/// El envio de un pedido: el mensaje que viaja y la tienda a la que
/// fue dirigido por ultima vez
pub struct EnvioPedido {
    pub mensaje: MensajeEcommerce,
    pub tienda: u16,
    pub estado: EstadoEnvio,
}

impl EnvioPedido {
    /// Comienza el protocolo de un pedido contra la tienda elegida
    pub fn nuevo(mensaje: MensajeEcommerce, tienda: u16) -> (r: Self)
        requires
            tienda < CANTIDAD_LOCALES as u16,
        ensures
            r.mensaje == mensaje,
            r.tienda == tienda,
            r.estado == EstadoEnvio::EsperandoAck,
    {
        Self { mensaje, tienda, estado: EstadoEnvio::EsperandoAck }
    }

    /// Avanza el protocolo de envio ante un evento: un plazo vencido
    /// manda el pedido a la tienda siguiente de la rueda; el ack pasa
    /// a esperar el veredicto, y el veredicto termina el envio
    pub fn avanzar(&mut self, evento: EventoEnvio) -> (r: AccionEnvio)
        requires
            old(self).tienda < CANTIDAD_LOCALES as u16,
        ensures
            final(self).mensaje == old(self).mensaje,
            final(self).tienda < CANTIDAD_LOCALES as u16,
            ({
                let siguiente = (old(self).tienda + 1) % (CANTIDAD_LOCALES as int);
                match evento {
                    EventoEnvio::AckRecibido => {
                        &&& old(self).estado == EstadoEnvio::EsperandoAck ==> {
                            &&& final(self).estado == EstadoEnvio::EsperandoDesenlace
                            &&& final(self).tienda == old(self).tienda
                            &&& r == AccionEnvio::RegistrarYEsperar
                        }
                        &&& old(self).estado != EstadoEnvio::EsperandoAck ==> *final(self) == *old(self) && r
                            == AccionEnvio::Nada
                    },
                    EventoEnvio::AckVencido => {
                        &&& old(self).estado == EstadoEnvio::EsperandoAck ==> {
                            &&& final(self).estado == EstadoEnvio::EsperandoAck
                            &&& final(self).tienda == siguiente
                            &&& r == AccionEnvio::Reenviar(siguiente as u16)
                        }
                        &&& old(self).estado != EstadoEnvio::EsperandoAck ==> *final(self) == *old(self) && r
                            == AccionEnvio::Nada
                    },
                    EventoEnvio::DesenlaceRecibido => {
                        &&& old(self).estado == EstadoEnvio::EsperandoDesenlace ==> {
                            &&& final(self).estado == EstadoEnvio::Terminado
                            &&& final(self).tienda == old(self).tienda
                            &&& r == AccionEnvio::Nada
                        }
                        &&& old(self).estado != EstadoEnvio::EsperandoDesenlace ==> *final(self) == *old(self)
                            && r == AccionEnvio::Nada
                    },
                    EventoEnvio::DesenlaceVencido => {
                        &&& old(self).estado == EstadoEnvio::EsperandoDesenlace ==> {
                            &&& final(self).estado == EstadoEnvio::EsperandoAck
                            &&& final(self).tienda == siguiente
                            &&& r == AccionEnvio::Reenviar(siguiente as u16)
                        }
                        &&& old(self).estado != EstadoEnvio::EsperandoDesenlace ==> *final(self) == *old(self)
                            && r == AccionEnvio::Nada
                    },
                }
            }),
    {
        match evento {
            EventoEnvio::AckRecibido => {
                if self.estado == EstadoEnvio::EsperandoAck {
                    self.estado = EstadoEnvio::EsperandoDesenlace;
                    AccionEnvio::RegistrarYEsperar
                } else {
                    AccionEnvio::Nada
                }
            },
            EventoEnvio::AckVencido => {
                if self.estado == EstadoEnvio::EsperandoAck {
                    let siguiente = (self.tienda + 1) % (CANTIDAD_LOCALES as u16);
                    self.tienda = siguiente;
                    AccionEnvio::Reenviar(siguiente)
                } else {
                    AccionEnvio::Nada
                }
            },
            EventoEnvio::DesenlaceRecibido => {
                if self.estado == EstadoEnvio::EsperandoDesenlace {
                    self.estado = EstadoEnvio::Terminado;
                }
                AccionEnvio::Nada
            },
            EventoEnvio::DesenlaceVencido => {
                if self.estado == EstadoEnvio::EsperandoDesenlace {
                    let siguiente = (self.tienda + 1) % (CANTIDAD_LOCALES as u16);
                    self.tienda = siguiente;
                    self.estado = EstadoEnvio::EsperandoAck;
                    AccionEnvio::Reenviar(siguiente)
                } else {
                    AccionEnvio::Nada
                }
            },
        }
    }
}

} // verus!
