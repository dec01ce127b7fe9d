//! Manejo de los pedidos realizados por ecommerces. Requiere de la
//! existencia del guardian, ya que hara a este los pedidos.
//!
//! El servidor decide, datagrama por datagrama, que hacer con cada
//! pedido: responderlo, reservarlo y resolverlo, o delegarlo al
//! siguiente local de la rueda. Los sockets, las esperas y los envios
//! quedan fuera de la parte verificada; aqui viven las decisiones y el
//! estado que comparten.

use std::collections::HashSet;
use vstd::prelude::*;

use crate::errores::{ErrorGuardian, ErrorMensajero};
use crate::local::guardian::{
    clave, spec_bloquear, spec_cancelar, spec_clave, spec_confirmar, Bloquear, Cancelar,
    Confirmar, Guardian,
};
use crate::mensajes::{
    contiene_id, spec_decodificar_ack_delegado, spec_decodificar_delegado,
    spec_decodificar_ecommerce, spec_tipo_de_byte, AckDelegado, MensajeDelegado, MensajeEcommerce,
    MensajesServidor, TipoMensaje,
};
use crate::{siguiente_id_local, CANTIDAD_LOCALES};

verus! {

broadcast use vstd::std_specs::hash::group_hash_axioms;

/// Lo que el servidor encuentra al decodificar un datagrama recibido
/// por su socket principal
pub enum DatagramaServidor {
    PedidoEcommerce(MensajeEcommerce),
    PedidoDelegado(MensajeDelegado),
    Ack(AckDelegado),
    Matar,
    Revivir,
    Desconocido,
}

/// Decodifica un datagrama entrante y lo clasifica segun su tipo.
/// Los tipos que el servidor no atiende, los tipos inexistentes y los
/// cuerpos cortos caen todos en `Desconocido`
pub fn clasificar_datagrama(buf: &[u8]) -> (r: DatagramaServidor)
    ensures
        ({
            let hay_tipo = buf@.len() >= 1 && spec_tipo_de_byte(buf@[0]) is Some;
            match r {
                DatagramaServidor::PedidoEcommerce(m) => {
                    &&& hay_tipo
                    &&& spec_tipo_de_byte(buf@[0]) == Some(TipoMensaje::MensajeEcommerce)
                    &&& spec_decodificar_ecommerce(buf@.skip(1)) == Some(m)
                },
                DatagramaServidor::PedidoDelegado(m) => {
                    &&& hay_tipo
                    &&& spec_tipo_de_byte(buf@[0]) == Some(TipoMensaje::MensajeDelegado)
                    &&& spec_decodificar_delegado(buf@.skip(1)) == Some(m.modelo())
                    &&& m.rastro_valido()
                    &&& m.locales_ack@.len() <= u16::MAX
                },
                DatagramaServidor::Ack(a) => {
                    &&& hay_tipo
                    &&& spec_tipo_de_byte(buf@[0]) == Some(TipoMensaje::AckDelegado)
                    &&& spec_decodificar_ack_delegado(buf@.skip(1)) == Some(a)
                },
                DatagramaServidor::Matar => hay_tipo && spec_tipo_de_byte(buf@[0]) == Some(
                    TipoMensaje::Matar,
                ),
                DatagramaServidor::Revivir => hay_tipo && spec_tipo_de_byte(buf@[0]) == Some(
                    TipoMensaje::Revivir,
                ),
                DatagramaServidor::Desconocido => {
                    ||| !hay_tipo
                    ||| spec_tipo_de_byte(buf@[0]) == Some(TipoMensaje::MensajeServidor)
                    ||| spec_tipo_de_byte(buf@[0]) == Some(TipoMensaje::AckEcommerce)
                    ||| (spec_tipo_de_byte(buf@[0]) == Some(TipoMensaje::MensajeEcommerce)
                        && spec_decodificar_ecommerce(buf@.skip(1)) is None)
                    ||| (spec_tipo_de_byte(buf@[0]) == Some(TipoMensaje::MensajeDelegado)
                        && spec_decodificar_delegado(buf@.skip(1)) is None)
                    ||| (spec_tipo_de_byte(buf@[0]) == Some(TipoMensaje::AckDelegado)
                        && spec_decodificar_ack_delegado(buf@.skip(1)) is None)
                },
            }
        }),
{
    let tipo = match TipoMensaje::from_bytes(buf) {
        Ok(t) => t,
        Err(_) => {
            return DatagramaServidor::Desconocido;
        },
    };
    let (_, cuerpo) = buf.split_at(1);
    proof {
        assert(cuerpo@ =~= buf@.skip(1));
    }
    match tipo {
        TipoMensaje::MensajeEcommerce => match MensajeEcommerce::from_bytes(cuerpo) {
            Ok(m) => DatagramaServidor::PedidoEcommerce(m),
            Err(_) => DatagramaServidor::Desconocido,
        },
        TipoMensaje::MensajeDelegado => match MensajeDelegado::from_bytes(cuerpo) {
            Ok(m) => DatagramaServidor::PedidoDelegado(m),
            Err(_) => DatagramaServidor::Desconocido,
        },
        TipoMensaje::AckDelegado => match AckDelegado::from_bytes(cuerpo) {
            Ok(a) => DatagramaServidor::Ack(a),
            Err(_) => DatagramaServidor::Desconocido,
        },
        TipoMensaje::Matar => DatagramaServidor::Matar,
        TipoMensaje::Revivir => DatagramaServidor::Revivir,
        _ => DatagramaServidor::Desconocido,
    }
}

/// Accion que el servidor decide para un pedido delegado (o recien
/// llegado de un ecommerce, envuelto como delegado)
pub enum AccionPedido {
    /// El local ya esta en el rastro: nadie tiene stock, avisarle
    /// al ecommerce
    ResponderSinStock,
    /// La reserva quedo hecha: correr la resolucion del pedido
    Resolver,
    /// No hay stock aca: delegar este mensaje, que ya lleva al local
    /// en su rastro, al siguiente de la rueda
    Delegar(MensajeDelegado),
}

/// Estructura que procesa los pedidos recibidos de diversos ecommerces,
/// delegando el manejo del stock a un guardian, y los pedidos que no
/// puede cumplir a un local cercano
pub struct ServidorEcommerce {
    pub guardian: Guardian,
    pub id_local: u16,
    pub acks_delegados: HashSet<u32>,
}

impl ServidorEcommerce {
    /// Crea un servidor a partir de un guardian y un id asignado; el
    /// socket por el que escucha queda en manos de quien lo ejecuta
    pub fn new(guardian: Guardian, id: u16) -> (r: Self)
        requires
            id < CANTIDAD_LOCALES as u16,
        ensures
            r.guardian == guardian,
            r.id_local == id,
            r.acks_delegados@ == Set::<u32>::empty(),
    {
        Self { guardian, id_local: id, acks_delegados: HashSet::new() }
    }

    /// Procesa la llegada de un ack de otro local, dejando constancia
    /// para la tarea que lo espera
    pub fn procesar_ack_delegado(&mut self, ack: AckDelegado)
        ensures
            final(self).acks_delegados@ == old(self).acks_delegados@.insert(
                spec_clave(ack.id_pedido, ack.puerto),
            ),
            final(self).guardian == old(self).guardian,
            final(self).id_local == old(self).id_local,
    {
        let k = clave(ack.id_pedido, ack.puerto);
        self.acks_delegados.insert(k);
    }

    /// Consume el ack esperado por una delegacion, si ya llego.
    /// Devuelve si estaba; quien espera vuelve a preguntar tras cada
    /// notificacion
    pub fn tomar_ack(&mut self, id_pedido: u16, puerto: u16) -> (r: bool)
        ensures
            r == old(self).acks_delegados@.contains(spec_clave(id_pedido, puerto)),
            final(self).acks_delegados@ == old(self).acks_delegados@.remove(
                spec_clave(id_pedido, puerto),
            ),
            final(self).guardian == old(self).guardian,
            final(self).id_local == old(self).id_local,
    {
        let k = clave(id_pedido, puerto);
        self.acks_delegados.remove(&k)
    }

    /// Envuelve un pedido recien llegado de un ecommerce como mensaje
    /// de delegacion con rastro vacio, listo para el mismo recorrido
    /// que un pedido delegado
    pub fn envolver_pedido(&self, mensaje: MensajeEcommerce, puerto_cliente: u16) -> (r:
        MensajeDelegado)
        ensures
            r.mensaje_ecommerce == mensaje,
            r.puerto_ecommerce == puerto_cliente,
            r.locales_ack@ == Seq::<u16>::empty(),
            r.rastro_valido(),
    {
        MensajeDelegado::new(mensaje, puerto_cliente, Vec::new())
    }

    /// Decide que hacer con un pedido: si este local ya esta en el
    /// rastro responde que no hay stock; si no, intenta reservar, y
    /// segun el resultado resuelve o delega con el rastro ampliado
    pub fn procesar_pedido(&mut self, mensaje: &MensajeDelegado) -> (r: AccionPedido)
        requires
            mensaje.rastro_valido(),
            mensaje.locales_ack@.len() < u16::MAX,
        ensures
            final(self).id_local == old(self).id_local,
            final(self).acks_delegados == old(self).acks_delegados,
            ({
                let id_pedido = mensaje.mensaje_ecommerce.id_pedido;
                let puerto = mensaje.puerto_ecommerce;
                let (stock2, bloqueados2, res) = spec_bloquear(
                    old(self).guardian.stock_modelo(),
                    old(self).guardian.bloqueados_modelo(),
                    mensaje.mensaje_ecommerce.pedido,
                    id_pedido,
                    puerto,
                );
                if mensaje.locales_ack@.contains(old(self).id_local) {
                    &&& r is ResponderSinStock
                    &&& final(self).guardian.stock_modelo() == old(self).guardian.stock_modelo()
                    &&& final(self).guardian.bloqueados_modelo() == old(
                        self,
                    ).guardian.bloqueados_modelo()
                } else if res is Ok {
                    &&& r is Resolver
                    &&& final(self).guardian.stock_modelo() == stock2
                    &&& final(self).guardian.bloqueados_modelo() == bloqueados2
                } else {
                    &&& match r {
                        AccionPedido::Delegar(m2) => {
                            &&& m2.mensaje_ecommerce == mensaje.mensaje_ecommerce
                            &&& m2.puerto_ecommerce == mensaje.puerto_ecommerce
                            &&& m2.locales_ack@.to_set() == mensaje.locales_ack@.to_set().insert(
                                old(self).id_local,
                            )
                            &&& m2.rastro_valido()
                            &&& m2.locales_ack@.len() == mensaje.locales_ack@.len() + 1
                        },
                        _ => false,
                    }
                    &&& final(self).guardian.stock_modelo() == old(self).guardian.stock_modelo()
                    &&& final(self).guardian.bloqueados_modelo() == old(
                        self,
                    ).guardian.bloqueados_modelo()
                }
            }),
    {
        if contiene_id(&mensaje.locales_ack, self.id_local) {
            return AccionPedido::ResponderSinStock;
        }
        let bloqueo = Bloquear::new(
            mensaje.get_pedido(),
            mensaje.get_id(),
            mensaje.puerto_ecommerce,
        );
        match self.guardian.bloquear(bloqueo) {
            Ok(_) => AccionPedido::Resolver,
            Err(_) => {
                let mut rastro = mensaje.locales_ack.clone();
                proof {
                    assert(rastro@ =~= mensaje.locales_ack@);
                }
                let ghost antes = rastro@;
                rastro.push(self.id_local);
                proof {
                    assert forall|j: int, k: int| 0 <= j < k < rastro@.len() implies rastro@[j]
                        != rastro@[k] by {
                        if k < antes.len() {
                        } else {
                            assert(rastro@[k] == old(self).id_local);
                            assert(antes.contains(antes[j]));
                        }
                    }
                    assert(rastro@ =~= antes + seq![old(self).id_local]);
                    Seq::lemma_to_set_insert_commutes(antes, old(self).id_local);
                }
                AccionPedido::Delegar(
                    MensajeDelegado::new(
                        mensaje.mensaje_ecommerce,
                        mensaje.puerto_ecommerce,
                        rastro,
                    ),
                )
            },
        }
    }

    /// Registra el desenlace de un pedido reservado: si fue entregado y
    /// el aviso al ecommerce salio, la reserva se confirma; en cualquier
    /// otro caso se cancela y el stock vuelve al estante
    pub fn registrar_desenlace(
        &mut self,
        id_pedido: u16,
        puerto: u16,
        entregado: bool,
        aviso_entregado: bool,
    ) -> (r: Result<(), ErrorGuardian>)
        ensures
            final(self).id_local == old(self).id_local,
            final(self).acks_delegados == old(self).acks_delegados,
            ({
                if entregado && aviso_entregado {
                    let (bloqueados2, r2) = spec_confirmar(
                        old(self).guardian.bloqueados_modelo(),
                        id_pedido,
                        puerto,
                    );
                    &&& final(self).guardian.stock_modelo() == old(self).guardian.stock_modelo()
                    &&& final(self).guardian.bloqueados_modelo() == bloqueados2
                    &&& r == r2
                } else {
                    let (stock2, bloqueados2, r2) = spec_cancelar(
                        old(self).guardian.stock_modelo(),
                        old(self).guardian.bloqueados_modelo(),
                        id_pedido,
                        puerto,
                    );
                    &&& final(self).guardian.stock_modelo() == stock2
                    &&& final(self).guardian.bloqueados_modelo() == bloqueados2
                    &&& r == r2
                }
            }),
    {
        if entregado && aviso_entregado {
            self.guardian.confirmar(Confirmar::new(id_pedido, puerto))
        } else {
            self.guardian.cancelar(Cancelar::new(id_pedido, puerto))
        }
    }
}

/// Decide si un pedido sera entregado, dada la demora que le toco:
/// se entrega cuando la espera fue corta
pub fn sera_entregado(demora: u64) -> (r: bool)
    ensures
        r == (demora < 1000),
{
    demora < 1000
}

/// Demora de entrega de un pedido, en milisegundos; quien resuelve el
/// pedido espera ese tiempo antes de decidir.
/// Relies on rand's `Rng::gen_range`, que con un rango `a..b` devuelve
/// un valor uniforme en `[a, b)`.
#[verifier::external_body]
pub fn demora_entrega() -> (r: u64)
    ensures
        500 <= r < 1500,
{
    rand::Rng::gen_range(&mut rand::thread_rng(), 500..1500)
}

/// Mensaje con el que se le avisa al ecommerce el desenlace de su
/// pedido reservado
pub fn mensaje_resultado(id_pedido: u16, entregado: bool) -> (r: MensajesServidor)
    ensures
        r == (if entregado {
            MensajesServidor::PedidoExitoso(id_pedido)
        } else {
            MensajesServidor::PedidoCancelado(id_pedido)
        }),
{
    if entregado {
        MensajesServidor::PedidoExitoso(id_pedido)
    } else {
        MensajesServidor::PedidoCancelado(id_pedido)
    }
}

/// Lo que corresponde hacer cuando el mensajero no pudo delegar
#[derive(Clone, Copy, Debug, PartialEq, Eq, Structural)]
pub enum TrasErrorEnvio {
    /// El destino no respondio: probar con el siguiente local
    ProbarSiguiente,
    /// Se cayo la conexion propia: no hay a quien delegar
    Abandonar,
}

/// Decide como seguir tras un error del mensajero al delegar: un
/// destino inaccesible manda a probar el siguiente local de la rueda;
/// la caida de la propia conexion corta el recorrido
pub fn decidir_tras_error_envio(e: ErrorMensajero) -> (r: TrasErrorEnvio)
    ensures
        r == (match e {
            ErrorMensajero::DestinoInaccesible => TrasErrorEnvio::ProbarSiguiente,
            ErrorMensajero::InternetCaido => TrasErrorEnvio::Abandonar,
        }),
{
    match e {
        ErrorMensajero::DestinoInaccesible => TrasErrorEnvio::ProbarSiguiente,
        ErrorMensajero::InternetCaido => TrasErrorEnvio::Abandonar,
    }
}

/// Recorrido de delegacion de un pedido por la rueda de locales: el
/// local que delega prueba candidato por candidato, hasta que alguno
/// acusa recibo o la vuelta se cierra sobre el mismo
pub struct Delegacion {
    pub mensaje: MensajeDelegado,
    pub id_propia: u16,
    pub candidato: u16,
}

/// Pasos que mide cuanto le queda al recorrido antes de cerrarse
/// sobre el local que delega
pub open spec fn distancia_rueda(desde: u16, hasta: u16) -> int {
    (hasta as int - desde as int + CANTIDAD_LOCALES as int) % (CANTIDAD_LOCALES as int)
}

impl Delegacion {
    /// Comienza el recorrido en el local que delega
    pub fn nueva(mensaje: MensajeDelegado, id_propia: u16) -> (r: Self)
        requires
            id_propia < CANTIDAD_LOCALES as u16,
        ensures
            r.mensaje == mensaje,
            r.id_propia == id_propia,
            r.candidato == id_propia,
    {
        Self { mensaje, id_propia, candidato: id_propia }
    }

    /// Avanza al siguiente local de la rueda: devuelve a quien probar,
    /// o nada si la vuelta se cerro y no queda local por probar
    pub fn siguiente(&mut self) -> (r: Option<u16>)
        requires
            old(self).candidato < CANTIDAD_LOCALES as u16,
            old(self).id_propia < CANTIDAD_LOCALES as u16,
        ensures
            final(self).mensaje == old(self).mensaje,
            final(self).id_propia == old(self).id_propia,
            ({
                let sig = (old(self).candidato + 1) % (CANTIDAD_LOCALES as int);
                if sig == old(self).id_propia {
                    r is None && final(self).candidato == old(self).candidato
                } else {
                    &&& r == Some(sig as u16)
                    &&& final(self).candidato == sig
                    &&& distancia_rueda(sig as u16, old(self).id_propia) == (
                    if old(self).candidato == old(self).id_propia {
                        CANTIDAD_LOCALES as int - 1
                    } else {
                        distancia_rueda(old(self).candidato, old(self).id_propia) - 1
                    })
                }
            }),
    {
        proof {
            lemma_delegacion_termina(self.candidato, self.id_propia);
        }
        let sig = siguiente_id_local(self.candidato);
        if sig == self.id_propia {
            None
        } else {
            self.candidato = sig;
            Some(sig)
        }
    }
}

/// Terminacion del recorrido: la distancia hasta el local que delega
/// es menor que la cantidad de locales y cada paso la reduce en uno,
/// asi que a lo sumo tras `CANTIDAD_LOCALES - 1` envios la vuelta se
/// cierra y el recorrido responde que no hay stock
pub proof fn lemma_delegacion_termina(candidato: u16, id_propia: u16)
    requires
        candidato < CANTIDAD_LOCALES as u16,
        id_propia < CANTIDAD_LOCALES as u16,
    ensures
        0 <= distancia_rueda(candidato, id_propia) < CANTIDAD_LOCALES as int,
        distancia_rueda(candidato, id_propia) == 0 <==> candidato == id_propia,
        ({
            let sig = (candidato + 1) % (CANTIDAD_LOCALES as int);
            &&& (sig != id_propia && candidato != id_propia ==> distancia_rueda(sig as u16,
                id_propia,
            ) == distancia_rueda(candidato, id_propia) - 1)
            &&& (sig != id_propia && candidato == id_propia ==> distancia_rueda(sig as u16,
                id_propia,
            ) == CANTIDAD_LOCALES as int - 1)
        }),
{
    let n = CANTIDAD_LOCALES as int;
    lemma_distancia(candidato, id_propia);
    let sig = (candidato + 1) % n;
    assert(0 <= sig < n) by {
        vstd::arithmetic::div_mod::lemma_mod_bound(candidato + 1, n);
    }
    if candidato + 1 < n {
        vstd::arithmetic::div_mod::lemma_small_mod((candidato + 1) as nat, n as nat);
        assert(sig == candidato + 1);
    } else {
        assert(candidato + 1 == n);
        vstd::arithmetic::div_mod::lemma_mod_self_0(n);
        assert(sig == 0);
    }
    if sig != id_propia {
        lemma_distancia(sig as u16, id_propia);
    }
}

/// Valor explicito de la distancia en la rueda: la resta de los ids,
/// dando la vuelta cuando queda negativa
proof fn lemma_distancia(desde: u16, hasta: u16)
    requires
        desde < CANTIDAD_LOCALES as u16,
        hasta < CANTIDAD_LOCALES as u16,
    ensures
        distancia_rueda(desde, hasta) == (if hasta >= desde {
            hasta - desde
        } else {
            hasta as int - desde as int + CANTIDAD_LOCALES as int
        }),
{
    let n = CANTIDAD_LOCALES as int;
    let x = hasta as int - desde as int + n;
    if x < n {
        vstd::arithmetic::div_mod::lemma_small_mod(x as nat, n as nat);
    } else {
        vstd::arithmetic::div_mod::lemma_mod_multiples_vanish(1, x - n, n);
        vstd::arithmetic::div_mod::lemma_small_mod((x - n) as nat, n as nat);
    }
}

} // verus!
