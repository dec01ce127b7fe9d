//! Estructura de guardian, encargada del handle de los pedidos, ya sea
//! interno del local como de los ecommerce, derivados por el local.
//!
//! El guardian custodia el stock del local y la tabla de pedidos
//! bloqueados. Su modelo matematico son dos mapas: el estante
//! (producto a cantidad disponible) y las reservas (clave de pedido a
//! pedido). El inventario de un producto es lo que hay en el estante
//! mas lo reservado; las operaciones lo conservan o lo reducen, nunca
//! lo inventan.

use std::collections::HashMap;
use vstd::prelude::*;
use vstd::set::fold::{is_fun_commutative, lemma_fold_empty, lemma_fold_insert};

use crate::aliases::TablaStock;
use crate::errores::ErrorGuardian;
use crate::local::mensajes_actores::{Descontar, Respuestas};
use crate::pedido::Pedido;

verus! {

broadcast use vstd::std_specs::hash::group_hash_axioms;

/// Clave con la que se identifica un pedido bloqueado: el id del pedido
/// y el puerto del ecommerce que lo realizo, empaquetados en un entero
pub open spec fn spec_clave(id_pedido: u16, puerto: u16) -> u32 {
    (id_pedido as int * 65536 + puerto as int) as u32
}

/// Empaqueta un id de pedido y un puerto en una clave de bloqueo
pub fn clave(id_pedido: u16, puerto: u16) -> (r: u32)
    ensures
        r == spec_clave(id_pedido, puerto),
{
    (id_pedido as u32) * 65536 + (puerto as u32)
}

/// Dos pares distintos de id y puerto reciben claves distintas
pub proof fn lemma_clave_inyectiva(id1: u16, p1: u16, id2: u16, p2: u16)
    requires
        spec_clave(id1, p1) == spec_clave(id2, p2),
    ensures
        id1 == id2 && p1 == p2,
{
}

/// Lo que un pedido bloqueado aporta a lo reservado de un producto
pub open spec fn aporte(kv: (u32, Pedido), producto: u16) -> int {
    if kv.1.id_producto == producto {
        kv.1.cantidad as int
    } else {
        0
    }
}

/// El acumulador con el que se suma lo reservado de un producto
pub open spec fn sumador(producto: u16) -> spec_fn(int, (u32, Pedido)) -> int {
    |acc: int, kv: (u32, Pedido)| acc + aporte(kv, producto)
}

/// Total reservado de un producto en una tabla de pedidos bloqueados
pub open spec fn suma_reservada(bloqueados: Map<u32, Pedido>, producto: u16) -> int {
    bloqueados.kv_pairs().fold(0int, sumador(producto))
}

/// Cantidad de un producto en el estante; la ausencia de la clave
/// representa la cantidad cero
pub open spec fn valor_stock(stock: Map<u16, u16>, producto: u16) -> int {
    if stock.contains_key(producto) {
        stock[producto] as int
    } else {
        0
    }
}

/// Inventario de un producto en un local: lo que hay en el estante mas
/// lo reservado por pedidos bloqueados
pub open spec fn inventario(
    stock: Map<u16, u16>,
    bloqueados: Map<u32, Pedido>,
    producto: u16,
) -> int {
    valor_stock(stock, producto) + suma_reservada(bloqueados, producto)
}

/// En una tabla vacia no hay nada reservado
pub proof fn lemma_suma_vacia(producto: u16)
    ensures
        suma_reservada(Map::<u32, Pedido>::empty(), producto) == 0,
{
    assert(Map::<u32, Pedido>::empty().kv_pairs() =~= Set::<(u32, Pedido)>::empty());
    lemma_fold_empty(0int, sumador(producto));
}

/// Los pares clave-pedido de una tabla finita forman un conjunto finito
pub proof fn lemma_kv_finitos(m: Map<u32, Pedido>)
    requires
        m.dom().finite(),
    ensures
        m.kv_pairs().finite(),
    decreases m.dom().len(),
{
    if m.dom().len() == 0 {
        assert(m.dom() =~= Set::empty());
        assert(m.kv_pairs() =~= Set::<(u32, Pedido)>::empty());
    } else {
        let k = m.dom().choose();
        assert(m.dom().contains(k));
        let resto = m.remove(k);
        lemma_kv_finitos(resto);
        assert(m.kv_pairs() =~= resto.kv_pairs().insert((k, m[k])));
    }
}

/// Bloquear un pedido bajo una clave nueva suma su aporte a lo reservado
pub proof fn lemma_suma_insertar(m: Map<u32, Pedido>, k: u32, pedido: Pedido, producto: u16)
    requires
        m.dom().finite(),
        !m.dom().contains(k),
    ensures
        suma_reservada(m.insert(k, pedido), producto) == suma_reservada(m, producto) + aporte(
            (k, pedido),
            producto,
        ),
{
    lemma_kv_finitos(m);
    assert(m.insert(k, pedido).kv_pairs() =~= m.kv_pairs().insert((k, pedido)));
    assert(!m.kv_pairs().contains((k, pedido)));
    assert(is_fun_commutative(sumador(producto)));
    lemma_fold_insert(m.kv_pairs(), 0int, sumador(producto), (k, pedido));
}

/// Quitar un pedido bloqueado resta su aporte de lo reservado
pub proof fn lemma_suma_quitar(m: Map<u32, Pedido>, k: u32, producto: u16)
    requires
        m.dom().finite(),
        m.dom().contains(k),
    ensures
        suma_reservada(m, producto) == suma_reservada(m.remove(k), producto) + aporte(
            (k, m[k]),
            producto,
        ),
{
    let resto = m.remove(k);
    assert(m =~= resto.insert(k, m[k]));
    lemma_suma_insertar(resto, k, m[k], producto);
}

/// Lo reservado de un producto nunca es negativo
pub proof fn lemma_suma_no_negativa(m: Map<u32, Pedido>, producto: u16)
    requires
        m.dom().finite(),
    ensures
        suma_reservada(m, producto) >= 0,
    decreases m.dom().len(),
{
    if m.dom().len() == 0 {
        assert(m =~= Map::<u32, Pedido>::empty());
        lemma_suma_vacia(producto);
    } else {
        let k = m.dom().choose();
        assert(m.dom().contains(k));
        lemma_suma_quitar(m, k, producto);
        lemma_suma_no_negativa(m.remove(k), producto);
    }
}

/// Resultado de descontar una cantidad de un producto del estante.
/// Si hay estrictamente mas que lo pedido se resta; si hay exactamente
/// lo pedido la clave desaparece; si hay menos, o no hay clave, el
/// estante queda igual y se informa el error
pub open spec fn spec_descontar(stock: Map<u16, u16>, id: u16, cantidad: u8) -> (
    Map<u16, u16>,
    Result<(), ErrorGuardian>,
) {
    if stock.contains_key(id) {
        let disponible = stock[id];
        if disponible > cantidad as u16 {
            (stock.insert(id, (disponible - cantidad as u16) as u16), Ok(()))
        } else if disponible == cantidad as u16 {
            (stock.remove(id), Ok(()))
        } else {
            (stock, Err(ErrorGuardian::NoHaySuficienteStock))
        }
    } else {
        (stock, Err(ErrorGuardian::NoHayStock))
    }
}

/// Resultado de bloquear un pedido: si su clave ya tiene una reserva,
/// nada cambia y el bloqueo no prospera (dos reservas del mismo pedido
/// nunca prosperan ambas); si no, se descuenta del estante y, solo si
/// eso sale bien, la reserva queda anotada bajo su clave
pub open spec fn spec_bloquear(
    stock: Map<u16, u16>,
    bloqueados: Map<u32, Pedido>,
    pedido: Pedido,
    id_pedido: u16,
    puerto: u16,
) -> (Map<u16, u16>, Map<u32, Pedido>, Result<(), ErrorGuardian>) {
    if bloqueados.contains_key(spec_clave(id_pedido, puerto)) {
        (stock, bloqueados, Err(ErrorGuardian::PedidoYaBloqueado))
    } else {
        let (stock2, r) = spec_descontar(stock, pedido.id_producto, pedido.cantidad);
        match r {
            Ok(_) => (stock2, bloqueados.insert(spec_clave(id_pedido, puerto), pedido), Ok(())),
            Err(e) => (stock, bloqueados, Err(e)),
        }
    }
}

/// Resultado de confirmar un pedido bloqueado: la reserva desaparece y
/// el estante no se toca (ya habia sido descontado)
pub open spec fn spec_confirmar(bloqueados: Map<u32, Pedido>, id_pedido: u16, puerto: u16) -> (
    Map<u32, Pedido>,
    Result<(), ErrorGuardian>,
) {
    let k = spec_clave(id_pedido, puerto);
    if bloqueados.contains_key(k) {
        (bloqueados.remove(k), Ok(()))
    } else {
        (bloqueados, Err(ErrorGuardian::PedidoInexistente))
    }
}

/// Resultado de cancelar un pedido bloqueado: la reserva desaparece y
/// su cantidad vuelve al estante, creando la clave si no estaba
pub open spec fn spec_cancelar(
    stock: Map<u16, u16>,
    bloqueados: Map<u32, Pedido>,
    id_pedido: u16,
    puerto: u16,
) -> (Map<u16, u16>, Map<u32, Pedido>, Result<(), ErrorGuardian>) {
    let k = spec_clave(id_pedido, puerto);
    if bloqueados.contains_key(k) {
        let pedido = bloqueados[k];
        let nuevo = (valor_stock(stock, pedido.id_producto) + pedido.cantidad as int) as u16;
        (stock.insert(pedido.id_producto, nuevo), bloqueados.remove(k), Ok(()))
    } else {
        (stock, bloqueados, Err(ErrorGuardian::PedidoInexistente))
    }
}

/// Estructura de guardian. Cuenta con el stock del local y con un mapa
/// en el que guarda los pedidos que fueron bloqueados pero aun no
/// confirmados, identificandolos por la clave que empaqueta el id del
/// pedido y el puerto del ecommerce que lo realizo
pub struct Guardian {
    stock: TablaStock,
    pedidos_bloqueados: HashMap<u32, Pedido>,
}

impl Guardian {
    /// Tabla de stock del local, para contratos
    pub closed spec fn stock_modelo(&self) -> Map<u16, u16> {
        self.stock@
    }

    /// Tabla de pedidos bloqueados, para contratos
    pub closed spec fn bloqueados_modelo(&self) -> Map<u32, Pedido> {
        self.pedidos_bloqueados@
    }

    /// El inventario de cada producto entra en un entero de 16 bits:
    /// lo que hay en el estante mas lo reservado nunca desborda
    #[verifier::type_invariant]
    spec fn valido(self) -> bool {
        forall|p: u16| #[trigger] inventario(self.stock@, self.pedidos_bloqueados@, p)
            <= u16::MAX as int
    }

    /// Crea un nuevo guardian dado un stock a resguardar
    pub fn new(stock: TablaStock) -> (r: Self)
        ensures
            r.stock_modelo() == stock@,
            r.bloqueados_modelo() == Map::<u32, Pedido>::empty(),
    {
        let pedidos_bloqueados: HashMap<u32, Pedido> = HashMap::new();
        proof {
            assert forall|p: u16| inventario(stock@, pedidos_bloqueados@, p)
                <= u16::MAX as int by {
                lemma_suma_vacia(p);
            }
        }
        Self { stock, pedidos_bloqueados }
    }

    /// Descuenta una cantidad determinada de un producto, devolviendo
    /// el resultado de la operacion
    /// # Errors
    /// * `ErrorGuardian::NoHaySuficienteStock` si existe producto, pero
    ///   el stock no es suficiente
    /// * `ErrorGuardian::NoHayStock` si no hay ninguna unidad del producto
    fn descontar_stock(&mut self, id: u16, cantidad: u8) -> (r: Result<(), ErrorGuardian>)
        ensures
            ({
                let (stock2, r2) = spec_descontar(old(self).stock_modelo(), id, cantidad);
                &&& final(self).stock_modelo() == stock2
                &&& r == r2
                &&& final(self).bloqueados_modelo() == old(self).bloqueados_modelo()
            }),
    {
        proof {
            use_type_invariant(&*self);
        }
        let ghost estante_viejo = self.stock@;
        let ghost reservas = self.pedidos_bloqueados@;
        let mut stock: TablaStock = HashMap::new();
        proof {
            assert forall|p: u16| inventario(stock@, reservas, p) <= u16::MAX as int by {
                assert(inventario(estante_viejo, reservas, p) <= u16::MAX as int);
            }
        }
        core::mem::swap(&mut stock, &mut self.stock);
        let resultado: Result<(), ErrorGuardian> = match stock.get(&id) {
            Some(cantidad_disp) => {
                let disponible: u16 = *cantidad_disp;
                if disponible > cantidad as u16 {
                    stock.insert(id, disponible - cantidad as u16);
                    Ok(())
                } else if disponible == cantidad as u16 {
                    stock.remove(&id);
                    Ok(())
                } else {
                    Err(ErrorGuardian::NoHaySuficienteStock)
                }
            },
            None => Err(ErrorGuardian::NoHayStock),
        };
        proof {
            assert forall|p: u16| inventario(stock@, reservas, p) <= u16::MAX as int by {
                assert(inventario(estante_viejo, reservas, p) <= u16::MAX as int);
                assert(valor_stock(stock@, p) <= valor_stock(estante_viejo, p));
            }
        }
        core::mem::swap(&mut stock, &mut self.stock);
        resultado
    }

    /// Responde el mensaje de descuento directo de stock de un pedido
    /// local, indicando en la respuesta como resulto el intento
    pub fn descontar(&mut self, msg: Descontar) -> (r: Respuestas)
        ensures
            ({
                let (stock2, r2) = spec_descontar(
                    old(self).stock_modelo(),
                    msg.pedido.id_producto,
                    msg.pedido.cantidad,
                );
                &&& final(self).stock_modelo() == stock2
                &&& final(self).bloqueados_modelo() == old(self).bloqueados_modelo()
                &&& r == (match r2 {
                    Ok(_) => Respuestas::PedidoConcretado(msg.id),
                    Err(ErrorGuardian::NoHaySuficienteStock) => Respuestas::StockInsuficiente(
                        msg.id,
                    ),
                    Err(_) => Respuestas::ProductoNoDisponible(msg.id),
                })
            }),
    {
        match self.descontar_stock(msg.pedido.get_id(), msg.pedido.get_amount()) {
            Ok(_) => Respuestas::PedidoConcretado(msg.id),
            Err(ErrorGuardian::NoHaySuficienteStock) => Respuestas::StockInsuficiente(msg.id),
            Err(_) => Respuestas::ProductoNoDisponible(msg.id),
        }
    }

    /// Responde cuanto stock hay de un producto; la ausencia de la
    /// clave es la cantidad cero
    /// Expone lo que todo guardian garantiza: su tabla de reservas es
    /// finita y el inventario de cada producto entra en un entero de
    /// 16 bits. Lo establecen los constructores y lo preserva cada
    /// operacion; con esto, quien usa un guardian cualquiera puede
    /// aplicar los lemas de conservacion a sus tablas
    pub fn acotado(&self)
        ensures
            self.bloqueados_modelo().dom().finite(),
            forall|p: u16| #[trigger] inventario(self.stock_modelo(), self.bloqueados_modelo(), p)
                <= u16::MAX as int,
    {
        proof {
            use_type_invariant(&*self);
        }
    }

    pub fn obtener_stock(&self, msg: ObtenerStock) -> (r: u16)
        ensures
            r as int == valor_stock(self.stock_modelo(), msg.id),
    {
        match self.stock.get(&msg.id) {
            Some(cantidad) => *cantidad,
            None => 0,
        }
    }

    /// Bloquea cierta cantidad de stock a nombre de un pedido.
    /// # Errors
    /// * si hay stock de un producto, pero no tanto como se pidio,
    ///   devuelve `ErrorGuardian::NoHaySuficienteStock`
    /// * si no hay stock del producto devuelve `ErrorGuardian::NoHayStock`
    pub fn bloquear(&mut self, msg: Bloquear) -> (r: Result<(), ErrorGuardian>)
        ensures
            ({
                let (stock2, bloqueados2, r2) = spec_bloquear(
                    old(self).stock_modelo(),
                    old(self).bloqueados_modelo(),
                    msg.pedido,
                    msg.id_pedido,
                    msg.puerto,
                );
                &&& final(self).stock_modelo() == stock2
                &&& final(self).bloqueados_modelo() == bloqueados2
                &&& r == r2
            }),
    {
        proof {
            use_type_invariant(&*self);
        }
        let ghost estante_viejo = self.stock@;
        let ghost reservas_viejas = self.pedidos_bloqueados@;
        let k = clave(msg.id_pedido, msg.puerto);
        if self.pedidos_bloqueados.contains_key(&k) {
            return Err(ErrorGuardian::PedidoYaBloqueado);
        }
        let resultado = self.descontar_stock(msg.pedido.get_id(), msg.pedido.get_amount());
        if let Err(e) = resultado {
            return Err(e);
        }
        let ghost estante = self.stock@;
        let mut pedidos_bloqueados: HashMap<u32, Pedido> = HashMap::new();
        proof {
            assert forall|p: u16| inventario(estante, pedidos_bloqueados@, p)
                <= u16::MAX as int by {
                lemma_suma_vacia(p);
                lemma_suma_no_negativa(reservas_viejas, p);
                assert(inventario(estante_viejo, reservas_viejas, p) <= u16::MAX as int);
            }
        }
        core::mem::swap(&mut pedidos_bloqueados, &mut self.pedidos_bloqueados);
        pedidos_bloqueados.insert(k, msg.pedido);
        proof {
            assert forall|p: u16| inventario(estante, pedidos_bloqueados@, p)
                <= u16::MAX as int by {
                assert(inventario(estante_viejo, reservas_viejas, p) <= u16::MAX as int);
                lemma_suma_insertar(reservas_viejas, k, msg.pedido, p);
            }
        }
        core::mem::swap(&mut pedidos_bloqueados, &mut self.pedidos_bloqueados);
        Ok(())
    }

    /// Confirma un pedido que se encontraba bloqueado, mediante su
    /// identificador; el estante no se toca porque ya fue descontado.
    /// # Errors
    /// * si no habia un pedido bloqueado con ese identificador devuelve
    ///   `ErrorGuardian::PedidoInexistente`
    pub fn confirmar(&mut self, msg: Confirmar) -> (r: Result<(), ErrorGuardian>)
        ensures
            ({
                let (bloqueados2, r2) = spec_confirmar(
                    old(self).bloqueados_modelo(),
                    msg.id_pedido,
                    msg.puerto,
                );
                &&& final(self).stock_modelo() == old(self).stock_modelo()
                &&& final(self).bloqueados_modelo() == bloqueados2
                &&& r == r2
            }),
    {
        proof {
            use_type_invariant(&*self);
        }
        let ghost estante = self.stock@;
        let ghost reservas_viejas = self.pedidos_bloqueados@;
        let k = clave(msg.id_pedido, msg.puerto);
        let mut pedidos_bloqueados: HashMap<u32, Pedido> = HashMap::new();
        proof {
            assert forall|p: u16| inventario(estante, pedidos_bloqueados@, p)
                <= u16::MAX as int by {
                lemma_suma_vacia(p);
                lemma_suma_no_negativa(reservas_viejas, p);
                assert(inventario(estante, reservas_viejas, p) <= u16::MAX as int);
            }
        }
        core::mem::swap(&mut pedidos_bloqueados, &mut self.pedidos_bloqueados);
        let resultado: Result<(), ErrorGuardian> = match pedidos_bloqueados.remove(&k) {
            None => Err(ErrorGuardian::PedidoInexistente),
            Some(_) => Ok(()),
        };
        proof {
            assert forall|p: u16| inventario(estante, pedidos_bloqueados@, p)
                <= u16::MAX as int by {
                assert(inventario(estante, reservas_viejas, p) <= u16::MAX as int);
                if reservas_viejas.contains_key(k) {
                    lemma_suma_quitar(reservas_viejas, k, p);
                    assert(aporte((k, reservas_viejas[k]), p) >= 0);
                } else {
                    assert(reservas_viejas.remove(k) =~= reservas_viejas);
                }
            }
        }
        core::mem::swap(&mut pedidos_bloqueados, &mut self.pedidos_bloqueados);
        resultado
    }

    /// Cancela un pedido que se encontraba bloqueado, mediante su
    /// identificador, volviendo a dejar disponible el stock que estaba
    /// bloqueado.
    /// # Errors
    /// * si no habia un pedido bloqueado con ese identificador devuelve
    ///   `ErrorGuardian::PedidoInexistente`
    pub fn cancelar(&mut self, msg: Cancelar) -> (r: Result<(), ErrorGuardian>)
        ensures
            ({
                let (stock2, bloqueados2, r2) = spec_cancelar(
                    old(self).stock_modelo(),
                    old(self).bloqueados_modelo(),
                    msg.id_pedido,
                    msg.puerto,
                );
                &&& final(self).stock_modelo() == stock2
                &&& final(self).bloqueados_modelo() == bloqueados2
                &&& r == r2
            }),
    {
        proof {
            use_type_invariant(&*self);
        }
        let ghost estante_viejo = self.stock@;
        let ghost reservas_viejas = self.pedidos_bloqueados@;
        let k = clave(msg.id_pedido, msg.puerto);
        let mut pedidos_bloqueados: HashMap<u32, Pedido> = HashMap::new();
        proof {
            assert forall|p: u16| inventario(estante_viejo, pedidos_bloqueados@, p)
                <= u16::MAX as int by {
                lemma_suma_vacia(p);
                lemma_suma_no_negativa(reservas_viejas, p);
                assert(inventario(estante_viejo, reservas_viejas, p) <= u16::MAX as int);
            }
        }
        core::mem::swap(&mut pedidos_bloqueados, &mut self.pedidos_bloqueados);
        let quitado = pedidos_bloqueados.remove(&k);
        let resultado: Result<(), ErrorGuardian> = match quitado {
            Some(pedido) => {
                proof {
                    lemma_suma_quitar(reservas_viejas, k, pedido.id_producto);
                    lemma_suma_no_negativa(reservas_viejas.remove(k), pedido.id_producto);
                    assert(inventario(estante_viejo, reservas_viejas, pedido.id_producto)
                        <= u16::MAX as int);
                }
                let disponible = match self.stock.get(&pedido.get_id()) {
                    Some(cantidad) => *cantidad,
                    None => 0,
                };
                let nuevo: u16 = disponible + pedido.get_amount() as u16;
                let mut stock: TablaStock = HashMap::new();
                proof {
                    assert forall|p: u16| inventario(stock@, self.pedidos_bloqueados@, p)
                        <= u16::MAX as int by {
                        lemma_suma_vacia(p);
                    }
                }
                core::mem::swap(&mut stock, &mut self.stock);
                stock.insert(pedido.get_id(), nuevo);
                proof {
                    assert forall|p: u16| inventario(stock@, self.pedidos_bloqueados@, p)
                        <= u16::MAX as int by {
                        lemma_suma_vacia(p);
                    }
                }
                core::mem::swap(&mut stock, &mut self.stock);
                proof {
                    assert forall|p: u16| inventario(self.stock@, pedidos_bloqueados@, p)
                        <= u16::MAX as int by {
                        lemma_suma_quitar(reservas_viejas, k, p);
                        lemma_suma_no_negativa(reservas_viejas.remove(k), p);
                        assert(inventario(estante_viejo, reservas_viejas, p) <= u16::MAX as int);
                    }
                }
                Ok(())
            },
            None => {
                proof {
                    assert(reservas_viejas.remove(k) =~= reservas_viejas);
                    assert forall|p: u16| inventario(self.stock@, pedidos_bloqueados@, p)
                        <= u16::MAX as int by {
                        assert(inventario(estante_viejo, reservas_viejas, p) <= u16::MAX as int);
                    }
                }
                Err(ErrorGuardian::PedidoInexistente)
            },
        };
        core::mem::swap(&mut pedidos_bloqueados, &mut self.pedidos_bloqueados);
        resultado
    }
}

/// Conservacion del inventario al descontar: si la operacion sale bien
/// el inventario del producto pedido baja exactamente en la cantidad y
/// el de los demas productos no cambia; si falla, el estante queda igual
pub proof fn lemma_conservacion_descontar(
    stock: Map<u16, u16>,
    bloqueados: Map<u32, Pedido>,
    id: u16,
    cantidad: u8,
    p: u16,
)
    ensures
        ({
            let (stock2, r) = spec_descontar(stock, id, cantidad);
            match r {
                Ok(_) => inventario(stock2, bloqueados, p) == inventario(stock, bloqueados, p) - (
                if p == id {
                    cantidad as int
                } else {
                    0
                }),
                Err(_) => stock2 == stock,
            }
        }),
{
}

/// Conservacion del inventario al bloquear: reservar no crea ni
/// destruye unidades; lo que sale del estante queda anotado como
/// reservado, para todo producto
pub proof fn lemma_conservacion_bloquear(
    stock: Map<u16, u16>,
    bloqueados: Map<u32, Pedido>,
    pedido: Pedido,
    id_pedido: u16,
    puerto: u16,
    p: u16,
)
    requires
        bloqueados.dom().finite(),
    ensures
        ({
            let (stock2, bloqueados2, r) = spec_bloquear(stock, bloqueados, pedido, id_pedido,
                puerto);
            match r {
                Ok(_) => inventario(stock2, bloqueados2, p) == inventario(stock, bloqueados, p),
                Err(_) => stock2 == stock && bloqueados2 == bloqueados,
            }
        }),
{
    let k = spec_clave(id_pedido, puerto);
    if !bloqueados.contains_key(k) {
        let (stock2, r) = spec_descontar(stock, pedido.id_producto, pedido.cantidad);
        if r is Ok {
            lemma_suma_insertar(bloqueados, k, pedido, p);
        }
    }
}

/// Conservacion del inventario al cancelar: devolver la reserva al
/// estante no crea ni destruye unidades, para todo producto
pub proof fn lemma_conservacion_cancelar(
    stock: Map<u16, u16>,
    bloqueados: Map<u32, Pedido>,
    id_pedido: u16,
    puerto: u16,
    p: u16,
)
    requires
        bloqueados.dom().finite(),
        bloqueados.contains_key(spec_clave(id_pedido, puerto)) ==> inventario(
            stock,
            bloqueados,
            bloqueados[spec_clave(id_pedido, puerto)].id_producto,
        ) <= u16::MAX as int,
    ensures
        ({
            let (stock2, bloqueados2, r) = spec_cancelar(stock, bloqueados, id_pedido, puerto);
            match r {
                Ok(_) => inventario(stock2, bloqueados2, p) == inventario(stock, bloqueados, p),
                Err(_) => stock2 == stock && bloqueados2 == bloqueados,
            }
        }),
{
    let k = spec_clave(id_pedido, puerto);
    if bloqueados.contains_key(k) {
        let pedido = bloqueados[k];
        let producto = pedido.id_producto;
        lemma_suma_quitar(bloqueados, k, p);
        lemma_suma_quitar(bloqueados, k, producto);
        lemma_suma_no_negativa(bloqueados.remove(k), producto);
        assert(valor_stock(stock, producto) + pedido.cantidad as int <= u16::MAX as int);
    }
}

/// Conservacion del inventario al confirmar: el inventario del producto
/// reservado baja exactamente en la cantidad reservada y el de los
/// demas productos no cambia
pub proof fn lemma_conservacion_confirmar(
    stock: Map<u16, u16>,
    bloqueados: Map<u32, Pedido>,
    id_pedido: u16,
    puerto: u16,
    p: u16,
)
    requires
        bloqueados.dom().finite(),
    ensures
        ({
            let (bloqueados2, r) = spec_confirmar(bloqueados, id_pedido, puerto);
            match r {
                Ok(_) => inventario(stock, bloqueados2, p) == inventario(stock, bloqueados, p)
                    - aporte((spec_clave(id_pedido, puerto), bloqueados[spec_clave(id_pedido,
                    puerto)]), p),
                Err(_) => bloqueados2 == bloqueados,
            }
        }),
{
    let k = spec_clave(id_pedido, puerto);
    if bloqueados.contains_key(k) {
        lemma_suma_quitar(bloqueados, k, p);
    }
}

/// Descontar sin stock no toca nada: si el producto no esta en el
/// estante el error es que no hay stock, y si esta pero no alcanza el
/// error es que no hay suficiente; en ambos casos el estante queda
/// exactamente igual
pub proof fn lemma_descontar_fuera_de_stock(stock: Map<u16, u16>, id: u16, cantidad: u8)
    ensures
        ({
            let (stock2, r) = spec_descontar(stock, id, cantidad);
            &&& !stock.contains_key(id) ==> r == Err::<(), ErrorGuardian>(
                ErrorGuardian::NoHayStock,
            ) && stock2 == stock
            &&& stock.contains_key(id) && stock[id] < cantidad as u16 ==> r == Err::<
                (),
                ErrorGuardian,
            >(ErrorGuardian::NoHaySuficienteStock) && stock2 == stock
        }),
{
}

/// A una reserva con clave nueva y stock suficiente se le debe el
/// exito: si el producto esta en el estante con al menos la cantidad
/// pedida, el bloqueo prospera
pub proof fn lemma_reserva_prospera_con_stock(
    stock: Map<u16, u16>,
    bloqueados: Map<u32, Pedido>,
    pedido: Pedido,
    id_pedido: u16,
    puerto: u16,
)
    requires
        !bloqueados.contains_key(spec_clave(id_pedido, puerto)),
        stock.contains_key(pedido.id_producto),
        stock[pedido.id_producto] >= pedido.cantidad as u16,
    ensures
        spec_bloquear(stock, bloqueados, pedido, id_pedido, puerto).2 is Ok,
{
}

/// Dos reservas con la misma clave nunca prosperan ambas: tras un
/// bloqueo que prospero, un segundo bloqueo con la misma clave falla
/// y deja el estante y las reservas exactamente como estaban
pub proof fn lemma_doble_reserva_no_prospera(
    stock: Map<u16, u16>,
    bloqueados: Map<u32, Pedido>,
    pedido1: Pedido,
    pedido2: Pedido,
    id_pedido: u16,
    puerto: u16,
)
    requires
        spec_bloquear(stock, bloqueados, pedido1, id_pedido, puerto).2 is Ok,
    ensures
        ({
            let (stock2, bloqueados2, _) = spec_bloquear(stock, bloqueados, pedido1, id_pedido,
                puerto);
            let (stock3, bloqueados3, r3) = spec_bloquear(stock2, bloqueados2, pedido2, id_pedido,
                puerto);
            &&& r3 == Err::<(), ErrorGuardian>(ErrorGuardian::PedidoYaBloqueado)
            &&& stock3 == stock2
            &&& bloqueados3 == bloqueados2
        }),
{
}

/// Conservacion a lo largo de un pedido exitoso: entre la reserva y la
/// confirmacion el inventario de cada producto se conserva, y al
/// confirmar baja exactamente en la cantidad pedida, solo para el
/// producto pedido
pub proof fn lemma_inventario_pedido_exitoso(
    stock: Map<u16, u16>,
    bloqueados: Map<u32, Pedido>,
    pedido: Pedido,
    id_pedido: u16,
    puerto: u16,
    p: u16,
)
    requires
        bloqueados.dom().finite(),
        spec_bloquear(stock, bloqueados, pedido, id_pedido, puerto).2 is Ok,
    ensures
        ({
            let (stock2, bloqueados2, _) = spec_bloquear(stock, bloqueados, pedido, id_pedido,
                puerto);
            let (bloqueados3, r3) = spec_confirmar(bloqueados2, id_pedido, puerto);
            &&& inventario(stock2, bloqueados2, p) == inventario(stock, bloqueados, p)
            &&& r3 is Ok
            &&& inventario(stock2, bloqueados3, p) == inventario(stock, bloqueados, p) - (
            if p == pedido.id_producto {
                pedido.cantidad as int
            } else {
                0
            })
        }),
{
    let k = spec_clave(id_pedido, puerto);
    let (stock2, bloqueados2, _) = spec_bloquear(stock, bloqueados, pedido, id_pedido, puerto);
    lemma_conservacion_bloquear(stock, bloqueados, pedido, id_pedido, puerto, p);
    lemma_conservacion_confirmar(stock2, bloqueados2, id_pedido, puerto, p);
}

/// Conservacion a lo largo de un pedido cancelado: tras la reserva y
/// su cancelacion el inventario de cada producto queda igual que antes
pub proof fn lemma_inventario_pedido_cancelado(
    stock: Map<u16, u16>,
    bloqueados: Map<u32, Pedido>,
    pedido: Pedido,
    id_pedido: u16,
    puerto: u16,
    p: u16,
)
    requires
        bloqueados.dom().finite(),
        spec_bloquear(stock, bloqueados, pedido, id_pedido, puerto).2 is Ok,
    ensures
        ({
            let (stock2, bloqueados2, _) = spec_bloquear(stock, bloqueados, pedido, id_pedido,
                puerto);
            let (stock3, bloqueados3, r3) = spec_cancelar(stock2, bloqueados2, id_pedido, puerto);
            &&& r3 is Ok
            &&& inventario(stock3, bloqueados3, p) == inventario(stock, bloqueados, p)
        }),
{
    lemma_reservar_luego_cancelar(stock, bloqueados, pedido, id_pedido, puerto);
}

/// Orden del guardian: reservar y luego cancelar devuelve el estante y
/// las reservas exactamente a su estado previo
pub proof fn lemma_reservar_luego_cancelar(
    stock: Map<u16, u16>,
    bloqueados: Map<u32, Pedido>,
    pedido: Pedido,
    id_pedido: u16,
    puerto: u16,
)
    requires
        spec_bloquear(stock, bloqueados, pedido, id_pedido, puerto).2 is Ok,
    ensures
        ({
            let (stock2, bloqueados2, _) = spec_bloquear(stock, bloqueados, pedido, id_pedido,
                puerto);
            let (stock3, bloqueados3, r3) = spec_cancelar(stock2, bloqueados2, id_pedido, puerto);
            &&& stock3 == stock
            &&& bloqueados3 == bloqueados
            &&& r3 == Ok::<(), ErrorGuardian>(())
        }),
{
    let k = spec_clave(id_pedido, puerto);
    let producto = pedido.id_producto;
    let (stock2, bloqueados2, _) = spec_bloquear(stock, bloqueados, pedido, id_pedido, puerto);
    let (stock3, bloqueados3, r3) = spec_cancelar(stock2, bloqueados2, id_pedido, puerto);
    assert(bloqueados2.contains_key(k));
    assert(bloqueados2[k] == pedido);
    assert(bloqueados3 =~= bloqueados);
    let disponible = stock[producto];
    if disponible > pedido.cantidad as u16 {
        assert(valor_stock(stock2, producto) == disponible - pedido.cantidad as int);
        assert(stock3 =~= stock);
    } else {
        assert(disponible == pedido.cantidad as u16);
        assert(valor_stock(stock2, producto) == 0);
        assert(stock3 =~= stock);
    }
}

/// Orden del guardian: reservar y luego confirmar deja el estante
/// reducido exactamente en la cantidad del pedido, sin reserva anotada
pub proof fn lemma_reservar_luego_confirmar(
    stock: Map<u16, u16>,
    bloqueados: Map<u32, Pedido>,
    pedido: Pedido,
    id_pedido: u16,
    puerto: u16,
)
    requires
        spec_bloquear(stock, bloqueados, pedido, id_pedido, puerto).2 is Ok,
    ensures
        ({
            let (stock2, bloqueados2, _) = spec_bloquear(stock, bloqueados, pedido, id_pedido,
                puerto);
            let (bloqueados3, r3) = spec_confirmar(bloqueados2, id_pedido, puerto);
            &&& bloqueados3 == bloqueados
            &&& !bloqueados3.contains_key(spec_clave(id_pedido, puerto))
            &&& r3 == Ok::<(), ErrorGuardian>(())
            &&& valor_stock(stock2, pedido.id_producto) == valor_stock(stock, pedido.id_producto)
                - pedido.cantidad as int
            &&& forall|p: u16| p != pedido.id_producto ==> valor_stock(stock2, p) == valor_stock(
                stock,
                p,
            )
        }),
{
    let k = spec_clave(id_pedido, puerto);
    let (stock2, bloqueados2, _) = spec_bloquear(stock, bloqueados, pedido, id_pedido, puerto);
    let (bloqueados3, r3) = spec_confirmar(bloqueados2, id_pedido, puerto);
    assert(bloqueados3 =~= bloqueados);
}

/// Mensaje para chequeo interno, que permite saber cuanto stock
/// hay dado un id de producto
#[derive(Clone, Copy, Debug, PartialEq, Eq, Structural)]
pub struct ObtenerStock {
    pub id: u16,
}

/// Mensaje que permite bloquear cierta cantidad de stock a nombre de
/// un pedido, identificado por su id y el puerto del ecommerce
#[derive(Clone, Copy, Debug, PartialEq, Eq, Structural)]
pub struct Bloquear {
    pub pedido: Pedido,
    pub id_pedido: u16,
    pub puerto: u16,
}

impl Bloquear {
    /// Crea un nuevo mensaje de bloqueo de pedido
    pub fn new(pedido: Pedido, id_pedido: u16, puerto: u16) -> (r: Self)
        ensures
            r.pedido == pedido,
            r.id_pedido == id_pedido,
            r.puerto == puerto,
    {
        Self { pedido, id_pedido, puerto }
    }
}

/// Mensaje que permite confirmar un pedido que se encontraba bloqueado,
/// mediante su identificador
#[derive(Clone, Copy, Debug, PartialEq, Eq, Structural)]
pub struct Confirmar {
    pub id_pedido: u16,
    pub puerto: u16,
}

impl Confirmar {
    /// Crea un nuevo mensaje de confirmacion de un pedido bloqueado
    pub fn new(id_pedido: u16, puerto: u16) -> (r: Self)
        ensures
            r.id_pedido == id_pedido,
            r.puerto == puerto,
    {
        Self { id_pedido, puerto }
    }
}

/// Mensaje que permite cancelar un pedido que se encontraba bloqueado,
/// mediante su identificador
#[derive(Clone, Copy, Debug, PartialEq, Eq, Structural)]
pub struct Cancelar {
    pub id_pedido: u16,
    pub puerto: u16,
}

impl Cancelar {
    /// Crea un nuevo mensaje de cancelacion de un pedido bloqueado
    pub fn new(id_pedido: u16, puerto: u16) -> (r: Self)
        ensures
            r.id_pedido == id_pedido,
            r.puerto == puerto,
    {
        Self { id_pedido, puerto }
    }
}

} // verus!
