//! Modelo del recorrido de un pedido por la rueda de locales.
//!
//! Para un pedido dado (id de pedido y puerto del ecommerce fijos), el
//! protocolo entrega la responsabilidad de local en local: el que acusa
//! recibo de la delegacion pasa a ser el unico dueño del pedido, y solo
//! el dueño que logro reservar emite el veredicto final al ecommerce.
//! Aqui ese recorrido esta escrito como una maquina de estados, y sobre
//! ella se prueban dos cosas: que a lo sumo un local emite el veredicto
//! (exitoso o cancelado), y que el rastro acota la cantidad de
//! delegaciones, porque crece en uno por salto y solo puede nombrar
//! locales de la rueda.

use vstd::prelude::*;

use crate::CANTIDAD_LOCALES;

verus! {

/// Donde se encuentra un pedido a lo largo de su recorrido
pub ghost enum FaseOrden {
    /// Todavia en manos del ecommerce, sin local que lo acepte
    EnEcommerce,
    /// Un unico local es dueño del pedido y decide que hacer
    EnLocal { local: u16 },
    /// El dueño logro reservar stock y resolvera el pedido
    Reservada { local: u16 },
    /// El dueño emitio el veredicto al ecommerce: entregado o cancelado
    Resuelta { local: u16, entregado: bool },
    /// Algun local se vio en el rastro y aviso que nadie tiene stock
    SinStock,
}

/// Estado de un pedido: su fase y el rastro de locales que ya
/// rechazaron el pedido por falta de stock
pub ghost struct OrdenEnCurso {
    pub fase: FaseOrden,
    pub rastro: Set<u16>,
}

/// Pasos que el protocolo permite dar sobre un pedido
pub ghost enum PasoOrden {
    /// Un local acusa recibo del pedido y pasa a ser su dueño
    Aceptar { local: u16 },
    /// El dueño reserva stock; exige que no se haya visto en el rastro
    Reservar,
    /// El dueño no tiene stock: se agrega al rastro y el siguiente
    /// local que acusa recibo pasa a ser el dueño
    Delegar { siguiente: u16 },
    /// El dueño que reservo emite el veredicto al ecommerce
    Resolver { entregado: bool },
    /// El dueño se ve en el rastro: avisa que nadie tiene stock
    Abandonar,
}

/// Estado con el que empieza todo recorrido: el pedido en el
/// ecommerce, con el rastro vacio
pub open spec fn orden_inicial() -> OrdenEnCurso {
    OrdenEnCurso { fase: FaseOrden::EnEcommerce, rastro: Set::empty() }
}

/// Relacion de transicion del protocolo: que pasos valen desde cada
/// estado, y como queda el pedido despues de cada uno
pub open spec fn paso_valido(antes: OrdenEnCurso, paso: PasoOrden, despues: OrdenEnCurso) -> bool {
    match paso {
        PasoOrden::Aceptar { local } => {
            &&& antes.fase == FaseOrden::EnEcommerce
            &&& local < CANTIDAD_LOCALES as u16
            &&& despues == OrdenEnCurso { fase: FaseOrden::EnLocal { local }, ..antes }
        },
        PasoOrden::Reservar => match antes.fase {
            FaseOrden::EnLocal { local } => {
                &&& !antes.rastro.contains(local)
                &&& despues == OrdenEnCurso { fase: FaseOrden::Reservada { local }, ..antes }
            },
            _ => false,
        },
        PasoOrden::Delegar { siguiente } => match antes.fase {
            FaseOrden::EnLocal { local } => {
                &&& !antes.rastro.contains(local)
                &&& siguiente < CANTIDAD_LOCALES as u16
                &&& despues == OrdenEnCurso {
                    fase: FaseOrden::EnLocal { local: siguiente },
                    rastro: antes.rastro.insert(local),
                }
            },
            _ => false,
        },
        PasoOrden::Resolver { entregado } => match antes.fase {
            FaseOrden::Reservada { local } => despues == OrdenEnCurso {
                fase: FaseOrden::Resuelta { local, entregado },
                ..antes
            },
            _ => false,
        },
        PasoOrden::Abandonar => match antes.fase {
            FaseOrden::EnLocal { local } => {
                &&& antes.rastro.contains(local)
                &&& despues == OrdenEnCurso { fase: FaseOrden::SinStock, ..antes }
            },
            _ => false,
        },
    }
}

/// Un recorrido valido: una cadena de estados que empieza en el estado
/// inicial, enlazada paso a paso por la relacion de transicion
pub open spec fn recorrido_valido(estados: Seq<OrdenEnCurso>, pasos: Seq<PasoOrden>) -> bool {
    &&& estados.len() == pasos.len() + 1
    &&& estados[0] == orden_inicial()
    &&& forall|i: int| 0 <= i < pasos.len() ==> paso_valido(estados[i], pasos[i], estados[i + 1])
}

/// De un pedido resuelto, y de uno abandonado por falta de stock, no
/// sale ningun paso: son fases terminales
pub proof fn lemma_resuelta_es_terminal(antes: OrdenEnCurso, paso: PasoOrden, despues: OrdenEnCurso)
    requires
        antes.fase is Resuelta || antes.fase is SinStock,
    ensures
        !paso_valido(antes, paso, despues),
{
}

/// Resolutor unico: en todo recorrido valido, a lo sumo un paso emite
/// el veredicto al ecommerce, y lo emite el local que habia reservado.
/// Un segundo veredicto exigiria un paso que salga de una fase
/// terminal, y no lo hay
pub proof fn lemma_resolutor_unico(estados: Seq<OrdenEnCurso>, pasos: Seq<PasoOrden>)
    requires
        recorrido_valido(estados, pasos),
    ensures
        forall|i: int| 0 <= i < pasos.len() && pasos[i] is Resolver ==> i == pasos.len() - 1,
        forall|i: int| 0 <= i < pasos.len() && pasos[i] is Resolver ==> (#[trigger] estados[i].fase)
            is Reservada,
        forall|i: int, j: int|
            0 <= i < pasos.len() && 0 <= j < pasos.len() && i != j ==> !((#[trigger] pasos[i])
                is Resolver && (#[trigger] pasos[j]) is Resolver),
{
    assert forall|i: int| 0 <= i < pasos.len() && pasos[i] is Resolver implies i == pasos.len()
        - 1 by {
        assert(paso_valido(estados[i], pasos[i], estados[i + 1]));
        assert(estados[i + 1].fase is Resuelta);
        if i < pasos.len() - 1 {
            lemma_resuelta_es_terminal(estados[i + 1], pasos[i + 1], estados[i + 2]);
            assert(paso_valido(estados[i + 1], pasos[i + 1], estados[i + 2]));
        }
    }
    assert forall|i: int| 0 <= i < pasos.len() && pasos[i] is Resolver implies (
    #[trigger] estados[i].fase) is Reservada by {
        assert(paso_valido(estados[i], pasos[i], estados[i + 1]));
    }
}

/// Puente con el servidor: cada accion que la decision sobre un
/// pedido puede tomar es un paso valido del protocolo desde el estado
/// del local que la toma. Verse en el rastro abandona, reservar
/// retiene, y no poder reservar delega con el local sumado al rastro
pub proof fn lemma_accion_da_un_paso(
    local: u16,
    rastro: Set<u16>,
    reservado: bool,
    siguiente: u16,
)
    requires
        local < CANTIDAD_LOCALES as u16,
        siguiente < CANTIDAD_LOCALES as u16,
    ensures
        ({
            let antes = OrdenEnCurso { fase: FaseOrden::EnLocal { local }, rastro };
            if rastro.contains(local) {
                paso_valido(
                    antes,
                    PasoOrden::Abandonar,
                    OrdenEnCurso { fase: FaseOrden::SinStock, rastro },
                )
            } else if reservado {
                paso_valido(
                    antes,
                    PasoOrden::Reservar,
                    OrdenEnCurso { fase: FaseOrden::Reservada { local }, rastro },
                )
            } else {
                paso_valido(
                    antes,
                    PasoOrden::Delegar { siguiente },
                    OrdenEnCurso {
                        fase: FaseOrden::EnLocal { local: siguiente },
                        rastro: rastro.insert(local),
                    },
                )
            }
        }),
{
}

/// Cuantos pasos de una secuencia son delegaciones
pub open spec fn cuenta_delegaciones(pasos: Seq<PasoOrden>) -> int
    decreases pasos.len(),
{
    if pasos.len() == 0 {
        0
    } else {
        cuenta_delegaciones(pasos.drop_last()) + (if pasos.last() is Delegar {
            1int
        } else {
            0int
        })
    }
}

/// Los identificadores que la rueda conoce
pub open spec fn locales_de_la_rueda() -> Set<u16> {
    Set::new(|l: u16| l < CANTIDAD_LOCALES as u16)
}

/// La rueda tiene exactamente sus cuatro locales
pub proof fn lemma_rueda_finita()
    ensures
        locales_de_la_rueda().finite(),
        locales_de_la_rueda().len() == CANTIDAD_LOCALES as int,
{
    assert(locales_de_la_rueda() =~= Set::empty().insert(0u16).insert(1u16).insert(2u16).insert(
        3u16,
    ));
}

/// A lo largo de un recorrido valido, el rastro solo nombra locales de
/// la rueda y su tamaño cuenta exactamente las delegaciones dadas
pub proof fn lemma_rastro_crece(estados: Seq<OrdenEnCurso>, pasos: Seq<PasoOrden>, k: int)
    requires
        recorrido_valido(estados, pasos),
        0 <= k <= pasos.len(),
    ensures
        estados[k].rastro.finite(),
        estados[k].rastro.subset_of(locales_de_la_rueda()),
        estados[k].rastro.len() == cuenta_delegaciones(pasos.take(k)),
    decreases k,
{
    if k == 0 {
        assert(pasos.take(0) =~= Seq::<PasoOrden>::empty());
    } else {
        lemma_rastro_crece(estados, pasos, k - 1);
        assert(paso_valido(estados[k - 1], pasos[k - 1], estados[k]));
        assert(pasos.take(k).drop_last() =~= pasos.take(k - 1));
        assert(pasos.take(k).last() == pasos[k - 1]);
        match pasos[k - 1] {
            PasoOrden::Delegar { siguiente } => {
                let local = estados[k - 1].fase->EnLocal_local;
                assert(!estados[k - 1].rastro.contains(local));
                assert(estados[k].rastro == estados[k - 1].rastro.insert(local));
            },
            _ => {},
        }
    }
}

/// Terminacion por el rastro: todo recorrido valido da a lo sumo
/// tantas delegaciones como locales hay, porque cada delegacion agrega
/// un local nuevo al rastro y el rastro vive dentro de la rueda
pub proof fn lemma_delegaciones_acotadas(estados: Seq<OrdenEnCurso>, pasos: Seq<PasoOrden>)
    requires
        recorrido_valido(estados, pasos),
    ensures
        cuenta_delegaciones(pasos) <= CANTIDAD_LOCALES as int,
{
    let k = pasos.len() as int;
    lemma_rastro_crece(estados, pasos, k);
    assert(pasos.take(k) =~= pasos);
    lemma_rueda_finita();
    vstd::set_lib::lemma_len_subset(estados[k].rastro, locales_de_la_rueda());
}

} // verus!
