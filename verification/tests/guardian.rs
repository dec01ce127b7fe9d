//! Pruebas del guardian de stock: descuentos directos, bloqueos,
//! confirmaciones y cancelaciones.

use std::collections::HashMap;

use pidgeonhole::errores::ErrorGuardian;
use pidgeonhole::local::guardian::{Bloquear, Cancelar, Confirmar, Guardian, ObtenerStock};
use pidgeonhole::local::mensajes_actores::{Descontar, Respuestas};
use pidgeonhole::pedido::Pedido;

fn crear_guardian() -> Guardian {
    let mut stock = HashMap::new();
    stock.insert(1, 5);
    stock.insert(2, 5);
    stock.insert(3, 5);

    Guardian::new(stock)
}

#[test]
fn test_escenario_descontar_descuenta_cuando_hay_stock_justo() {
    let mut guardian = crear_guardian();
    let respuesta = guardian.descontar(Descontar::new(Pedido::new(1, 5), 1));
    match respuesta {
        Respuestas::PedidoConcretado(id) => assert_eq!(id, 1),
        _ => panic!(),
    };
}

#[test]
fn test_escenario_descontar_descuenta_cuando_hay_stock() {
    let mut guardian = crear_guardian();
    let respuesta = guardian.descontar(Descontar::new(Pedido::new(1, 3), 1));
    match respuesta {
        Respuestas::PedidoConcretado(id) => assert_eq!(id, 1),
        _ => panic!(),
    };
}

#[test]
fn test_escenario_descontar_manda_error_cuando_no_hay_stock() {
    let mut guardian = crear_guardian();
    let respuesta = guardian.descontar(Descontar::new(Pedido::new(7, 3), 1));
    match respuesta {
        Respuestas::ProductoNoDisponible(id) => assert_eq!(id, 1),
        _ => panic!(),
    };
}

#[test]
fn test_escenario_descontar_manda_error_cuando_no_hay_stock_suficiente() {
    let mut guardian = crear_guardian();
    let respuesta = guardian.descontar(Descontar::new(Pedido::new(3, 7), 1));
    match respuesta {
        Respuestas::StockInsuficiente(id) => assert_eq!(id, 1),
        _ => panic!(),
    };
}

#[test]
fn bloquear_bloquea_un_stock_cuando_lo_hay() {
    let mut guardian = crear_guardian();

    let res = guardian.bloquear(Bloquear::new(Pedido::new(1, 1), 1, 1));
    assert!(res.is_ok());
    assert_eq!(guardian.obtener_stock(ObtenerStock { id: 1 }), 4);
}

#[test]
fn bloquear_devuelve_error_cuando_no_hay_producto_con_ese_id() {
    let mut guardian = crear_guardian();

    let res = guardian.bloquear(Bloquear::new(Pedido::new(7, 10), 1, 1));
    assert!(res.is_err());
}

#[test]
fn bloquear_devuelve_error_cuando_no_hay_suficiente_stock_y_stock_se_mantiene() {
    let mut guardian = crear_guardian();

    let res = guardian.bloquear(Bloquear::new(Pedido::new(3, 10), 1, 1));
    assert!(res.is_err());
    assert_eq!(guardian.obtener_stock(ObtenerStock { id: 3 }), 5);
}

#[test]
fn confirmar_devuelve_error_si_no_habia_pedido_bloqueado() {
    let mut guardian = crear_guardian();

    let res = guardian.confirmar(Confirmar::new(1, 1));
    assert!(res.is_err());
}

#[test]
fn cancelar_devuelve_error_si_no_habia_pedido_bloqueado() {
    let mut guardian = crear_guardian();

    let res = guardian.cancelar(Cancelar::new(1, 1));
    assert!(res.is_err());
}

#[test]
fn confirmar_devuelve_ok_si_habia_pedido_bloqueado() {
    let mut guardian = crear_guardian();

    let res = guardian.bloquear(Bloquear::new(Pedido::new(1, 1), 1, 1));
    assert!(res.is_ok());

    let res = guardian.confirmar(Confirmar::new(1, 1));
    assert!(res.is_ok());
    assert_eq!(guardian.obtener_stock(ObtenerStock { id: 1 }), 4);
}

#[test]
fn cancelar_restaura_stock_si_habia_pedido_bloqueado() {
    let mut guardian = crear_guardian();

    let res = guardian.bloquear(Bloquear::new(Pedido::new(1, 1), 1, 1));
    assert!(res.is_ok());

    let res = guardian.cancelar(Cancelar::new(1, 1));
    assert!(res.is_ok());

    assert_eq!(guardian.obtener_stock(ObtenerStock { id: 1 }), 5);
}

#[test]
fn bloquear_agotando_el_producto_borra_la_clave_y_cancelar_la_repone() {
    let mut guardian = crear_guardian();

    let res = guardian.bloquear(Bloquear::new(Pedido::new(2, 5), 4, 9));
    assert!(res.is_ok());
    assert_eq!(guardian.obtener_stock(ObtenerStock { id: 2 }), 0);

    let res = guardian.cancelar(Cancelar::new(4, 9));
    assert!(res.is_ok());
    assert_eq!(guardian.obtener_stock(ObtenerStock { id: 2 }), 5);
}

#[test]
fn bloquear_dos_veces_la_misma_clave_no_prospera_y_no_descuenta_de_nuevo() {
    // Dos reservas con la misma clave nunca prosperan ambas: la
    // segunda falla y deja el estante y las reservas como estaban
    let mut guardian = crear_guardian();

    assert!(guardian.bloquear(Bloquear::new(Pedido::new(1, 2), 1, 1000)).is_ok());
    assert_eq!(guardian.obtener_stock(ObtenerStock { id: 1 }), 3);

    let res = guardian.bloquear(Bloquear::new(Pedido::new(1, 2), 1, 1000));
    assert_eq!(res, Err(ErrorGuardian::PedidoYaBloqueado));
    assert_eq!(guardian.obtener_stock(ObtenerStock { id: 1 }), 3);

    // la unica reserva sigue entera: cancelarla repone sus dos unidades
    assert!(guardian.cancelar(Cancelar::new(1, 1000)).is_ok());
    assert_eq!(guardian.obtener_stock(ObtenerStock { id: 1 }), 5);
}

#[test]
fn reservas_de_ecommerces_distintos_no_se_pisan() {
    // El mismo id de pedido desde dos puertos distintos son dos
    // reservas independientes
    let mut guardian = crear_guardian();

    assert!(guardian.bloquear(Bloquear::new(Pedido::new(1, 2), 7, 1000)).is_ok());
    assert!(guardian.bloquear(Bloquear::new(Pedido::new(1, 2), 7, 2000)).is_ok());
    assert_eq!(guardian.obtener_stock(ObtenerStock { id: 1 }), 1);

    assert!(guardian.cancelar(Cancelar::new(7, 1000)).is_ok());
    assert_eq!(guardian.obtener_stock(ObtenerStock { id: 1 }), 3);
    assert!(guardian.confirmar(Confirmar::new(7, 2000)).is_ok());
    assert_eq!(guardian.obtener_stock(ObtenerStock { id: 1 }), 3);
}
