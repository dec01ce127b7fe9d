//! Pruebas del servidor de un local: clasificacion de datagramas,
//! decision sobre cada pedido, desenlaces y recorrido de delegacion.

use std::collections::HashMap;

use pidgeonhole::errores::ErrorMensajero;
use pidgeonhole::local::guardian::{Guardian, ObtenerStock};
use pidgeonhole::local::servidor::{
    clasificar_datagrama, decidir_tras_error_envio, demora_entrega, mensaje_resultado,
    sera_entregado, AccionPedido, DatagramaServidor, Delegacion, ServidorEcommerce,
    TrasErrorEnvio,
};
use pidgeonhole::mensajes::{
    AckDelegado, MensajeDelegado, MensajeEcommerce, MensajesServidor, TipoMensaje,
};
use pidgeonhole::pedido::Pedido;
use pidgeonhole::CANTIDAD_LOCALES;

fn servidor_con_stock(id: u16, stock: &[(u16, u16)]) -> ServidorEcommerce {
    let mut tabla = HashMap::new();
    for (producto, cantidad) in stock {
        tabla.insert(*producto, *cantidad);
    }
    ServidorEcommerce::new(Guardian::new(tabla), id)
}

#[test]
fn clasificar_reconoce_cada_tipo() {
    let pedido = MensajeEcommerce::new(1, Pedido::new(2, 3)).as_bytes();
    assert!(matches!(
        clasificar_datagrama(&pedido),
        DatagramaServidor::PedidoEcommerce(_)
    ));

    let delegado =
        MensajeDelegado::new(MensajeEcommerce::new(1, Pedido::new(2, 3)), 9, vec![0]).as_bytes();
    assert!(matches!(
        clasificar_datagrama(&delegado),
        DatagramaServidor::PedidoDelegado(_)
    ));

    let ack = AckDelegado::new(1, 9).as_bytes();
    assert!(matches!(clasificar_datagrama(&ack), DatagramaServidor::Ack(_)));

    assert!(matches!(
        clasificar_datagrama(&[TipoMensaje::Matar.codigo()]),
        DatagramaServidor::Matar
    ));
    assert!(matches!(
        clasificar_datagrama(&[TipoMensaje::Revivir.codigo()]),
        DatagramaServidor::Revivir
    ));
    assert!(matches!(clasificar_datagrama(&[]), DatagramaServidor::Desconocido));
    assert!(matches!(clasificar_datagrama(&[250]), DatagramaServidor::Desconocido));
    // una respuesta de servidor no es para un local
    let respuesta = MensajesServidor::PedidoExitoso(1).as_bytes();
    assert!(matches!(
        clasificar_datagrama(&respuesta),
        DatagramaServidor::Desconocido
    ));
}

#[test]
fn pedido_con_stock_queda_reservado() {
    let mut servidor = servidor_con_stock(0, &[(1, 5)]);
    let mensaje = servidor.envolver_pedido(MensajeEcommerce::new(0, Pedido::new(1, 3)), 50000);
    let accion = servidor.procesar_pedido(&mensaje);
    assert!(matches!(accion, AccionPedido::Resolver));
    // la reserva ya salio del estante
    assert_eq!(servidor.guardian.obtener_stock(ObtenerStock { id: 1 }), 2);
}

#[test]
fn desenlace_entregado_confirma_y_desenlace_fallido_repone() {
    let mut servidor = servidor_con_stock(0, &[(1, 5)]);
    let mensaje = servidor.envolver_pedido(MensajeEcommerce::new(0, Pedido::new(1, 3)), 50000);
    assert!(matches!(servidor.procesar_pedido(&mensaje), AccionPedido::Resolver));

    // entregado y avisado: la reserva se confirma, el estante queda en 2
    assert!(servidor.registrar_desenlace(0, 50000, true, true).is_ok());
    assert_eq!(servidor.guardian.obtener_stock(ObtenerStock { id: 1 }), 2);

    // otro pedido igual, pero el aviso al ecommerce no llega: se cancela
    let mensaje = servidor.envolver_pedido(MensajeEcommerce::new(1, Pedido::new(1, 2)), 50000);
    assert!(matches!(servidor.procesar_pedido(&mensaje), AccionPedido::Resolver));
    assert!(servidor.registrar_desenlace(1, 50000, true, false).is_ok());
    assert_eq!(servidor.guardian.obtener_stock(ObtenerStock { id: 1 }), 2);
}

#[test]
fn pedido_sin_stock_se_delega_con_el_local_en_el_rastro() {
    let mut servidor = servidor_con_stock(2, &[]);
    let mensaje = servidor.envolver_pedido(MensajeEcommerce::new(3, Pedido::new(1, 1)), 50000);
    match servidor.procesar_pedido(&mensaje) {
        AccionPedido::Delegar(delegado) => {
            assert_eq!(delegado.locales_ack, vec![2]);
            assert_eq!(delegado.mensaje_ecommerce, mensaje.mensaje_ecommerce);
            assert_eq!(delegado.puerto_ecommerce, 50000);
        }
        _ => panic!(),
    }
}

#[test]
fn pedido_con_el_local_en_el_rastro_responde_sin_stock() {
    let mut servidor = servidor_con_stock(1, &[(1, 5)]);
    let mensaje = MensajeDelegado::new(MensajeEcommerce::new(3, Pedido::new(1, 1)), 50000, vec![
        0, 1,
    ]);
    assert!(matches!(
        servidor.procesar_pedido(&mensaje),
        AccionPedido::ResponderSinStock
    ));
    // el estante no se toco
    assert_eq!(servidor.guardian.obtener_stock(ObtenerStock { id: 1 }), 5);
}

#[test]
fn la_rueda_resuelve_donde_hay_stock() {
    // Stock solo en el local 0; el pedido entra por el local 1 y la
    // delegacion recorre 2, 3 y 0, que reserva. Entre salto y salto el
    // mensaje viaja codificado como en la red
    let mut locales = vec![
        servidor_con_stock(0, &[(1, 5)]),
        servidor_con_stock(1, &[]),
        servidor_con_stock(2, &[]),
        servidor_con_stock(3, &[]),
    ];

    let mensaje = locales[1].envolver_pedido(MensajeEcommerce::new(0, Pedido::new(1, 3)), 50000);
    let mut accion = locales[1].procesar_pedido(&mensaje);
    let mut saltos = 0;
    loop {
        match accion {
            AccionPedido::Resolver => break,
            AccionPedido::ResponderSinStock => panic!("la rueda tenia stock"),
            AccionPedido::Delegar(delegado) => {
                saltos += 1;
                assert!(saltos <= CANTIDAD_LOCALES as usize);
                let emisor = *delegado.locales_ack.last().unwrap();
                let bytes = delegado.as_bytes();
                let siguiente = ((emisor + 1) % CANTIDAD_LOCALES as u16) as usize;
                match clasificar_datagrama(&bytes) {
                    DatagramaServidor::PedidoDelegado(recibido) => {
                        accion = locales[siguiente].procesar_pedido(&recibido);
                    }
                    _ => panic!("el salto viajo mal"),
                }
            }
        }
    }
    assert_eq!(saltos, 3);
    // el local 0 tiene la reserva hecha
    assert_eq!(locales[0].guardian.obtener_stock(ObtenerStock { id: 1 }), 2);
    assert!(locales[0].registrar_desenlace(0, 50000, true, true).is_ok());
    assert_eq!(locales[0].guardian.obtener_stock(ObtenerStock { id: 1 }), 2);
}

#[test]
fn la_rueda_sin_stock_responde_sin_stock_y_nada_cambia() {
    // Ningun local tiene el producto 7: el pedido da la vuelta entera
    // y el local que se ve en el rastro responde que no hay stock
    let mut locales = vec![
        servidor_con_stock(0, &[(1, 5)]),
        servidor_con_stock(1, &[]),
        servidor_con_stock(2, &[]),
        servidor_con_stock(3, &[]),
    ];

    let mensaje = locales[0].envolver_pedido(MensajeEcommerce::new(0, Pedido::new(7, 1)), 50000);
    let mut accion = locales[0].procesar_pedido(&mensaje);
    let mut saltos = 0;
    loop {
        match accion {
            AccionPedido::Resolver => panic!("no habia stock en ningun lado"),
            AccionPedido::ResponderSinStock => break,
            AccionPedido::Delegar(delegado) => {
                saltos += 1;
                assert!(saltos <= CANTIDAD_LOCALES as usize + 1);
                let emisor = *delegado.locales_ack.last().unwrap();
                let bytes = delegado.as_bytes();
                let siguiente = ((emisor + 1) % CANTIDAD_LOCALES as u16) as usize;
                match clasificar_datagrama(&bytes) {
                    DatagramaServidor::PedidoDelegado(recibido) => {
                        accion = locales[siguiente].procesar_pedido(&recibido);
                    }
                    _ => panic!("el salto viajo mal"),
                }
            }
        }
    }
    assert_eq!(saltos, CANTIDAD_LOCALES as usize);
    for local in locales.iter() {
        assert_eq!(local.guardian.obtener_stock(ObtenerStock { id: 1 }), if local.id_local == 0 { 5 } else { 0 });
        assert_eq!(local.guardian.obtener_stock(ObtenerStock { id: 7 }), 0);
    }
}

#[test]
fn los_acks_delegados_se_registran_y_se_consumen() {
    let mut servidor = servidor_con_stock(0, &[]);
    assert!(!servidor.tomar_ack(4, 50000));
    servidor.procesar_ack_delegado(AckDelegado::new(4, 50000));
    assert!(servidor.tomar_ack(4, 50000));
    assert!(!servidor.tomar_ack(4, 50000));
}

#[test]
fn el_recorrido_de_delegacion_prueba_cada_local_y_se_cierra() {
    let mensaje = MensajeDelegado::new(MensajeEcommerce::new(0, Pedido::new(1, 1)), 9, vec![2]);
    let mut delegacion = Delegacion::nueva(mensaje, 2);
    assert_eq!(delegacion.siguiente(), Some(3));
    assert_eq!(delegacion.siguiente(), Some(0));
    assert_eq!(delegacion.siguiente(), Some(1));
    assert_eq!(delegacion.siguiente(), None);
}

#[test]
fn el_veredicto_depende_de_la_demora() {
    assert!(sera_entregado(999));
    assert!(sera_entregado(500));
    assert!(!sera_entregado(1000));
    assert!(!sera_entregado(1499));
}

#[test]
fn la_demora_cae_en_el_rango_pedido() {
    for _ in 0..50 {
        let demora = demora_entrega();
        assert!((500..1500).contains(&demora));
    }
}

#[test]
fn el_mensaje_de_resultado_acompania_al_veredicto() {
    assert_eq!(mensaje_resultado(7, true), MensajesServidor::PedidoExitoso(7));
    assert_eq!(mensaje_resultado(7, false), MensajesServidor::PedidoCancelado(7));
}

#[test]
fn tras_un_error_de_envio_se_decide_como_seguir() {
    assert_eq!(
        decidir_tras_error_envio(ErrorMensajero::DestinoInaccesible),
        TrasErrorEnvio::ProbarSiguiente
    );
    assert_eq!(
        decidir_tras_error_envio(ErrorMensajero::InternetCaido),
        TrasErrorEnvio::Abandonar
    );
}
