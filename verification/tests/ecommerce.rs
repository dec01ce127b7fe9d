//! Pruebas del lado cliente: el handler con sus tablas, el protocolo
//! de envio de un pedido y la clasificacion de datagramas entrantes.

use pidgeonhole::ecommerce::handler::{
    clasificar_datagrama_cliente, AccionEnvio, DatagramaCliente, EnvioPedido, EstadoEnvio,
    EventoEnvio, Handler,
};
use pidgeonhole::errores::ErrorEcommerce;
use pidgeonhole::mensajes::{AckEcommerce, MensajeDelegado, MensajeEcommerce, MensajesServidor};
use pidgeonhole::pedido::Pedido;
use pidgeonhole::CANTIDAD_LOCALES;

#[test]
fn clasificar_cliente_reconoce_lo_suyo() {
    let ack = AckEcommerce::new(3).as_bytes();
    assert!(matches!(
        clasificar_datagrama_cliente(&ack),
        DatagramaCliente::Ack(_)
    ));

    let respuesta = MensajesServidor::NoHayStock(3).as_bytes();
    assert!(matches!(
        clasificar_datagrama_cliente(&respuesta),
        DatagramaCliente::Respuesta(_)
    ));

    assert!(matches!(
        clasificar_datagrama_cliente(&[]),
        DatagramaCliente::Invalido
    ));
    assert!(matches!(
        clasificar_datagrama_cliente(&[200]),
        DatagramaCliente::Invalido
    ));

    let delegado =
        MensajeDelegado::new(MensajeEcommerce::new(1, Pedido::new(2, 3)), 9, vec![]).as_bytes();
    assert!(matches!(
        clasificar_datagrama_cliente(&delegado),
        DatagramaCliente::Inesperado
    ));
}

#[test]
fn los_acks_se_registran_y_se_consumen() {
    let mut handler = Handler::new();
    assert!(!handler.tomar_ack(2));
    handler.procesar_ack_ecommerce(AckEcommerce::new(2));
    assert!(handler.tomar_ack(2));
    assert!(!handler.tomar_ack(2));
}

#[test]
fn el_mensaje_del_servidor_informa_su_pedido() {
    let handler = Handler::new();
    assert_eq!(handler.procesar_mensaje_servidor(&MensajesServidor::PedidoExitoso(4)), 4);
    assert_eq!(handler.procesar_mensaje_servidor(&MensajesServidor::PedidoCancelado(5)), 5);
    assert_eq!(handler.procesar_mensaje_servidor(&MensajesServidor::NoHayStock(6)), 6);
}

#[test]
fn un_veredicto_repetido_se_descarta_sin_cambios() {
    let mut handler = Handler::new();
    handler.registrar_pendiente(9, Pedido::new(1, 2));
    assert!(handler.quitar_pendiente(9));
    // el segundo veredicto encuentra la tabla sin la entrada y no toca nada
    assert!(!handler.quitar_pendiente(9));
    assert!(!handler.quitar_pendiente(9));
}

#[test]
fn un_pedido_de_cantidad_cero_se_rechaza_sin_trafico() {
    let handler = Handler::new();
    assert_eq!(
        handler.procesar_pedido(1, Pedido::new(10, 0)),
        Err(ErrorEcommerce::CantidadCero)
    );
    assert_eq!(
        handler.procesar_pedido(1, Pedido::new(10, 2)),
        Ok(MensajeEcommerce::new(1, Pedido::new(10, 2)))
    );
}

#[test]
fn la_tienda_cercana_esta_en_la_rueda() {
    for _ in 0..50 {
        assert!(Handler::encontrar_tienda_cercana() < CANTIDAD_LOCALES as u16);
    }
}

#[test]
fn el_protocolo_reintenta_en_la_tienda_siguiente_cuando_no_hay_ack() {
    // La tienda 2 no responde el ack a tiempo: el pedido se reenvia a la 3
    let mensaje = MensajeEcommerce::new(0, Pedido::new(1, 1));
    let mut envio = EnvioPedido::nuevo(mensaje, 2);
    assert_eq!(envio.estado, EstadoEnvio::EsperandoAck);
    let accion = envio.avanzar(EventoEnvio::AckVencido);
    assert_eq!(accion, AccionEnvio::Reenviar(3));
    assert_eq!(envio.estado, EstadoEnvio::EsperandoAck);
    assert_eq!(envio.tienda, 3);
}

#[test]
fn el_protocolo_completo_de_un_pedido() {
    let mensaje = MensajeEcommerce::new(0, Pedido::new(1, 1));
    let mut envio = EnvioPedido::nuevo(mensaje, 3);

    // el ack llega: se registra el pedido y se espera el veredicto
    assert_eq!(envio.avanzar(EventoEnvio::AckRecibido), AccionEnvio::RegistrarYEsperar);
    assert_eq!(envio.estado, EstadoEnvio::EsperandoDesenlace);

    // el veredicto no llega: reenvio completo a la tienda siguiente, la 0
    assert_eq!(envio.avanzar(EventoEnvio::DesenlaceVencido), AccionEnvio::Reenviar(0));
    assert_eq!(envio.estado, EstadoEnvio::EsperandoAck);

    // esta vez llegan el ack y el veredicto
    assert_eq!(envio.avanzar(EventoEnvio::AckRecibido), AccionEnvio::RegistrarYEsperar);
    assert_eq!(envio.avanzar(EventoEnvio::DesenlaceRecibido), AccionEnvio::Nada);
    assert_eq!(envio.estado, EstadoEnvio::Terminado);
}
