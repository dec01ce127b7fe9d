//! Pruebas del codec de mensajes: construccion, codificacion y
//! decodificacion de cada variante.

use pidgeonhole::mensajes::{
    AckDelegado, AckEcommerce, MensajeDelegado, MensajeEcommerce, MensajesServidor, TipoMensaje,
};
use pidgeonhole::pedido::Pedido;

#[test]
fn test_constructor_mensaje_ecommerce() {
    let pedido = Pedido::new(2, 3);
    let msg = MensajeEcommerce::new(1, pedido).as_bytes();

    let tipo = TipoMensaje::from_bytes(&msg);
    assert!(tipo.is_ok());
    match tipo.unwrap() {
        TipoMensaje::MensajeEcommerce => {
            let msg = MensajeEcommerce::from_bytes(&msg[1..]);
            assert!(msg.is_ok());
            let msg_ecommerce = msg.unwrap();
            assert_eq!(msg_ecommerce.id_pedido, 1);
            assert_eq!(msg_ecommerce.pedido.get_id(), 2);
            assert_eq!(msg_ecommerce.pedido.get_amount(), 3);
        }
        _ => assert!(false),
    }
}

#[test]
fn test_constructor_mensaje_delegado() {
    let pedido = Pedido::new(2, 3);

    let msg_ecom = MensajeEcommerce::new(1, pedido);
    let set_delegados = vec![1, 2];
    let msg = MensajeDelegado::new(msg_ecom.clone(), 3402, set_delegados).as_bytes();

    let tipo = TipoMensaje::from_bytes(&msg);
    assert!(tipo.is_ok());
    match tipo.unwrap() {
        TipoMensaje::MensajeDelegado => {
            let msg_recv = MensajeDelegado::from_bytes(&msg[1..]);
            assert!(msg_recv.is_ok());
            let msg_delegado = msg_recv.unwrap();
            assert_eq!(msg_delegado.mensaje_ecommerce, msg_ecom);
            assert_eq!(msg_delegado.puerto_ecommerce, 3402);
            assert!(msg_delegado.locales_ack.contains(&1));
            assert!(msg_delegado.locales_ack.contains(&2));
        }
        _ => assert!(false),
    }
}

#[test]
fn test_constructor_ack_delegado() {
    let ack_del = AckDelegado::new(12, 12000).as_bytes();

    let tipo = TipoMensaje::from_bytes(&ack_del);
    assert!(tipo.is_ok());
    match tipo.unwrap() {
        TipoMensaje::AckDelegado => {
            let msg_recv = AckDelegado::from_bytes(&ack_del[1..]).unwrap();
            assert_eq!(msg_recv.id_pedido, 12);
            assert_eq!(msg_recv.puerto, 12000);
        }
        _ => assert!(false),
    }
}

#[test]
fn test_constructor_ack_ecommerce() {
    let ack_ecom = AckEcommerce::new(12).as_bytes();

    let tipo = TipoMensaje::from_bytes(&ack_ecom);
    assert!(tipo.is_ok());
    match tipo.unwrap() {
        TipoMensaje::AckEcommerce => {
            let msg_recv = AckEcommerce::from_bytes(&ack_ecom[1..]).unwrap();
            assert_eq!(msg_recv.id_pedido, 12);
        }
        _ => assert!(false),
    }
}

#[test]
fn test_constructor_mensaje_servidor_exitoso() {
    let ack_ecom = MensajesServidor::PedidoExitoso(120).as_bytes();

    let tipo = TipoMensaje::from_bytes(&ack_ecom);
    assert!(tipo.is_ok());
    match tipo.unwrap() {
        TipoMensaje::MensajeServidor => {
            let msg_recv = MensajesServidor::from_bytes(&ack_ecom[1..]).unwrap();
            match msg_recv {
                MensajesServidor::PedidoExitoso(id) => assert_eq!(id, 120),
                _ => assert!(false),
            }
        }
        _ => assert!(false),
    }
}

#[test]
fn test_constructor_mensaje_servidor_cancelado() {
    let ack_ecom = MensajesServidor::PedidoCancelado(23).as_bytes();

    let tipo = TipoMensaje::from_bytes(&ack_ecom);
    assert!(tipo.is_ok());
    match tipo.unwrap() {
        TipoMensaje::MensajeServidor => {
            let msg_recv = MensajesServidor::from_bytes(&ack_ecom[1..]).unwrap();
            match msg_recv {
                MensajesServidor::PedidoCancelado(id) => assert_eq!(id, 23),
                _ => assert!(false),
            }
        }
        _ => assert!(false),
    }
}

#[test]
fn test_constructor_mensaje_servidor_sin_stock() {
    let ack_ecom = MensajesServidor::NoHayStock(652).as_bytes();

    let tipo = TipoMensaje::from_bytes(&ack_ecom);
    assert!(tipo.is_ok());
    match tipo.unwrap() {
        TipoMensaje::MensajeServidor => {
            let msg_recv = MensajesServidor::from_bytes(&ack_ecom[1..]).unwrap();
            match msg_recv {
                MensajesServidor::NoHayStock(id) => assert_eq!(id, 652),
                _ => assert!(false),
            }
        }
        _ => assert!(false),
    }
}

#[test]
fn mensaje_ecommerce_byte_exacto() {
    // El pedido {producto 2, cantidad 3} con id 1 viaja, byte a byte,
    // como tipo 1, id big-endian, producto big-endian y cantidad
    let msg = MensajeEcommerce::new(1, Pedido::new(2, 3)).as_bytes();
    assert_eq!(msg, vec![1u8, 0x00, 0x01, 0x00, 0x02, 0x03]);

    let tipo = TipoMensaje::from_bytes(&msg).unwrap();
    assert!(matches!(tipo, TipoMensaje::MensajeEcommerce));
    let de_vuelta = MensajeEcommerce::from_bytes(&msg[1..]).unwrap();
    assert_eq!(de_vuelta, MensajeEcommerce::new(1, Pedido::new(2, 3)));
}

#[test]
fn pedido_ida_y_vuelta_concreta() {
    let pedido = Pedido::new(700, 120);
    let bytes = pedido.as_bytes();
    assert_eq!(bytes, vec![0x02, 0xBC, 120]);
    let de_vuelta = Pedido::from_bytes(&bytes).unwrap();
    assert_eq!(de_vuelta, pedido);
}

#[test]
fn delegado_ida_y_vuelta_concreta() {
    let mensaje = MensajeDelegado::new(MensajeEcommerce::new(9, Pedido::new(4, 2)), 40000, vec![
        0, 2, 3,
    ]);
    let bytes = mensaje.as_bytes();
    // tipo, id 9, producto 4, cantidad 2, puerto 40000, largo 3, rastro
    assert_eq!(
        bytes,
        vec![2u8, 0, 9, 0, 4, 2, 0x9C, 0x40, 0, 3, 0, 0, 0, 2, 0, 3]
    );
    let de_vuelta = MensajeDelegado::from_bytes(&bytes[1..]).unwrap();
    assert_eq!(de_vuelta.mensaje_ecommerce, mensaje.mensaje_ecommerce);
    assert_eq!(de_vuelta.puerto_ecommerce, 40000);
    assert_eq!(de_vuelta.locales_ack, vec![0, 2, 3]);
}

#[test]
fn delegado_decodifica_rastro_repetido_como_conjunto() {
    // Un rastro con un id repetido entra una sola vez
    let bytes = vec![
        0, 9, 0, 4, 2, 0x9C, 0x40, 0, 3, 0, 1, 0, 1, 0, 2,
    ];
    let mensaje = MensajeDelegado::from_bytes(&bytes).unwrap();
    assert_eq!(mensaje.locales_ack, vec![1, 2]);
}

#[test]
fn decodificaciones_cortas_fallan() {
    assert!(TipoMensaje::from_bytes(&[]).is_err());
    assert!(TipoMensaje::from_bytes(&[9]).is_err());
    assert!(Pedido::from_bytes(&[0, 1]).is_err());
    assert!(MensajeEcommerce::from_bytes(&[0, 1, 0, 2]).is_err());
    assert!(AckEcommerce::from_bytes(&[5]).is_err());
    assert!(AckDelegado::from_bytes(&[0, 5, 0]).is_err());
    assert!(MensajesServidor::from_bytes(&[3, 0, 1]).is_err());
    // el rastro anuncia mas ids que los bytes presentes
    assert!(MensajeDelegado::from_bytes(&[0, 9, 0, 4, 2, 0x9C, 0x40, 0, 5, 0, 1]).is_err());
}

#[test]
fn tipos_de_mensaje_ida_y_vuelta() {
    let tipos = [
        TipoMensaje::MensajeServidor,
        TipoMensaje::MensajeEcommerce,
        TipoMensaje::MensajeDelegado,
        TipoMensaje::AckDelegado,
        TipoMensaje::AckEcommerce,
        TipoMensaje::Matar,
        TipoMensaje::Revivir,
    ];
    for (esperado, tipo) in tipos.iter().enumerate() {
        assert_eq!(tipo.codigo() as usize, esperado);
        let de_vuelta = TipoMensaje::from_bytes(&[tipo.codigo()]).unwrap();
        assert_eq!(de_vuelta, *tipo);
    }
}
