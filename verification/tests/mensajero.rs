//! Pruebas del mensajero: que responde en cada estado de su vida.

use pidgeonhole::errores::ErrorMensajero;
use pidgeonhole::local::mensajero::{
    Desconectar, Enviar, EstadoMensajero, Matar, Mensajero, Reconectar,
};

fn enviar_de_prueba() -> Enviar {
    Enviar::new(vec![1, 2, 3, 4, 5], String::from("127.0.0.1:9000"))
}

#[test]
fn el_mensajero_autoriza_envios_cuando_esta_vivo() {
    let mensajero = Mensajero::new();
    assert_eq!(mensajero.estado_actual(), EstadoMensajero::Conectado);
    assert!(mensajero.autorizar_envio(&enviar_de_prueba()).is_ok());
    assert!(mensajero.concluir_envio(true).is_ok());
}

#[test]
fn el_mensajero_no_envia_cuando_esta_desconectado() {
    let mut mensajero = Mensajero::new();
    mensajero.desconectar(Desconectar);
    assert_eq!(mensajero.estado_actual(), EstadoMensajero::Desconectado);
    assert_eq!(
        mensajero.autorizar_envio(&enviar_de_prueba()),
        Err(ErrorMensajero::InternetCaido)
    );
}

#[test]
fn el_mensajero_no_envia_cuando_esta_muerto() {
    let mut mensajero = Mensajero::new();
    mensajero.matar(Matar);
    assert_eq!(mensajero.estado_actual(), EstadoMensajero::Muerto);
    assert!(mensajero.autorizar_envio(&enviar_de_prueba()).is_err());
    // muerto se queda: ni desconectar ni reconectar lo mueven
    mensajero.desconectar(Desconectar);
    assert_eq!(mensajero.estado_actual(), EstadoMensajero::Muerto);
    mensajero.reconectar(Reconectar::new());
    assert_eq!(mensajero.estado_actual(), EstadoMensajero::Muerto);
}

#[test]
fn el_mensajero_envia_luego_de_revivir() {
    let mut mensajero = Mensajero::new();
    mensajero.desconectar(Desconectar);
    assert!(mensajero.autorizar_envio(&enviar_de_prueba()).is_err());
    mensajero.reconectar(Reconectar::new());
    assert_eq!(mensajero.estado_actual(), EstadoMensajero::Conectado);
    assert!(mensajero.autorizar_envio(&enviar_de_prueba()).is_ok());
}

#[test]
fn un_envio_que_no_llega_es_destino_inaccesible() {
    let mensajero = Mensajero::new();
    assert_eq!(
        mensajero.concluir_envio(false),
        Err(ErrorMensajero::DestinoInaccesible)
    );
}
