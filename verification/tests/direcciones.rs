//! Pruebas de las direcciones de la rueda y de las señales externas.

use pidgeonhole::desconexion::dios::Dios;
use pidgeonhole::local::empleado::{Empleado, TomarPedido};
use pidgeonhole::pedido::Pedido;
use pidgeonhole::{
    id_a_dir_local, id_a_dir_medico, puerto_a_id, puerto_a_ip, siguiente_id_local,
    CANTIDAD_LOCALES, MAX_MENSAJE,
};

#[test]
fn las_direcciones_derivan_del_id() {
    assert_eq!(id_a_dir_local(0), "127.0.0.1:9000");
    assert_eq!(id_a_dir_local(3), "127.0.0.1:9003");
    assert_eq!(id_a_dir_medico(0), "127.0.0.1:10000");
    assert_eq!(id_a_dir_medico(2), "127.0.0.1:10002");
    assert_eq!(puerto_a_ip(45678), "127.0.0.1:45678");
    assert_eq!(puerto_a_id(9003), 3);
}

#[test]
fn la_rueda_da_la_vuelta() {
    assert_eq!(siguiente_id_local(0), 1);
    assert_eq!(siguiente_id_local(1), 2);
    assert_eq!(siguiente_id_local(2), 3);
    assert_eq!(siguiente_id_local(3), 0);
    assert_eq!(CANTIDAD_LOCALES, 4);
    assert_eq!(MAX_MENSAJE, 100);
}

#[test]
fn la_sinal_de_matar_viaja_a_la_direccion_principal() {
    let dios = Dios::new(1, true);
    assert_eq!(dios.datagrama(), vec![5u8]);
    assert_eq!(dios.direccion_objetivo(), "127.0.0.1:9001");
}

#[test]
fn la_sinal_de_revivir_viaja_al_medico() {
    let dios = Dios::new(1, false);
    assert_eq!(dios.datagrama(), vec![6u8]);
    assert_eq!(dios.direccion_objetivo(), "127.0.0.1:10001");
}

#[test]
fn el_empleado_le_pasa_el_pedido_al_guardian() {
    let empleado = Empleado::new();
    let descontar = empleado.tomar_pedido(TomarPedido::new(Pedido::new(1, 1), 0));
    assert_eq!(descontar.pedido, Pedido::new(1, 1));
    assert_eq!(descontar.id, 0);

    let descontar = empleado.tomar_pedido(TomarPedido::new(Pedido::new(2, 2), 1));
    assert_eq!(descontar.pedido, Pedido::new(2, 2));
    assert_eq!(descontar.id, 1);
}
